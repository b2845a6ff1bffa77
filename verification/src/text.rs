use vstd::prelude::*;
use vstd::string::StrSliceExecFns;

verus! {

/// `String::push` appends the given character to the end of the string.
pub assume_specification[ String::push ](s: &mut String, c: char)
    ensures
        final(s)@ == old(s)@.push(c),
;

/// `String::pop` removes the last character and returns it, and leaves an
/// empty string as it is, returning `None`.
pub assume_specification[ String::pop ](s: &mut String) -> (r: Option<char>)
    ensures
        old(s)@.len() == 0 ==> r is None && final(s)@ == old(s)@,
        old(s)@.len() > 0 ==> r == Some(old(s)@.last()) && final(s)@ == old(s)@.drop_last(),
;

/// `String::clear` removes all contents of the string.
pub assume_specification[ String::clear ](s: &mut String)
    ensures
        final(s)@ == Seq::<char>::empty(),
;

/// The characters of `s`, one by one.
pub fn chars_of(s: &str) -> (r: Vec<char>)
    ensures
        r@ == s@,
{
    let mut chars: Vec<char> = Vec::new();
    for c in it: s.chars()
        invariant
            it.seq() == s@,
            chars@ == s@.take(it.index() as int),
    {
        proof {
            let i = it.index() as int;
            assert(s@.take(i + 1) =~= s@.take(i).push(s@[i]));
        }
        chars.push(c);
    }
    proof {
        assert(s@.take(s@.len() as int) =~= s@);
    }
    chars
}

/// Whether the last characters of `s` are exactly those of `suffix`.
pub fn ends_with(s: &str, suffix: &str) -> (r: bool)
    ensures
        r == suffix@.is_suffix_of(s@),
{
    let text = chars_of(s);
    let end = chars_of(suffix);
    let n: usize = text.len();
    let k: usize = end.len();
    if k > n {
        return false;
    }
    let start: usize = n - k;
    let mut i: usize = 0;
    while i < k
        invariant
            text@ == s@,
            end@ == suffix@,
            n == s@.len(),
            k == suffix@.len(),
            k <= n,
            start == n - k,
            i <= k,
            forall|j: int| 0 <= j < i ==> s@[start + j] == suffix@[j],
        decreases k - i,
    {
        if text[start + i] != end[i] {
            assert(s@.subrange(start as int, n as int)[i as int] != suffix@[i as int]);
            return false;
        }
        i += 1;
    }
    assert(suffix@ =~= s@.subrange(start as int, n as int));
    true
}

/// How many line breaks a text holds.
pub open spec fn line_breaks(s: Seq<char>) -> nat {
    s.filter(|c: char| c == '\n').len()
}

/// Counts the line breaks of `s`.
pub fn count_line_breaks(s: &str) -> (r: usize)
    ensures
        r == line_breaks(s@),
{
    // the length bounds the count, which therefore fits
    let n: usize = s.unicode_len();
    let mut count: usize = 0;
    for c in it: s.chars()
        invariant
            n == s@.len(),
            it.seq() == s@,
            count == line_breaks(s@.take(it.index() as int)),
            count <= it.index(),
    {
        proof {
            let i = it.index() as int;
            reveal(Seq::filter);
            assert(s@.take(i + 1).drop_last() =~= s@.take(i));
            assert(s@.take(i + 1).last() == s@[i]);
        }
        if c == '\n' {
            count += 1;
        }
    }
    proof {
        assert(s@.take(n as int) =~= s@);
    }
    count
}

} // verus!
