use vstd::prelude::*;
use vstd::string::StrSliceExecFns;
use vstd::string::StringExecFns;
use crate::jira::error::TransportError;

verus! {

/// The path under which the service describes one project.
pub open spec fn project_path_spec(project_key: Seq<char>) -> Seq<char> {
    "project/"@ + project_key
}

/// The path under which the service lists the comments of one ticket, with
/// their rendered bodies.
pub open spec fn comments_path_spec(ticket_key: Seq<char>) -> Seq<char> {
    "/rest/api/3/issue/"@ + ticket_key + "/comment?expand=renderedBody"@
}

/// The address at which a browser shows one ticket.
pub open spec fn browse_url_spec(domain: Seq<char>, ticket_key: Seq<char>) -> Seq<char> {
    domain + "/browse/"@ + ticket_key
}

pub fn project_path(project_key: &str) -> (r: String)
    ensures
        r@ == project_path_spec(project_key@),
{
    let mut path = String::from_str("project/");
    path.append(project_key);
    path
}

pub fn comments_path(ticket_key: &str) -> (r: String)
    ensures
        r@ == comments_path_spec(ticket_key@),
{
    let mut path = String::from_str("/rest/api/3/issue/");
    path.append(ticket_key);
    path.append("/comment?expand=renderedBody");
    path
}

pub fn browse_url(domain: &str, ticket_key: &str) -> (r: String)
    ensures
        r@ == browse_url_spec(domain@, ticket_key@),
{
    let mut url = String::from_str(domain);
    url.append("/browse/");
    url.append(ticket_key);
    url
}

/// The same letter in either case.
pub open spec fn same_letter(c: char, lower: char, upper: char) -> bool {
    c == lower || c == upper
}

/// An address is secure when its scheme is `https`, in either case, followed
/// by `://`.
pub open spec fn is_secure_url(url: Seq<char>) -> bool {
    &&& url.len() >= 8
    &&& same_letter(url[0], 'h', 'H')
    &&& same_letter(url[1], 't', 'T')
    &&& same_letter(url[2], 't', 'T')
    &&& same_letter(url[3], 'p', 'P')
    &&& same_letter(url[4], 's', 'S')
    &&& url[5] == ':'
    &&& url[6] == '/'
    &&& url[7] == '/'
}

fn is_letter(c: char, lower: char, upper: char) -> (r: bool)
    ensures
        r == same_letter(c, lower, upper),
{
    c == lower || c == upper
}

/// Refuses an address that would not be reached over an encrypted channel.
pub fn require_secure(url: &str) -> (r: Result<(), TransportError>)
    ensures
        r is Ok <==> is_secure_url(url@),
        r is Err ==> r == Err::<(), TransportError>(TransportError::Insecure),
{
    if url.unicode_len() < 8 {
        return Err(TransportError::Insecure);
    }
    let secure = is_letter(url.get_char(0), 'h', 'H') && is_letter(url.get_char(1), 't', 'T')
        && is_letter(url.get_char(2), 't', 'T') && is_letter(url.get_char(3), 'p', 'P')
        && is_letter(url.get_char(4), 's', 'S') && url.get_char(5) == ':' && url.get_char(6)
        == '/' && url.get_char(7) == '/';
    if secure {
        Ok(())
    } else {
        Err(TransportError::Insecure)
    }
}

/// The part of every path of the service's API that comes after the domain.
pub open spec fn api_root() -> Seq<char> {
    "/rest/api/3/"@
}

/// The address that a request goes to. A target that starts with `/` is a
/// path below the domain; a secure address is taken as it is; anything else
/// is a path below the root of the API.
pub open spec fn resolved_url(domain: Seq<char>, target: Seq<char>) -> Seq<char> {
    if target.len() > 0 && target[0] == '/' {
        domain + target
    } else if is_secure_url(target) {
        target
    } else {
        domain + api_root() + target
    }
}

/// Turns a path or an address into the address that the request goes to.
pub fn resolve_url(domain: &str, target: &str) -> (r: String)
    ensures
        r@ == resolved_url(domain@, target@),
{
    if target.unicode_len() > 0 && target.get_char(0) == '/' {
        let mut url = String::from_str(domain);
        url.append(target);
        url
    } else if require_secure(target).is_ok() {
        String::from_str(target)
    } else {
        let mut url = String::from_str(domain);
        url.append("/rest/api/3/");
        url.append(target);
        url
    }
}

/// Whether a status code says that the request succeeded.
pub open spec fn is_success(code: u16) -> bool {
    200 <= code <= 299
}

/// Turns a status code outside 200..=299 into an error.
pub fn check_status(code: u16) -> (r: Result<(), TransportError>)
    ensures
        r is Ok <==> is_success(code),
        r is Err ==> r == Err::<(), TransportError>(TransportError::Status { code }),
{
    if 200 <= code && code <= 299 {
        Ok(())
    } else {
        Err(TransportError::Status { code })
    }
}

} // verus!
