use vstd::prelude::*;
use crate::jira::error::SchemaError;
use crate::text::ends_with;

verus! {

/// One value that the operator may pick for a field of a transition.
#[derive(Debug, PartialEq, Eq)]
pub struct CustomFieldAllowedValues {
    pub value: String,
    pub id: Option<String>,
}

/// What the service says about the type of a field.
#[derive(Clone, Debug, PartialEq, Eq)]
pub struct TransitionFieldSchema {
    /// The custom field type, such as
    /// `com.atlassian.jira.plugin.system.customfieldtypes:select`.
    pub custom: Option<String>,
}

/// One field that a transition asks for.
#[derive(Clone, Debug, PartialEq, Eq)]
pub struct TransitionField {
    pub allowed_values: Option<Vec<CustomFieldAllowedValues>>,
    pub schema: TransitionFieldSchema,
}

/// The fields of a transition, each under its key, in the order in which
/// they were handed over.
#[derive(Clone, Debug, PartialEq, Eq)]
pub struct TransitionFields {
    pub values: Vec<(String, TransitionField)>,
}

/// A workflow action that moves a ticket to another status.
#[derive(Clone, Debug, PartialEq, Eq)]
pub struct TicketTransition {
    pub id: String,
    pub name: Option<String>,
    /// Whether completing the transition needs a secondary screen.
    pub has_screen: Option<bool>,
    pub fields: Option<TransitionFields>,
}

/// The transitions that are open to one ticket.
#[derive(Clone, Debug, PartialEq, Eq)]
pub struct TicketTransitions {
    pub transitions: Vec<TicketTransition>,
}

/// The kinds of custom field that the secondary screen knows how to resolve.
#[derive(Clone, Copy, Debug, PartialEq, Eq, Structural)]
pub enum FieldKind {
    /// A field answered by picking one of its allowed values.
    Select,
    Unrecognized,
}

impl Clone for CustomFieldAllowedValues {
    fn clone(&self) -> (r: Self)
        ensures
            r == *self,
    {
        let id = match &self.id {
            Some(i) => Some(i.clone()),
            None => None,
        };
        CustomFieldAllowedValues { value: self.value.clone(), id }
    }
}

/// The ending that marks a custom field type as a select field.
pub open spec fn select_marker() -> Seq<char> {
    ":select"@
}

impl TransitionFieldSchema {
    pub open spec fn kind_spec(&self) -> FieldKind {
        match self.custom {
            Some(c) if select_marker().is_suffix_of(c@) => FieldKind::Select,
            _ => FieldKind::Unrecognized,
        }
    }

    /// The kind of field that this schema describes.
    pub fn kind(&self) -> (r: FieldKind)
        ensures
            r == self.kind_spec(),
    {
        match &self.custom {
            Some(c) => {
                if ends_with(c.as_str(), ":select") {
                    FieldKind::Select
                } else {
                    FieldKind::Unrecognized
                }
            },
            None => FieldKind::Unrecognized,
        }
    }
}

impl TransitionField {
    /// A field can fill the secondary screen when it is a select field that
    /// lists its allowed values.
    pub open spec fn selectable(&self) -> bool {
        self.schema.kind_spec() == FieldKind::Select && self.allowed_values is Some
    }

    pub fn is_selectable(&self) -> (r: bool)
        ensures
            r == self.selectable(),
    {
        self.schema.kind() == FieldKind::Select && self.allowed_values.is_some()
    }
}

/// The position of the last field that can fill the secondary screen.
pub open spec fn last_selectable(fields: Seq<(String, TransitionField)>) -> Option<int>
    decreases fields.len(),
{
    if fields.len() == 0 {
        None
    } else if fields.last().1.selectable() {
        Some(fields.len() - 1)
    } else {
        last_selectable(fields.drop_last())
    }
}

/// `last_selectable` finds a field that can fill the screen, with none after
/// it that can; it finds nothing only where no field can.
pub proof fn lemma_last_selectable(fields: Seq<(String, TransitionField)>)
    ensures
        match last_selectable(fields) {
            Some(i) => {
                &&& 0 <= i < fields.len()
                &&& fields[i].1.selectable()
                &&& forall|j: int| i < j < fields.len() ==> !(#[trigger] fields[j]).1.selectable()
            },
            None => forall|j: int| 0 <= j < fields.len() ==> !(#[trigger] fields[j]).1.selectable(),
        },
    decreases fields.len(),
{
    if fields.len() > 0 && !fields.last().1.selectable() {
        lemma_last_selectable(fields.drop_last());
        let rest = fields.drop_last();
        assert forall|j: int| 0 <= j < rest.len() implies rest[j] == fields[j] by {}
    }
}

impl TicketTransition {
    /// Whether completing this transition needs the secondary screen.
    pub open spec fn needs_screen(&self) -> bool {
        self.has_screen == Some(true)
    }

    /// The values that the secondary screen offers for this transition: the
    /// allowed values of its last select field. A transition without fields,
    /// or without a select field that lists its values, has none to offer.
    pub open spec fn screen_values_spec(&self) -> Result<
        Seq<CustomFieldAllowedValues>,
        SchemaError,
    > {
        match self.fields {
            None => Err(SchemaError::MissingFields),
            Some(fields) => match last_selectable(fields.values@) {
                None => Err(SchemaError::NoSelectField),
                Some(i) => Ok(fields.values@[i].1.allowed_values->0@),
            },
        }
    }

    pub fn check_has_screen(&self) -> (r: bool)
        ensures
            r == self.needs_screen(),
    {
        match self.has_screen {
            Some(b) => b,
            None => false,
        }
    }

    /// The position, among the fields of this transition, of the field that
    /// the secondary screen resolves.
    pub open spec fn screen_field_spec(&self) -> Result<int, SchemaError> {
        match self.fields {
            None => Err(SchemaError::MissingFields),
            Some(fields) => match last_selectable(fields.values@) {
                None => Err(SchemaError::NoSelectField),
                Some(i) => Ok(i),
            },
        }
    }

    /// Inspects the field schema for the field that the secondary screen
    /// resolves: the last select field that lists its allowed values.
    pub fn screen_field(&self) -> (r: Result<usize, SchemaError>)
        ensures
            match r {
                Ok(i) => self.screen_field_spec() == Ok::<int, SchemaError>(i as int) && i
                    < self.fields->0.values@.len()
                    && self.fields->0.values@[i as int].1.selectable(),
                Err(e) => self.screen_field_spec() == Err::<int, SchemaError>(e),
            },
    {
        let fields = match &self.fields {
            None => {
                return Err(SchemaError::MissingFields);
            },
            Some(f) => f,
        };
        let mut found: Option<usize> = None;
        let mut i: usize = 0;
        while i < fields.values.len()
            invariant
                i <= fields.values@.len(),
                match found {
                    Some(k) => last_selectable(fields.values@.take(i as int)) == Some(k as int),
                    None => last_selectable(fields.values@.take(i as int)) is None,
                },
            decreases fields.values@.len() - i,
        {
            proof {
                let next = fields.values@.take(i + 1);
                assert(next.drop_last() =~= fields.values@.take(i as int));
                assert(next.last() == fields.values@[i as int]);
            }
            if fields.values[i].1.is_selectable() {
                found = Some(i);
            }
            i += 1;
        }
        proof {
            assert(fields.values@.take(i as int) =~= fields.values@);
            lemma_last_selectable(fields.values@);
        }
        match found {
            None => Err(SchemaError::NoSelectField),
            Some(k) => Ok(k),
        }
    }

    /// Collects the values for the secondary screen: the allowed values of
    /// the field that the screen resolves.
    pub fn screen_values(&self) -> (r: Result<Vec<CustomFieldAllowedValues>, SchemaError>)
        ensures
            match r {
                Ok(v) => self.screen_values_spec() == Ok::<Seq<CustomFieldAllowedValues>, SchemaError>(v@),
                Err(e) => self.screen_values_spec() == Err::<Seq<CustomFieldAllowedValues>, SchemaError>(e),
            },
    {
        let k = self.screen_field()?;
        match &self.fields {
            Some(fields) => match &fields.values[k].1.allowed_values {
                Some(values) => {
                    let copy = values.clone();
                    assert(copy@ =~= values@);
                    Ok(copy)
                },
                None => Err(SchemaError::NoSelectField),
            },
            None => Err(SchemaError::MissingFields),
        }
    }
}

} // verus!
