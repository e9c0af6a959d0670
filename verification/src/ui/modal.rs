//! The reusable text-input dialog.

use vstd::prelude::*;

use crate::text::str_equals;

verus! {

/// A text field of the dialog and what has been typed into it.
#[derive(Debug, Clone)]
pub struct TextInputModalField {
    pub name: String,
    pub placeholder: Option<String>,
    pub required: bool,
    pub value: String,
}

/// Every required field has been filled in.
pub open spec fn spec_required_fields_filled(fields: Seq<TextInputModalField>) -> bool {
    forall|i: int| 0 <= i < fields.len() && #[trigger] fields[i].required ==> fields[i].value@.len() > 0
}

/// Checks that every required field has been filled in.
pub fn check_required_fields(fields: &Vec<TextInputModalField>) -> (b: bool)
    ensures
        b == spec_required_fields_filled(fields@),
{
    let mut i: usize = 0;
    while i < fields.len()
        invariant
            0 <= i <= fields@.len(),
            forall|j: int| 0 <= j < i && #[trigger] fields@[j].required ==> fields@[j].value@.len() > 0,
        decreases fields@.len() - i,
    {
        if fields[i].required && fields[i].value.as_str().is_empty() {
            return false;
        }
        i = i + 1;
    }
    true
}

/// The dialog: a prompt, its fields and its actions; the last action is the
/// one submitted with the Enter key.
#[derive(Debug, Default, Clone, Copy)]
pub struct TextInputModal;

impl TextInputModal {
    /// A key press submits the dialog when it is Enter, there is an action
    /// to submit, and all required fields are filled in.
    pub fn submits_on_key(key: &str, fields: &Vec<TextInputModalField>, action_count: usize) -> (b:
        bool)
        ensures
            b == (key@ == "Enter"@ && action_count > 0 && spec_required_fields_filled(fields@)),
    {
        action_count > 0 && str_equals(key, "Enter") && check_required_fields(fields)
    }
}

} // verus!
