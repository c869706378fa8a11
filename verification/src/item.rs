//! The leaf value of a selection list: a labeled, optionally disabled option
//! carrying an opaque payload that is handed back to the caller on commit.

use vstd::prelude::*;

verus! {

/// One selectable option: a label shown to the user, an opaque payload
/// returned to the caller when the option is committed, and a `disabled`
/// flag. A disabled item is rendered but can never become the committed
/// selection.
#[derive(Debug, Clone)]
pub struct UCLISelectItem<T> {
    /// The label drawn for this item.
    pub text: String,
    /// The payload handed back to the caller if this item is committed.
    pub value: T,
    /// A disabled item can never be committed.
    pub disabled: bool,
}

impl<T> UCLISelectItem<T> {
    /// Builds an item from its three fields.
    pub fn new(text: String, value: T, disabled: bool) -> (r: Self)
        ensures
            r.text == text,
            r.value == value,
            r.disabled == disabled,
    {
        Self { text, value, disabled }
    }

    /// Builds an enabled item from a borrowed label.
    pub fn default(text: &str, value: T) -> (r: Self)
        ensures
            r.text@ == text@,
            r.value == value,
            !r.disabled,
    {
        Self { text: text.to_owned(), value, disabled: false }
    }
}

} // verus!
