//! The input component: a labelled form text field.
use vstd::prelude::*;

use crate::features::story::ComponentStory;

verus! {

/// Data needed to render a form input field.
#[derive(Debug, Clone, PartialEq, Eq)]
pub struct InputProps {
    /// Visible label text.
    pub label: String,
    /// Form field name.
    pub name: String,
    /// Input type: text, email, password and so on.
    pub input_type: String,
    /// Placeholder shown while the field is empty.
    pub placeholder: Option<String>,
    /// Initial value.
    pub value: Option<String>,
    /// Whether the field must be filled to submit.
    pub required: bool,
    /// Id of an element that describes the input.
    pub aria_describedby: Option<String>,
}

/// Sample data for previewing the input in isolation.
pub fn fixture() -> (r: InputProps)
    ensures
        r.label@ == "Email Address"@,
        r.name@ == "email"@,
        r.input_type@ == "email"@,
        r.placeholder matches Some(p) && p@ == "you@example.com"@,
        r.value is None,
        r.required,
        r.aria_describedby is None,
{
    InputProps {
        label: String::from_str("Email Address"),
        name: String::from_str("email"),
        input_type: String::from_str("email"),
        placeholder: Some(String::from_str("you@example.com")),
        value: None,
        required: true,
        aria_describedby: None,
    }
}

impl ComponentStory for InputProps {
    fn story_name() -> &'static str {
        "input"
    }

    fn story_description() -> &'static str {
        "Form input field with label, validation, and accessibility features."
    }

    fn story_fixture() -> InputProps {
        fixture()
    }
}

} // verus!
