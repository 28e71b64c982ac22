//! The checkbox component: a labelled form checkbox.
use vstd::prelude::*;

use crate::features::story::ComponentStory;

verus! {

/// Data needed to render a checkbox input field.
#[derive(Debug, Clone, PartialEq, Eq)]
pub struct CheckboxProps {
    /// Visible label text.
    pub label: String,
    /// Form field name.
    pub name: String,
    /// Submitted value; the browser sends "on" when absent.
    pub value: Option<String>,
    /// Whether the box starts checked.
    pub checked: bool,
    /// Whether the field must be checked to submit.
    pub required: bool,
    /// Id of an element that describes the checkbox.
    pub aria_describedby: Option<String>,
}

/// Sample data for previewing the checkbox in isolation.
pub fn fixture() -> (r: CheckboxProps)
    ensures
        r.label@ == "Send me product updates and announcements"@,
        r.name@ == "newsletter"@,
        r.value matches Some(v) && v@ == "subscribe"@,
        !r.checked,
        !r.required,
        r.aria_describedby is None,
{
    CheckboxProps {
        label: String::from_str("Send me product updates and announcements"),
        name: String::from_str("newsletter"),
        value: Some(String::from_str("subscribe")),
        checked: false,
        required: false,
        aria_describedby: None,
    }
}

impl ComponentStory for CheckboxProps {
    fn story_name() -> &'static str {
        "checkbox"
    }

    fn story_description() -> &'static str {
        "Checkbox input field with label, checked state, and accessibility features."
    }

    fn story_fixture() -> CheckboxProps {
        fixture()
    }
}

} // verus!
