//! The button component: a link with a visible label and an accessible name.
use vstd::prelude::*;

use crate::features::story::ComponentStory;

verus! {

/// Story identifier of the button component.
pub const NAME: &'static str = "button";

/// Data needed to render a clickable button link.
#[derive(Debug, Clone, PartialEq, Eq)]
pub struct ButtonProps {
    /// Target of the link.
    pub href: String,
    /// Visible label.
    pub text: String,
    /// Accessible description for screen readers.
    pub aria_label: String,
}

/// The mathematical value of a button: its three texts.
pub struct ButtonView {
    pub href: Seq<char>,
    pub text: Seq<char>,
    pub aria_label: Seq<char>,
}

impl View for ButtonProps {
    type V = ButtonView;

    open spec fn view(&self) -> ButtonView {
        ButtonView { href: self.href@, text: self.text@, aria_label: self.aria_label@ }
    }
}

/// Sample data for previewing the button in isolation.
pub fn fixture() -> (r: ButtonProps)
    ensures
        r@ == (ButtonView {
            href: "/example"@,
            text: "Example Button"@,
            aria_label: "Example button for demonstration"@,
        }),
{
    ButtonProps {
        href: String::from_str("/example"),
        text: String::from_str("Example Button"),
        aria_label: String::from_str("Example button for demonstration"),
    }
}

impl ComponentStory for ButtonProps {
    fn story_name() -> &'static str {
        NAME
    }

    fn story_description() -> &'static str {
        "Interactive button component with link and accessibility features."
    }

    fn story_fixture() -> ButtonProps {
        fixture()
    }
}

} // verus!
