//! The header component: a headline with a call-to-action button.
use vstd::prelude::*;

use crate::features::button::{ButtonProps, ButtonView};
use crate::features::story::ComponentStory;

verus! {

/// Story identifier of the header component.
pub const NAME: &'static str = "header";

/// Data needed to render the page header section.
#[derive(Debug, Clone, PartialEq, Eq)]
pub struct HeaderProps {
    /// Main heading text.
    pub headline: String,
    /// Call-to-action button.
    pub button: ButtonProps,
}

/// The mathematical value of a header.
pub struct HeaderView {
    pub headline: Seq<char>,
    pub button: ButtonView,
}

impl View for HeaderProps {
    type V = HeaderView;

    open spec fn view(&self) -> HeaderView {
        HeaderView { headline: self.headline@, button: self.button@ }
    }
}

/// Sample data for previewing the header in isolation.
pub fn fixture() -> (r: HeaderProps)
    ensures
        r@ == (HeaderView {
            headline: "Sample Header Component"@,
            button: ButtonView {
                href: "https://www.google.com"@,
                text: "Click Me"@,
                aria_label: "Navigate to Google"@,
            },
        }),
{
    HeaderProps {
        headline: String::from_str("Sample Header Component"),
        button: ButtonProps {
            href: String::from_str("https://www.google.com"),
            text: String::from_str("Click Me"),
            aria_label: String::from_str("Navigate to Google"),
        },
    }
}

impl ComponentStory for HeaderProps {
    fn story_name() -> &'static str {
        NAME
    }

    fn story_description() -> &'static str {
        "Page header with headline and call-to-action button."
    }

    fn story_fixture() -> HeaderProps {
        fixture()
    }

    fn additional_stylesheets() -> Vec<&'static str> {
        vec!["/assets/styles.css", "/features/button/styles.css"]
    }
}

} // verus!
