//! Metadata that a component provides to be previewed in isolation.
use vstd::prelude::*;

verus! {

/// A component whose props can be previewed with sample data.
///
/// Rendering the preview is left to the presentation layer; this trait carries
/// what that layer needs to know about the component.
pub trait ComponentStory: Sized {
    /// The story identifier, used in preview URLs.
    fn story_name() -> &'static str;

    /// Human-readable description shown on the preview page.
    fn story_description() -> &'static str;

    /// Sample props that demonstrate the component.
    fn story_fixture() -> Self;

    /// Stylesheets needed besides the component's own `/features/{name}/styles.css`.
    fn additional_stylesheets() -> Vec<&'static str> {
        Vec::new()
    }
}

} // verus!
