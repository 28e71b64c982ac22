//! The hero component: a large headline with supporting text.
use vstd::prelude::*;

verus! {

/// Data needed to render the hero section.
#[derive(Debug, Clone, PartialEq, Eq)]
pub struct HeroProps {
    /// Main hero heading.
    pub headline: String,
    /// Supporting text below the heading.
    pub subheadline: String,
}

/// The mathematical value of a hero section.
pub struct HeroView {
    pub headline: Seq<char>,
    pub subheadline: Seq<char>,
}

impl View for HeroProps {
    type V = HeroView;

    open spec fn view(&self) -> HeroView {
        HeroView { headline: self.headline@, subheadline: self.subheadline@ }
    }
}

} // verus!
