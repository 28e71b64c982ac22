//! The content document of a page and the seed content of the homepage.
use vstd::prelude::*;

use crate::block::{blocks_view, Block, BlockView, BlockWithId, BlockWithIdView};
use crate::features::button::{ButtonProps, ButtonView};
use crate::features::header::{HeaderProps, HeaderView};
use crate::features::hero::{HeroProps, HeroView};

verus! {

/// The persisted unit of a route: its blocks in render order.
#[derive(Debug, Clone, PartialEq, Eq)]
pub struct HomepageData {
    pub blocks: Vec<BlockWithId>,
}

/// The seed content: a header and a hero with fixed ids.
pub open spec fn default_blocks_view() -> Seq<BlockWithIdView> {
    seq![
        BlockWithIdView {
            id: "550e8400-e29b-41d4-a716-446655440001"@,
            block: BlockView::Header(
                HeaderView {
                    headline: "Eng Manager"@,
                    button: ButtonView {
                        href: "/contact"@,
                        text: "Get in touch"@,
                        aria_label: "Contact us to discuss your engineering needs"@,
                    },
                },
            ),
        },
        BlockWithIdView {
            id: "550e8400-e29b-41d4-a716-446655440002"@,
            block: BlockView::Hero(
                HeroView {
                    headline: "Building world-class engineering teams"@,
                    subheadline: "Leadership through example, expertise, and empathy"@,
                },
            ),
        },
    ]
}

impl HomepageData {
    /// Wraps the given blocks, in the given order, as a document.
    pub fn new(blocks: Vec<BlockWithId>) -> (r: HomepageData)
        ensures
            r.blocks == blocks,
    {
        HomepageData { blocks }
    }

    /// The blocks shown when no persisted content exists.
    pub fn default_blocks() -> (r: Vec<BlockWithId>)
        ensures
            blocks_view(r@) == default_blocks_view(),
    {
        let header = BlockWithId {
            id: String::from_str("550e8400-e29b-41d4-a716-446655440001"),
            block: Block::Header(
                HeaderProps {
                    headline: String::from_str("Eng Manager"),
                    button: ButtonProps {
                        href: String::from_str("/contact"),
                        text: String::from_str("Get in touch"),
                        aria_label: String::from_str(
                            "Contact us to discuss your engineering needs",
                        ),
                    },
                },
            ),
        };
        let hero = BlockWithId {
            id: String::from_str("550e8400-e29b-41d4-a716-446655440002"),
            block: Block::Hero(
                HeroProps {
                    headline: String::from_str("Building world-class engineering teams"),
                    subheadline: String::from_str(
                        "Leadership through example, expertise, and empathy",
                    ),
                },
            ),
        };
        let r = vec![header, hero];
        assert(blocks_view(r@) =~= default_blocks_view());
        r
    }
}

/// Any two results of `default_blocks` are equal. They hold two blocks: a
/// header with headline "Eng Manager" whose button links to "/contact", then a
/// hero with headline "Building world-class engineering teams".
pub proof fn default_blocks_are_stable(a: Seq<BlockWithId>, b: Seq<BlockWithId>)
    requires
        blocks_view(a) == default_blocks_view(),
        blocks_view(b) == default_blocks_view(),
    ensures
        blocks_view(a) == blocks_view(b),
        a.len() == 2,
        a[0].block matches Block::Header(h) && h.headline@ == "Eng Manager"@ && h.button.href@
            == "/contact"@,
        a[1].block matches Block::Hero(h) && h.headline@ == "Building world-class engineering teams"@,
{
    assert(default_blocks_view().len() == 2);
    assert(blocks_view(a).len() == a.len());
    assert(blocks_view(a)[0] == a[0]@);
    assert(blocks_view(a)[1] == a[1]@);
}

} // verus!
