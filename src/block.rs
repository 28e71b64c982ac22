//! Blocks: the typed pieces of content that a page is made of.
use vstd::prelude::*;

use crate::features::header::{HeaderProps, HeaderView};
use crate::features::hero::{HeroProps, HeroView};

verus! {

/// One piece of page content, tagged by its component.
///
/// The set of variants is closed: every consumer matches on all of them, so a
/// new variant cannot silently go unrendered.
#[derive(Debug, Clone, PartialEq, Eq)]
pub enum Block {
    Header(HeaderProps),
    Hero(HeroProps),
}

/// The mathematical value of a block.
pub enum BlockView {
    Header(HeaderView),
    Hero(HeroView),
}

impl View for Block {
    type V = BlockView;

    open spec fn view(&self) -> BlockView {
        match self {
            Block::Header(p) => BlockView::Header(p@),
            Block::Hero(p) => BlockView::Hero(p@),
        }
    }
}

/// A block together with the identifier that addresses it within a page.
#[derive(Debug, Clone, PartialEq, Eq)]
pub struct BlockWithId {
    /// Identifier of this block instance, normally a UUID string.
    pub id: String,
    /// The block's content.
    pub block: Block,
}

/// The mathematical value of an identified block.
pub struct BlockWithIdView {
    pub id: Seq<char>,
    pub block: BlockView,
}

impl View for BlockWithId {
    type V = BlockWithIdView;

    open spec fn view(&self) -> BlockWithIdView {
        BlockWithIdView { id: self.id@, block: self.block@ }
    }
}

/// The values of a sequence of identified blocks, in order.
pub open spec fn blocks_view(s: Seq<BlockWithId>) -> Seq<BlockWithIdView> {
    s.map_values(|b: BlockWithId| b@)
}

/// Whether `c` is a digit or a lowercase letter from `a` to `f`.
pub open spec fn is_lower_hex(c: char) -> bool {
    ('0' <= c && c <= '9') || ('a' <= c && c <= 'f')
}

/// Whether `s` is a version-4 UUID in hyphenated lowercase form:
/// 36 characters, hyphens at 8, 13, 18 and 23, hex digits elsewhere, and the
/// version digit `4` at 14.
pub open spec fn is_hyphenated_uuid_v4(s: Seq<char>) -> bool {
    &&& s.len() == 36
    &&& forall|i: int|
        0 <= i < 36 ==> if i == 8 || i == 13 || i == 18 || i == 23 {
            #[trigger] s[i] == '-'
        } else {
            is_lower_hex(s[i])
        }
    &&& s[14] == '4'
}

/// How `ensure_block_ids` treats one block: an id that is present is kept with
/// the whole block; an empty one is replaced by a fresh UUID and the content kept.
pub open spec fn id_ensured(before: BlockWithId, after: BlockWithId) -> bool {
    if before.id@.len() > 0 {
        after == before
    } else {
        &&& after.block == before.block
        &&& is_hyphenated_uuid_v4(after.id@)
    }
}

/// Relies on `uuid::Uuid::new_v4` and the `Display` impl of `Uuid`: a random
/// version-4 UUID, written in the 36-character lowercase hyphenated form.
/// It panics only when the operating system's random source fails.
#[verifier::external_body]
fn fresh_block_id() -> (r: String)
    ensures
        is_hyphenated_uuid_v4(r@),
{
    uuid::Uuid::new_v4().to_string()
}

/// Gives every block with an empty id a freshly generated UUID; blocks that
/// already carry an id are returned unchanged. Order is kept.
pub fn ensure_block_ids(blocks: Vec<BlockWithId>) -> (r: Vec<BlockWithId>)
    ensures
        r.len() == blocks.len(),
        forall|i: int| 0 <= i < r.len() ==> id_ensured(#[trigger] blocks[i], r[i]),
{
    let ghost input = blocks@;
    let mut out: Vec<BlockWithId> = Vec::new();
    for b in it: blocks
        invariant
            it.seq() == input,
            out.len() == it.index(),
            forall|j: int| 0 <= j < out.len() ==> id_ensured(#[trigger] input[j], out[j]),
    {
        let mut b = b;
        if b.id.as_str().is_empty() {
            b.id = fresh_block_id();
        }
        out.push(b);
    }
    out
}

} // verus!
