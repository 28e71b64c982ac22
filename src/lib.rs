//! Content model and route-aware persistence rules for a block-based website.
//!
//! The homepage (and every other route) is an ordered list of typed blocks.
//! This crate holds the block model, the fixed seed content, the lookup from
//! a route name to its content file, the fallback ladder that turns a read
//! outcome into renderable content, and the preparation of a save.
pub mod features;
pub mod block;
pub mod homepage;
pub mod persistence;
pub mod stories;

pub use block::{ensure_block_ids, Block, BlockWithId};
pub use features::button::ButtonProps;
pub use features::checkbox::CheckboxProps;
pub use features::header::HeaderProps;
pub use features::hero::HeroProps;
pub use features::input::InputProps;
pub use features::story::ComponentStory;
pub use homepage::HomepageData;
pub use persistence::{
    default_routes, get_content_path, load_blocks, load_homepage_blocks, load_or_default,
    load_routes, save_blocks, save_homepage_blocks, update_route, ContentRead, PersistError,
    Route, RoutesRead,
};
pub use stories::{capitalize_first, get_all_stories, Story};
