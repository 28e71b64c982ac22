//! Component schemas: the props that each block or widget carries, and the
//! metadata that lets each component be previewed on its own.
pub mod button;
pub mod checkbox;
pub mod header;
pub mod hero;
pub mod input;
pub mod story;
