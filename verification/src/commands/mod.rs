//! What the one-shot commands print, as lines of text.

pub mod country;
pub mod favorites;
pub mod hello;
pub mod search;
