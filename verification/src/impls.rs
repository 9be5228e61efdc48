//! The interactive message variants: one concrete type per command family,
//! each implementing the active-message contract. Variants differ only in
//! how they render page content from their payload; cursor arithmetic and
//! event handling are shared.

pub mod command_count;
pub mod medal_count;
pub mod medals_missing;
