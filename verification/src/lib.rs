//! Index arithmetic and visibility decisions for a virtualized grid of images.

pub mod grid;
pub mod layout;
pub mod row;
pub mod slot;
pub mod source;
pub mod state;
