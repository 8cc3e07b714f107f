pub mod color;
pub mod palette;
pub mod scheme;
