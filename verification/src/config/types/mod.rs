pub mod color;
pub mod fourcc;
