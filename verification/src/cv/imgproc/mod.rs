pub mod cvt_color;
pub mod dilate;
pub mod find;
