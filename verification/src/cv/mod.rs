pub mod geometry;
pub mod imgproc;
pub mod videoio;
