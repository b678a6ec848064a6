pub mod matdiff;
pub mod motion;
