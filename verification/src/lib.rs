pub mod digits;
pub mod errors;
pub mod outside;
pub mod pipeline;
