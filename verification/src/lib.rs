pub mod codec;
pub mod crop;
pub mod error;
pub mod fetch;
pub mod img;
pub mod pipeline;
