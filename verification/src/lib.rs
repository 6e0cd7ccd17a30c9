pub mod frame;
pub mod stream;
pub mod transform;
