pub mod descriptor;
pub mod error;
pub mod handles;
pub mod pool;
