pub mod handle;
pub mod laws;
pub mod reservoir;

pub use handle::Handle;
pub use reservoir::Reservoir;
