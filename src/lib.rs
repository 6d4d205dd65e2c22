//! A lazily initialized global value slot that can be overridden and reset,
//! so that code reads one shared dependency while tests swap it out.

pub mod accessor;
pub mod model;
pub mod slot;

pub use accessor::MockableAccessor;
pub use slot::GlobalMockable;
