//! A two-slot container addressed by a binary side label, and a summary of
//! which of two optional slots hold a value.

pub mod arrays;
pub mod case;
pub mod pair;
pub mod paired;
pub mod side;

pub use case::Case;
pub use pair::Pair;
pub use paired::Paired;
pub use side::InvalidOrdinal;
pub use side::Side;
