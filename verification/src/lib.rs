//! Two small developer conveniences: a generator that expands an ordered
//! list of names into distinct power-of-two integer constants (bitflags),
//! and chainable diagnostic decorators that pair any renderable value with
//! a labeled diagnostic line while passing the value through unchanged.

pub mod bitflags;
pub mod print_ext;
