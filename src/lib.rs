//! A verified bridge between a host's tagged-union wire values, its memory
//! gateway and callback connection, and components described by method and
//! property tables.

pub mod value;
pub mod memory;
pub mod slot;
pub mod metadata;
pub mod date;
pub mod interface;
pub mod container;
pub mod my_add_in;
pub mod entry;
