//! Product categories of a fixed taxonomy, resolved by numeric id or by full name.
//!
//! A category is held as a compact handle: its position in the table of categories sorted
//! by name. Ids resolve through a second table sorted by id; names resolve by binary search
//! of the name-sorted table.
pub mod builder;
pub mod category;
pub mod convert;
pub mod line;
pub mod naming;
pub mod order;
pub mod snapshot;
pub mod table;

pub use category::{Error, ProductCategory};
