//! A key-value store whose entries expire.
//!
//! Every entry carries an absolute expiration instant. Reads treat an expired
//! entry as absent and evict it on the way; `purge` does the same for the whole
//! table. There is no background sweeper: an entry that nobody touches stays
//! in the table until it is read, removed or purged.

pub mod clock;
pub mod data;
pub mod laws;
pub mod map;
pub mod model;
pub mod table;

pub use dashmap::mapref::entry::{Entry, OccupiedEntry, VacantEntry};
pub use dashmap::mapref::one::{Ref, RefMut};
pub use data::Data;
pub use map::{DeadlineOverflow, TransientDashMap};
