//! Query engine core: SQL cell marshaling, result rows, response envelopes
//! and the seeded sales table.

pub mod clock;
pub mod driver;
pub mod query;
pub mod response;
pub mod row;
pub mod sample;
pub mod storage;
pub mod value;
