//! A ticket store served by a single worker over bounded channels, and a
//! sum computed over two halves of a slice.
pub mod bounded;
pub mod channels;
pub mod data;
pub mod scoped_sum;
pub mod store;
pub mod worker;
