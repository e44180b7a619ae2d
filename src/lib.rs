//! Data timestamping on the Monero ledger: a digest of some data picks a view
//! key, whose address is paid to commit the data, and a transaction paying it
//! is later recognised by scanning its first output.

pub mod address;
pub mod digest;
pub mod keys;
pub mod lookup;
pub mod network;
pub mod scan;

pub use address::timestamp;
pub use scan::verify;
