//! Cache of web-comic records and tier assignments, with the decisions of
//! the bulk download pass.

pub mod comic;
pub mod store;
pub mod paths;
pub mod sync;
