//! Runtime support for a table-driven parser engine that runs inside a host
//! without a C runtime: character classification, the layout arithmetic of
//! the allocation shim, and the text of the assertion-failure report.

pub mod block;
pub mod classify;
pub mod report;

pub use classify::{iswalnum, iswdigit, iswspace};
