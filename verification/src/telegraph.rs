//! The Telegraph publishing client's data model. This is a legacy path
//! beside the primary pipeline; the HTTP methods that consume these types
//! live outside the library.

pub mod methods;
pub mod types;
