//! Request planning, URL signing preparation and transport bookkeeping for a
//! command-line client of a cloud object store.

pub mod auth;
pub mod color;
pub mod cp;
pub mod executor;
pub mod rm;
pub mod signurl;
pub mod stat;
pub mod text;
pub mod transport;
pub mod util;
