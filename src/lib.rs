//! Turns a short query such as `en->de: Hello` into a request for a machine
//! translation service, and the service's reply into results ready for the
//! clipboard.

pub mod lang;
pub mod text;
pub mod query;
pub mod format;
pub mod service;
