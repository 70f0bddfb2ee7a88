//! A greeting service with two routes: the handlers, and the table that says
//! which method and path reach which handler. A web server mounts the table
//! and calls the handlers; nothing here listens or sends.

pub mod handlers;
pub mod routes;

pub use handlers::{hello, index, Handler};
pub use routes::{routes, Method, Route};
