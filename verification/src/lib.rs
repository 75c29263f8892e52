//! Keeps redirects correct behind a reverse proxy that serves the application
//! under a path prefix: the prefix announced in `X-Forwarded-Prefix` is put in
//! front of the request path, and the result becomes the response's `Location`.

pub mod headers;
pub mod laws;
pub mod middleware;
pub mod rewrite;
pub mod text;

pub use middleware::{settle, Failure, ForwardPrefix, Request, Response, SayHiMiddleware};
pub use rewrite::{
    forwarded_prefix, location, rewrite_target, set_location, RewriteError, LOCATION,
    X_FORWARDED_PREFIX,
};
