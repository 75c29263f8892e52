//! The middleware: what wraps a request handler and rewrites the `Location`
//! of every response that the handler produces.

use crate::headers::header_entries;
use crate::rewrite::{location, location_text, set_location, with_location, RewriteError};
use crate::text::is_encodable;
use actix_web::http::header::HeaderMap;
use vstd::prelude::*;

verus! {

/// What the middleware reads of a request before it hands the request on.
#[derive(Debug)]
pub struct Request {
    /// The path as the application sees it.
    pub path: String,
    /// The request's headers.
    pub headers: HeaderMap,
}

/// A response on its way back through the middleware.
#[derive(Debug)]
pub struct Response<B> {
    /// The status code. The middleware neither reads nor changes it.
    pub status: u16,
    /// The response's headers.
    pub headers: HeaderMap,
    /// The rest of the response, carried through untouched.
    pub body: B,
}

/// Why a request that went through the middleware has no response.
#[derive(Debug)]
pub enum Failure<E> {
    /// The wrapped handler failed. Its error is handed on as it came.
    Downstream(E),
    /// The handler produced a response, but the rewrite target could not be
    /// written into it. The host answers with a server error.
    Rewrite(RewriteError),
}

/// The factory of the middleware: given a handler, it wraps it.
#[derive(Debug, Clone, Copy)]
pub struct ForwardPrefix;

/// A request handler wrapped by the rewrite.
pub struct SayHiMiddleware<S> {
    service: S,
}

/// `outer` is `inner` with the target in its `Location`: the status and the
/// body are those of `inner`, and so is every header but `Location`.
pub open spec fn is_rewrite_of<B>(outer: Response<B>, inner: Response<B>, target: Seq<char>) -> bool {
    &&& outer.status == inner.status
    &&& outer.body == inner.body
    &&& header_entries(outer.headers) == with_location(header_entries(inner.headers), target)
}

/// What the middleware makes of the wrapped handler's outcome. A failure of
/// the handler is passed on unchanged. A response is rewritten, whatever its
/// status, unless the target cannot be written into a header.
pub open spec fn settles<B, E>(
    target: Seq<char>,
    downstream: Result<Response<B>, E>,
    settled: Result<Response<B>, Failure<E>>,
) -> bool {
    match downstream {
        Err(error) => settled == Err::<Response<B>, Failure<E>>(Failure::Downstream(error)),
        Ok(inner) => if is_encodable(target) {
            settled matches Ok(outer) && is_rewrite_of(outer, inner, target)
        } else {
            settled == Err::<Response<B>, Failure<E>>(
                Failure::Rewrite(RewriteError::UnencodableHeaderValue),
            )
        },
    }
}

/// Finishes a request once the wrapped handler has come back: the second
/// half of the middleware's work, for a host that runs the handler itself.
pub fn settle<B, E>(target: &str, downstream: Result<Response<B>, E>) -> (settled: Result<
    Response<B>,
    Failure<E>,
>)
    ensures
        settles(target@, downstream, settled),
{
    match downstream {
        Err(error) => Err(Failure::Downstream(error)),
        Ok(inner) => {
            let mut outer = inner;
            match set_location(&mut outer.headers, target) {
                Ok(()) => Ok(outer),
                Err(error) => Err(Failure::Rewrite(error)),
            }
        },
    }
}

impl Default for ForwardPrefix {
    fn default() -> (factory: Self)
        ensures
            factory == ForwardPrefix,
    {
        ForwardPrefix
    }
}

impl ForwardPrefix {
    /// Wraps a handler. This cannot fail.
    pub fn new_transform<S>(&self, service: S) -> (made: Result<SayHiMiddleware<S>, ()>)
        ensures
            made matches Ok(middleware) && middleware.wrapped() == service,
    {
        Ok(SayHiMiddleware { service })
    }
}

impl<S> SayHiMiddleware<S> {
    /// The handler that this middleware wraps.
    pub closed spec fn wrapped(&self) -> S {
        self.service
    }

    /// The wrapped handler.
    pub fn service(&self) -> (service: &S)
        ensures
            *service == self.wrapped(),
    {
        &self.service
    }

    /// Handles one request: computes the rewrite target, runs the wrapped
    /// handler on the request, and settles what the handler came back with.
    pub fn call<B, E>(&self, req: Request) -> (out: Result<Response<B>, Failure<E>>) where
        S: Fn(Request) -> Result<Response<B>, E>,

        requires
            self.wrapped().requires((req,)),
        ensures
            exists|downstream: Result<Response<B>, E>|
                #![auto]
                self.wrapped().ensures((req,), downstream) && settles(
                    location_text(req.path@, header_entries(req.headers)),
                    downstream,
                    out,
                ),
    {
        let target = location(req.path.as_str(), &req.headers);
        let downstream = (self.service)(req);
        settle(target.as_str(), downstream)
    }
}

} // verus!
