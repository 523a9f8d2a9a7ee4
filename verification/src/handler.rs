//! The capability contracts of the router: what a routable handler promises,
//! what the two middleware hooks promise, and the errors a dispatch can
//! surface.

use crate::request::Request;
use crate::response::Response;
use vstd::prelude::*;

verus! {

/// Why a dispatch returned no body.
#[derive(Debug, PartialEq, Eq)]
pub enum DispatchError {
    /// No registered pattern matches the requested path. Expected and
    /// non-fatal: the caller must handle it.
    NotFound,
    /// The matched handler itself failed; its message is carried unchanged.
    HandlerFailure(String),
}

/// The outcome of one dispatch: the body the handler produced, or the error
/// that ended the dispatch.
pub type DispatchResult = Result<String, DispatchError>;

/// A routable unit of behavior: anything that can process a request and a
/// response and produce a body or a failure. A router satisfies this contract
/// itself, so a router can be mounted as a handler inside another router.
pub trait Handler {
    /// The well-formedness a value must keep for `handle` to be callable.
    spec fn wf(&self) -> bool;

    /// What one call of `handle` guarantees: how the request and the response
    /// as they were passed in relate to their final values and to the result.
    spec fn handle_ensures(
        &self,
        pre_req: Request,
        pre_res: Response,
        post_req: Request,
        post_res: Response,
        r: DispatchResult,
    ) -> bool;

    /// Processes `req` and `res`, producing a body or a failure.
    fn handle(&self, req: &mut Request, res: &mut Response) -> (r: DispatchResult)
        requires
            self.wf(),
        ensures
            self.handle_ensures(*old(req), *old(res), *final(req), *final(res), r),
    ;
}

/// The hook that runs on the request once per dispatch, before pattern
/// recognition. Hooks are failure-free by contract: a hook has no way to
/// signal an error, so it cannot abort a dispatch, and dispatch proceeds
/// unconditionally once the hook has run.
pub trait BeforeHook {
    /// How one run of the hook relates the request it saw to the request it
    /// left behind.
    spec fn effect(&self, pre: Request, post: Request) -> bool;

    /// Runs the hook on `req`.
    fn on_request(&self, req: &mut Request)
        ensures
            self.effect(*old(req), *final(req)),
    ;
}

/// The hook that runs on the response once per dispatch, and only after the
/// matched handler has produced a body. It never runs when no pattern matches
/// or when the handler fails, and it cannot alter the body the caller
/// receives. Like the before-hook it is failure-free.
pub trait AfterHook {
    /// How one run of the hook relates the response it saw to the response it
    /// left behind.
    spec fn effect(&self, pre: Response, post: Response) -> bool;

    /// Runs the hook on `res`.
    fn on_response(&self, res: &mut Response)
        ensures
            self.effect(*old(res), *final(res)),
    ;
}

} // verus!
