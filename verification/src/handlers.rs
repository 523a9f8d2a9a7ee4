//! Ready-made handlers and hooks: the leaf handlers a route can point at, and
//! hooks whose effect on the request or the response is visible, so that a
//! caller can observe whether and how often a hook ran.

use crate::handler::AfterHook;
use crate::handler::BeforeHook;
use crate::handler::DispatchError;
use crate::handler::DispatchResult;
use crate::handler::Handler;
use crate::request::Request;
use crate::response::Response;
use vstd::prelude::*;

verus! {

/// A before-hook that leaves the request untouched.
pub struct NoOpBefore {}

impl BeforeHook for NoOpBefore {
    open spec fn effect(&self, pre: Request, post: Request) -> bool {
        post == pre
    }

    fn on_request(&self, req: &mut Request) {
    }
}

/// An after-hook that leaves the response untouched.
pub struct NoOpAfter {}

impl AfterHook for NoOpAfter {
    open spec fn effect(&self, pre: Response, post: Response) -> bool {
        post == pre
    }

    fn on_response(&self, res: &mut Response) {
    }
}

/// A before-hook that binds one fixed parameter in every request it sees —
/// the shape of a middleware that injects context into the request. Each run
/// appends exactly one entry to the parameter container, so how often the
/// hook ran stays observable.
pub struct SetParamBefore {
    pub key: String,
    pub value: String,
}

impl BeforeHook for SetParamBefore {
    open spec fn effect(&self, pre: Request, post: Request) -> bool {
        &&& post.path == pre.path
        &&& post.params.entries() == pre.params.entries().push((self.key@, self.value@))
    }

    fn on_request(&self, req: &mut Request) {
        let key = self.key.clone();
        let value = self.value.clone();
        req.params.insert(key, value);
    }
}

/// An after-hook that appends one fixed header to every response it sees —
/// the shape of a middleware that injects a header. Each run grows the header
/// list by exactly one entry, so how often the hook ran stays observable.
pub struct AddHeaderAfter {
    pub name: String,
    pub value: String,
}

impl AfterHook for AddHeaderAfter {
    open spec fn effect(&self, pre: Response, post: Response) -> bool {
        post.headers() == pre.headers().push((self.name@, self.value@))
    }

    fn on_response(&self, res: &mut Response) {
        res.add_header(self.name.clone(), self.value.clone());
    }
}

/// A handler that always succeeds with a fixed body and touches neither the
/// request nor the response.
pub struct StaticHandler {
    pub body: String,
}

impl Handler for StaticHandler {
    open spec fn wf(&self) -> bool {
        true
    }

    open spec fn handle_ensures(
        &self,
        pre_req: Request,
        pre_res: Response,
        post_req: Request,
        post_res: Response,
        r: DispatchResult,
    ) -> bool {
        &&& post_req == pre_req
        &&& post_res == pre_res
        &&& r == Ok::<String, DispatchError>(self.body)
    }

    fn handle(&self, req: &mut Request, res: &mut Response) -> (r: DispatchResult) {
        Ok(self.body.clone())
    }
}

/// A handler that answers with the value of one request parameter as the
/// body. When the request does not carry the parameter it fails, naming the
/// missing parameter in the failure.
pub struct ParamHandler {
    pub key: String,
}

impl Handler for ParamHandler {
    open spec fn wf(&self) -> bool {
        true
    }

    open spec fn handle_ensures(
        &self,
        pre_req: Request,
        pre_res: Response,
        post_req: Request,
        post_res: Response,
        r: DispatchResult,
    ) -> bool {
        &&& post_req == pre_req
        &&& post_res == pre_res
        &&& if pre_req.params@.contains_key(self.key@) {
            r matches Ok(b) && b@ == pre_req.params@[self.key@]
        } else {
            r matches Err(DispatchError::HandlerFailure(m)) && m@ == self.key@
        }
    }

    fn handle(&self, req: &mut Request, res: &mut Response) -> (r: DispatchResult) {
        match req.params.get(&self.key) {
            Some(v) => Ok(v.clone()),
            None => Err(DispatchError::HandlerFailure(self.key.clone())),
        }
    }
}

/// A handler that always fails with a fixed message and touches neither the
/// request nor the response.
pub struct FailHandler {
    pub message: String,
}

impl Handler for FailHandler {
    open spec fn wf(&self) -> bool {
        true
    }

    open spec fn handle_ensures(
        &self,
        pre_req: Request,
        pre_res: Response,
        post_req: Request,
        post_res: Response,
        r: DispatchResult,
    ) -> bool {
        &&& post_req == pre_req
        &&& post_res == pre_res
        &&& r == Err::<String, DispatchError>(DispatchError::HandlerFailure(self.message))
    }

    fn handle(&self, req: &mut Request, res: &mut Response) -> (r: DispatchResult) {
        Err(DispatchError::HandlerFailure(self.message.clone()))
    }
}

} // verus!
