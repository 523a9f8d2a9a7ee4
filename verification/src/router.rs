//! The router: pattern registration, recognition with parameter propagation,
//! and dispatch wrapped in one before-hook and one after-hook.

use crate::handler::AfterHook;
use crate::handler::BeforeHook;
use crate::handler::DispatchError;
use crate::handler::DispatchResult;
use crate::handler::Handler;
use crate::handlers::NoOpAfter;
use crate::handlers::NoOpBefore;
use crate::recognizer::match_of;
use crate::recognizer::recognizer_add;
use crate::recognizer::recognizer_new;
use crate::recognizer::recognizer_recognize;
use crate::recognizer::routes_of;
use crate::request::Request;
use crate::response::Response;
use route_recognizer::Router as Recognizer;
use vstd::prelude::*;
use vstd::string::StrSliceExecFns;

verus! {

/// Whether `s` carries a NUL character. The recognizer cannot process NUL
/// (see the wrappers' contracts), so dispatch screens paths with this scan.
fn has_nul(s: &str) -> (r: bool)
    ensures
        r == s@.contains('\0'),
{
    let n = s.unicode_len();
    let mut i: usize = 0;
    while i < n
        invariant
            n == s@.len(),
            i <= n,
            forall|j: int| 0 <= j < i ==> s@[j] != '\0',
        decreases n - i,
    {
        if s.get_char(i) == '\0' {
            proof {
                assert(s@[i as int] == '\0');
            }
            return true;
        }
        i = i + 1;
    }
    false
}

/// A router: a pattern recognizer holding the registered routes, the handlers
/// those routes point at, and exactly one before-hook and one after-hook. A
/// router is itself a `Handler`, so it can be mounted inside another router.
///
/// Registration must finish before the first dispatch; after that the router
/// is only read, so one instance may serve many concurrent dispatches as long
/// as each dispatch owns its own request and response.
pub struct Router<B, A, H> {
    recognizer: Recognizer<usize>,
    handlers: Vec<H>,
    before_handle: B,
    after_handle: A,
}

impl<B, A, H> Router<B, A, H> {
    /// The (pattern, destination) routes registered so far, in registration
    /// order.
    pub closed spec fn routes(&self) -> Seq<(Seq<char>, usize)> {
        routes_of(self.recognizer)
    }

    /// The handlers registered so far, in registration order; the destination
    /// a route stores is the handler's position here.
    pub closed spec fn handlers(&self) -> Seq<H> {
        self.handlers@
    }

    /// The before-hook.
    pub closed spec fn before(&self) -> B {
        self.before_handle
    }

    /// The after-hook.
    pub closed spec fn after(&self) -> A {
        self.after_handle
    }
}

impl<B: BeforeHook, A: AfterHook, H: Handler> Router<B, A, H> {
    /// Well-formed: every registered destination points into the handler
    /// list, and every stored handler is itself well-formed.
    pub open spec fn well_formed(&self) -> bool {
        &&& forall|k: int|
            0 <= k < self.routes().len() ==> (#[trigger] self.routes()[k]).1
                < self.handlers().len()
        &&& forall|i: int| 0 <= i < self.handlers().len() ==> (#[trigger] self.handlers()[i]).wf()
    }

    /// A router with the given hooks and no routes.
    pub fn new_with_middleware(before_handle: B, after_handle: A) -> (r: Router<B, A, H>)
        ensures
            r.well_formed(),
            r.routes() == Seq::<(Seq<char>, usize)>::empty(),
            r.handlers() == Seq::<H>::empty(),
            r.before() == before_handle,
            r.after() == after_handle,
    {
        let r = Router {
            recognizer: recognizer_new(),
            handlers: Vec::new(),
            before_handle,
            after_handle,
        };
        proof {
            assert(r.handlers() =~= Seq::<H>::empty());
        }
        r
    }

    /// Adds the route `pattern`, to be served by `handler`, and returns the
    /// router itself so that registrations chain. Patterns are NUL-free ASCII
    /// route templates of literal segments, `:name` parameter segments and
    /// `*name` wildcard segments; anything else is malformed for the
    /// recognizer and excluded at the contract, so registration itself never
    /// fails. Registering a pattern that was already registered replaces the
    /// older registration: the recognizer resolves a repeated pattern to the
    /// destination registered last.
    pub fn register(&mut self, pattern: &str, handler: H) -> (r: &mut Self)
        requires
            old(self).well_formed(),
            handler.wf(),
            vstd::string::is_ascii(pattern),
            !pattern@.contains('\0'),
        ensures
            *final(self) == *final(r),
            (*r).well_formed(),
            (*r).routes() == old(self).routes().push(
                (pattern@, old(self).handlers().len() as usize),
            ),
            (*r).handlers() == old(self).handlers().push(handler),
            (*r).before() == old(self).before(),
            (*r).after() == old(self).after(),
    {
        let dest = self.handlers.len();
        self.handlers.push(handler);
        recognizer_add(&mut self.recognizer, pattern, dest);
        proof {
            assert forall|k: int| 0 <= k < self.routes().len() implies (
            #[trigger] self.routes()[k]).1 < self.handlers().len() by {
                if k < self.routes().len() - 1 {
                    assert(self.routes()[k] == old(self).routes()[k]);
                }
            }
            assert forall|i: int| 0 <= i < self.handlers().len() implies (
            #[trigger] self.handlers()[i]).wf() by {
                if i < self.handlers().len() - 1 {
                    assert(self.handlers()[i] == old(self).handlers()[i]);
                }
            }
        }
        self
    }

    /// What `execute` guarantees for a given path. On a path carrying NUL —
    /// which the recognizer cannot process — or on no match, the outcome is
    /// `NotFound`, the request and the response are untouched, and no handler
    /// ran. On a match, every captured parameter was first copied into the
    /// request's container — in the recognizer's reported order, a duplicate
    /// key overwriting what was there — and only then did exactly the matched
    /// handler run once on that filled request, leaving the final state and
    /// the outcome its contract describes.
    pub open spec fn execute_ensures(
        &self,
        path: Seq<char>,
        pre_req: Request,
        pre_res: Response,
        post_req: Request,
        post_res: Response,
        r: DispatchResult,
    ) -> bool {
        if path.contains('\0') {
            &&& r == Err::<String, DispatchError>(DispatchError::NotFound)
            &&& post_req == pre_req
            &&& post_res == pre_res
        } else {
            match match_of(self.routes(), path) {
                None => {
                    &&& r == Err::<String, DispatchError>(DispatchError::NotFound)
                    &&& post_req == pre_req
                    &&& post_res == pre_res
                },
                Some(m) => {
                    &&& 0 <= m.0 < self.handlers().len()
                    &&& exists|filled: Request|
                        {
                            &&& #[trigger] self.handlers()[m.0 as int].handle_ensures(
                                filled,
                                pre_res,
                                post_req,
                                post_res,
                                r,
                            )
                            &&& filled.path == pre_req.path
                            &&& filled.params.entries() == pre_req.params.entries() + m.1
                        }
                },
            }
        }
    }

    /// Resolves `path` against the registered patterns: the destination of
    /// the best-matching route and the parameters captured from the path, or
    /// `None` when no registered pattern matches. A path carrying NUL is
    /// screened off before the recognizer sees it and matches nothing.
    fn recognize(&self, path: &str) -> (m: Option<(usize, Vec<(String, String)>)>)
        ensures
            match m {
                Some(p) => {
                    &&& !path@.contains('\0')
                    &&& match_of(self.routes(), path@) == Some(
                        (p.0, p.1@.map_values(|q: (String, String)| (q.0@, q.1@))),
                    )
                    &&& exists|k: int|
                        0 <= k < self.routes().len() && (#[trigger] self.routes()[k]).1 == p.0
                },
                None => path@.contains('\0') || match_of(self.routes(), path@) is None,
            },
    {
        if has_nul(path) {
            return None;
        }
        recognizer_recognize(&self.recognizer, path)
    }

    /// Recognizes `path`, copies the captured parameters into `req`, and runs
    /// the matched handler; `NotFound` when no registered pattern matches or
    /// the path carries NUL.
    #[verifier::loop_isolation(false)]
    fn execute(&self, path: &str, req: &mut Request, res: &mut Response) -> (r: DispatchResult)
        requires
            self.well_formed(),
        ensures
            self.execute_ensures(path@, *old(req), *old(res), *final(req), *final(res), r),
    {
        let m = self.recognize(path);
        match m {
            None => {
                proof {
                    assert(self.execute_ensures(
                        path@,
                        *old(req),
                        *old(res),
                        *req,
                        *res,
                        Err::<String, DispatchError>(DispatchError::NotFound),
                    ));
                }
                Err(DispatchError::NotFound)
            },
            Some((dest, params)) => {
                proof {
                    let k = choose|k: int|
                        0 <= k < self.routes().len() && (#[trigger] self.routes()[k]).1 == dest;
                    assert(self.routes()[k].1 < self.handlers().len());
                    assert(dest < self.handlers().len());
                }
                let ghost captured = params@.map_values(|q: (String, String)| (q.0@, q.1@));
                let mut i: usize = 0;
                while i < params.len()
                    invariant
                        i <= params.len(),
                        captured == params@.map_values(|q: (String, String)| (q.0@, q.1@)),
                        req.path == old(req).path,
                        req.params.entries() == old(req).params.entries() + captured.take(
                            i as int,
                        ),
                    decreases params.len() - i,
                {
                    let key = params[i].0.clone();
                    let value = params[i].1.clone();
                    req.params.insert(key, value);
                    proof {
                        assert(req.params.entries() =~= old(req).params.entries() + captured.take(
                            i + 1,
                        ));
                    }
                    i = i + 1;
                }
                proof {
                    assert(captured.take(params@.len() as int) =~= captured);
                }
                let ghost filled = *req;
                let out = self.handlers[dest].handle(req, res);
                proof {
                    assert(self.handlers()[dest as int].handle_ensures(
                        filled,
                        *old(res),
                        *req,
                        *res,
                        out,
                    ));
                }
                out
            },
        }
    }

    /// What a whole dispatch through `hooked`, `executed` and `outcome`
    /// guarantees: the before-hook turned the request into `hooked`; the
    /// dispatch then ran as `execute_ensures` describes, on the path `hooked`
    /// carries, leaving the response `executed` and the outcome `outcome`;
    /// and the after-hook ran on the response exactly when the outcome is a
    /// body, which the caller receives unchanged.
    pub open spec fn dispatch_via(
        &self,
        hooked: Request,
        executed: Response,
        outcome: DispatchResult,
        pre_req: Request,
        pre_res: Response,
        post_req: Request,
        post_res: Response,
        r: DispatchResult,
    ) -> bool {
        &&& self.before().effect(pre_req, hooked)
        &&& self.execute_ensures(hooked.path@, hooked, pre_res, post_req, executed, outcome)
        &&& match outcome {
            Ok(body) => r == Ok::<String, DispatchError>(body) && self.after().effect(
                executed,
                post_res,
            ),
            Err(e) => r == Err::<String, DispatchError>(e) && post_res == executed,
        }
    }

    /// What one dispatch guarantees: there is exactly one run of the
    /// before-hook, whose output request the dispatch went on with, and the
    /// rest of the pipeline — recognition, parameter propagation, the matched
    /// handler, and the after-hook on success only — is as `dispatch_via`
    /// describes.
    pub open spec fn dispatch_ensures(
        &self,
        pre_req: Request,
        pre_res: Response,
        post_req: Request,
        post_res: Response,
        r: DispatchResult,
    ) -> bool {
        exists|hooked: Request, executed: Response, outcome: DispatchResult|
            #[trigger] self.dispatch_via(
                hooked,
                executed,
                outcome,
                pre_req,
                pre_res,
                post_req,
                post_res,
                r,
            )
    }
}

impl<H: Handler> Router<NoOpBefore, NoOpAfter, H> {
    /// A router with no routes whose hooks leave the request and the response
    /// alone.
    pub fn new() -> (r: Router<NoOpBefore, NoOpAfter, H>)
        ensures
            r.well_formed(),
            r.routes() == Seq::<(Seq<char>, usize)>::empty(),
            r.handlers() == Seq::<H>::empty(),
            r.before() == (NoOpBefore {}),
            r.after() == (NoOpAfter {}),
    {
        Router::new_with_middleware(NoOpBefore {}, NoOpAfter {})
    }
}

impl<B: BeforeHook, A: AfterHook, H: Handler> Handler for Router<B, A, H> {
    open spec fn wf(&self) -> bool {
        self.well_formed()
    }

    open spec fn handle_ensures(
        &self,
        pre_req: Request,
        pre_res: Response,
        post_req: Request,
        post_res: Response,
        r: DispatchResult,
    ) -> bool {
        self.dispatch_ensures(pre_req, pre_res, post_req, post_res, r)
    }

    /// One dispatch: the before-hook on the request, then recognition,
    /// parameter propagation and the matched handler, then — only when the
    /// handler produced a body — the after-hook on the response. A `NotFound`
    /// or a handler failure is returned as it is, and the after-hook is then
    /// skipped.
    fn handle(&self, req: &mut Request, res: &mut Response) -> (r: DispatchResult) {
        self.before_handle.on_request(req);
        let ghost hooked = *req;
        let path = req.path.clone();
        let outcome = self.execute(path.as_str(), req, res);
        let ghost executed = *res;
        let ghost outcome_spec = outcome;
        match outcome {
            Ok(body) => {
                self.after_handle.on_response(res);
                proof {
                    assert(self.dispatch_via(
                        hooked,
                        executed,
                        outcome_spec,
                        *old(req),
                        *old(res),
                        *req,
                        *res,
                        outcome_spec,
                    ));
                }
                Ok(body)
            },
            Err(e) => {
                proof {
                    assert(self.dispatch_via(
                        hooked,
                        executed,
                        outcome_spec,
                        *old(req),
                        *old(res),
                        *req,
                        *res,
                        outcome_spec,
                    ));
                }
                Err(e)
            },
        }
    }
}

} // verus!
