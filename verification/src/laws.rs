//! The laws of dispatch, each proved from the public contracts alone: what a
//! dispatch guarantees about the matched handler, the hooks, and the captured
//! parameters.

use crate::handler::AfterHook;
use crate::handler::DispatchError;
use crate::handler::DispatchResult;
use crate::handler::Handler;
use crate::handlers::AddHeaderAfter;
use crate::handlers::FailHandler;
use crate::handlers::NoOpAfter;
use crate::handlers::NoOpBefore;
use crate::handlers::ParamHandler;
use crate::handlers::SetParamBefore;
use crate::handlers::StaticHandler;
use crate::recognizer::match_of;
use crate::request::assoc_map;
use crate::request::Request;
use crate::response::Response;
use crate::router::Router;
use vstd::prelude::*;

verus! {

/// Dispatching a path that matches no registered pattern returns `NotFound`
/// and invokes neither a handler nor the after-hook: with a before-hook that
/// leaves the request alone, the request and the response come back exactly
/// as they went in.
pub proof fn lemma_no_match_not_found<A: AfterHook, H: Handler>(
    router: Router<NoOpBefore, A, H>,
    pre_req: Request,
    pre_res: Response,
    post_req: Request,
    post_res: Response,
    r: DispatchResult,
)
    requires
        router.dispatch_ensures(pre_req, pre_res, post_req, post_res, r),
        match_of(router.routes(), pre_req.path@) is None,
    ensures
        r == Err::<String, DispatchError>(DispatchError::NotFound),
        post_req == pre_req,
        post_res == pre_res,
{
    let (hooked, executed, outcome) = choose|
        hooked: Request,
        executed: Response,
        outcome: DispatchResult,
    |
        router.dispatch_via(
            hooked,
            executed,
            outcome,
            pre_req,
            pre_res,
            post_req,
            post_res,
            r,
        );
    assert(hooked == pre_req);
    assert(outcome == Err::<String, DispatchError>(DispatchError::NotFound));
}

/// For all registered (pattern, handler) pairs: a dispatch whose path the
/// recognizer resolves to the route at destination `i` is explained by one
/// run of exactly the handler registered at `i` — on a request that carries
/// the incoming path and every captured parameter — and the after-hook ran on
/// the handler's response exactly when the handler produced a body, which the
/// caller received unchanged; a failure came back unchanged with the response
/// as the handler left it.
pub proof fn lemma_match_runs_matched_handler<A: AfterHook, H: Handler>(
    router: Router<NoOpBefore, A, H>,
    pre_req: Request,
    pre_res: Response,
    post_req: Request,
    post_res: Response,
    r: DispatchResult,
    i: usize,
    ps: Seq<(Seq<char>, Seq<char>)>,
)
    requires
        router.dispatch_ensures(pre_req, pre_res, post_req, post_res, r),
        !pre_req.path@.contains('\0'),
        match_of(router.routes(), pre_req.path@) == Some((i, ps)),
    ensures
        i < router.handlers().len(),
        exists|filled: Request, executed: Response, outcome: DispatchResult|
            {
                &&& #[trigger] router.handlers()[i as int].handle_ensures(
                    filled,
                    pre_res,
                    post_req,
                    executed,
                    outcome,
                )
                &&& filled.path == pre_req.path
                &&& filled.params.entries() == pre_req.params.entries() + ps
                &&& match outcome {
                    Ok(body) => r == Ok::<String, DispatchError>(body)
                        && router.after().effect(executed, post_res),
                    Err(e) => r == Err::<String, DispatchError>(e) && post_res == executed,
                }
            },
{
    let (hooked, executed, outcome) = choose|
        hooked: Request,
        executed: Response,
        outcome: DispatchResult,
    |
        router.dispatch_via(
            hooked,
            executed,
            outcome,
            pre_req,
            pre_res,
            post_req,
            post_res,
            r,
        );
    assert(hooked == pre_req);
    let filled = choose|filled: Request|
        {
            &&& #[trigger] router.handlers()[i as int].handle_ensures(
                filled,
                pre_res,
                post_req,
                executed,
                outcome,
            )
            &&& filled.path == hooked.path
            &&& filled.params.entries() == hooked.params.entries() + ps
        };
    assert(router.handlers()[i as int].handle_ensures(filled, pre_res, post_req, executed, outcome)
        && filled.path == pre_req.path && filled.params.entries() == pre_req.params.entries() + ps);
}

/// The before-hook runs exactly once per dispatch even when no pattern
/// matches: with a before-hook that appends one parameter entry per run, a
/// dispatch that found no match returns `NotFound` and hands the request back
/// with exactly one entry appended, and the response untouched.
pub proof fn lemma_before_hook_runs_once_without_match<A: AfterHook, H: Handler>(
    router: Router<SetParamBefore, A, H>,
    pre_req: Request,
    pre_res: Response,
    post_req: Request,
    post_res: Response,
    r: DispatchResult,
)
    requires
        router.dispatch_ensures(pre_req, pre_res, post_req, post_res, r),
        match_of(router.routes(), pre_req.path@) is None,
    ensures
        r == Err::<String, DispatchError>(DispatchError::NotFound),
        post_req.path == pre_req.path,
        post_req.params.entries() == pre_req.params.entries().push(
            (router.before().key@, router.before().value@),
        ),
        post_res == pre_res,
{
    let (hooked, executed, outcome) = choose|
        hooked: Request,
        executed: Response,
        outcome: DispatchResult,
    |
        router.dispatch_via(
            hooked,
            executed,
            outcome,
            pre_req,
            pre_res,
            post_req,
            post_res,
            r,
        );
    assert(hooked.path@ == pre_req.path@);
    assert(outcome == Err::<String, DispatchError>(DispatchError::NotFound));
    assert(post_req == hooked);
}

/// The before-hook runs exactly once per matched dispatch as well, and its
/// work is in place before the handler runs: with a before-hook that appends
/// one parameter entry per run and a handler that touches nothing, the final
/// request carries the incoming entries, then the hook's one entry, then the
/// captured parameters.
pub proof fn lemma_before_hook_runs_once_with_match(
    router: Router<SetParamBefore, NoOpAfter, StaticHandler>,
    pre_req: Request,
    pre_res: Response,
    post_req: Request,
    post_res: Response,
    r: DispatchResult,
    i: usize,
    ps: Seq<(Seq<char>, Seq<char>)>,
)
    requires
        router.dispatch_ensures(pre_req, pre_res, post_req, post_res, r),
        !pre_req.path@.contains('\0'),
        match_of(router.routes(), pre_req.path@) == Some((i, ps)),
    ensures
        i < router.handlers().len(),
        r == Ok::<String, DispatchError>(router.handlers()[i as int].body),
        post_req.path == pre_req.path,
        post_req.params.entries() == pre_req.params.entries().push(
            (router.before().key@, router.before().value@),
        ) + ps,
        post_res == pre_res,
{
    let (hooked, executed, outcome) = choose|
        hooked: Request,
        executed: Response,
        outcome: DispatchResult,
    |
        router.dispatch_via(
            hooked,
            executed,
            outcome,
            pre_req,
            pre_res,
            post_req,
            post_res,
            r,
        );
    assert(hooked.path@ == pre_req.path@);
    let filled = choose|filled: Request|
        {
            &&& #[trigger] router.handlers()[i as int].handle_ensures(
                filled,
                pre_res,
                post_req,
                executed,
                outcome,
            )
            &&& filled.path == hooked.path
            &&& filled.params.entries() == hooked.params.entries() + ps
        };
    assert(post_req == filled);
}

/// The after-hook runs exactly once when the handler succeeds: with an
/// after-hook that appends one header per run and a handler that always
/// produces a body and touches nothing, a matched dispatch returns that body
/// and the response with exactly one header appended.
pub proof fn lemma_after_hook_runs_once_on_success(
    router: Router<NoOpBefore, AddHeaderAfter, StaticHandler>,
    pre_req: Request,
    pre_res: Response,
    post_req: Request,
    post_res: Response,
    r: DispatchResult,
    i: usize,
    ps: Seq<(Seq<char>, Seq<char>)>,
)
    requires
        router.dispatch_ensures(pre_req, pre_res, post_req, post_res, r),
        !pre_req.path@.contains('\0'),
        match_of(router.routes(), pre_req.path@) == Some((i, ps)),
    ensures
        i < router.handlers().len(),
        r == Ok::<String, DispatchError>(router.handlers()[i as int].body),
        post_res.headers() == pre_res.headers().push(
            (router.after().name@, router.after().value@),
        ),
{
    lemma_match_runs_matched_handler(router, pre_req, pre_res, post_req, post_res, r, i, ps);
}

/// The after-hook never runs when the handler fails: with the same
/// header-appending after-hook and a handler that always fails and touches
/// nothing, a matched dispatch returns the handler's failure unchanged and
/// the response exactly as it went in.
pub proof fn lemma_after_hook_skipped_on_failure(
    router: Router<NoOpBefore, AddHeaderAfter, FailHandler>,
    pre_req: Request,
    pre_res: Response,
    post_req: Request,
    post_res: Response,
    r: DispatchResult,
    i: usize,
    ps: Seq<(Seq<char>, Seq<char>)>,
)
    requires
        router.dispatch_ensures(pre_req, pre_res, post_req, post_res, r),
        !pre_req.path@.contains('\0'),
        match_of(router.routes(), pre_req.path@) == Some((i, ps)),
    ensures
        i < router.handlers().len(),
        r == Err::<String, DispatchError>(
            DispatchError::HandlerFailure(router.handlers()[i as int].message),
        ),
        post_res == pre_res,
{
    lemma_match_runs_matched_handler(router, pre_req, pre_res, post_req, post_res, r, i, ps);
}

/// A captured parameter is bound in the request before the handler runs, and
/// the handler observes it: when the matched route captures exactly the
/// parameter a `ParamHandler` reads, with value `v`, the dispatch succeeds
/// and the body is `v`.
pub proof fn lemma_captured_param_reaches_handler(
    router: Router<NoOpBefore, NoOpAfter, ParamHandler>,
    pre_req: Request,
    pre_res: Response,
    post_req: Request,
    post_res: Response,
    r: DispatchResult,
    i: usize,
    v: Seq<char>,
)
    requires
        router.dispatch_ensures(pre_req, pre_res, post_req, post_res, r),
        !pre_req.path@.contains('\0'),
        match_of(router.routes(), pre_req.path@) == Some(
            (i, seq![(router.handlers()[i as int].key@, v)]),
        ),
    ensures
        i < router.handlers().len(),
        r matches Ok(b) && b@ == v,
        post_res == pre_res,
{
    let ps = seq![(router.handlers()[i as int].key@, v)];
    let key = router.handlers()[i as int].key@;
    lemma_match_runs_matched_handler(router, pre_req, pre_res, post_req, post_res, r, i, ps);
    let (filled, executed, outcome) = choose|
        filled: Request,
        executed: Response,
        outcome: DispatchResult,
    |
        {
            &&& #[trigger] router.handlers()[i as int].handle_ensures(
                filled,
                pre_res,
                post_req,
                executed,
                outcome,
            )
            &&& filled.path == pre_req.path
            &&& filled.params.entries() == pre_req.params.entries() + ps
            &&& match outcome {
                Ok(body) => r == Ok::<String, DispatchError>(body) && router.after().effect(
                    executed,
                    post_res,
                ),
                Err(e) => r == Err::<String, DispatchError>(e) && post_res == executed,
            }
        };
    let e = filled.params.entries();
    assert(e.last() == (key, v));
    assert(e.drop_last() =~= pre_req.params.entries());
    assert(assoc_map(e) == assoc_map(e.drop_last()).insert(key, v));
    assert(filled.params@[key] == v);
}

} // verus!
