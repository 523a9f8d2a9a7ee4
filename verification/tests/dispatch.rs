use route_dispatch::AddHeaderAfter;
use route_dispatch::DispatchError;
use route_dispatch::FailHandler;
use route_dispatch::Handler;
use route_dispatch::NoOpAfter;
use route_dispatch::NoOpBefore;
use route_dispatch::ParamHandler;
use route_dispatch::Request;
use route_dispatch::Response;
use route_dispatch::Router;
use route_dispatch::SetParamBefore;
use route_dispatch::StaticHandler;

#[test]
fn users_id_end_to_end() {
    let mut router = Router::new();
    router.register("/users/:id", ParamHandler { key: "id".to_string() });

    let mut req = Request::new("/users/42".to_string());
    let mut res = Response::new();
    let r = router.handle(&mut req, &mut res);

    assert_eq!(r, Ok("42".to_string()));
    assert_eq!(req.params.get(&"id".to_string()), Some(&"42".to_string()));
}

#[test]
fn nonexistent_not_found_after_hook_not_invoked() {
    let mut router = Router::new_with_middleware(
        NoOpBefore {},
        AddHeaderAfter { name: "X-Tag".to_string(), value: "ran".to_string() },
    );
    router.register("/users", StaticHandler { body: "list".to_string() });

    let mut req = Request::new("/nonexistent".to_string());
    let mut res = Response::new();
    let r = router.handle(&mut req, &mut res);

    assert_eq!(r, Err(DispatchError::NotFound));
    assert_eq!(res.header_count(), 0);
}

#[test]
fn dispatch_selects_matching_handler() {
    let mut router = Router::new();
    router.register("/alpha", StaticHandler { body: "first".to_string() });
    router.register("/beta", StaticHandler { body: "second".to_string() });

    let mut req = Request::new("/alpha".to_string());
    let mut res = Response::new();
    assert_eq!(router.handle(&mut req, &mut res), Ok("first".to_string()));

    let mut req = Request::new("/beta".to_string());
    let mut res = Response::new();
    assert_eq!(router.handle(&mut req, &mut res), Ok("second".to_string()));
}

#[test]
fn no_match_before_hook_still_runs() {
    let mut router = Router::new_with_middleware(
        SetParamBefore { key: "seen".to_string(), value: "yes".to_string() },
        NoOpAfter {},
    );
    router.register("/known", StaticHandler { body: "ok".to_string() });

    let mut req = Request::new("/unknown".to_string());
    let mut res = Response::new();
    let r = router.handle(&mut req, &mut res);

    assert_eq!(r, Err(DispatchError::NotFound));
    assert_eq!(req.params.len(), 1);
    assert_eq!(req.params.get(&"seen".to_string()), Some(&"yes".to_string()));
}

#[test]
fn captured_param_overwrites_existing_binding() {
    let mut router = Router::new();
    router.register("/users/:id", ParamHandler { key: "id".to_string() });

    let mut req = Request::new("/users/42".to_string());
    req.params.insert("id".to_string(), "stale".to_string());
    let mut res = Response::new();
    let r = router.handle(&mut req, &mut res);

    assert_eq!(r, Ok("42".to_string()));
    assert_eq!(req.params.get(&"id".to_string()), Some(&"42".to_string()));
    assert_eq!(req.params.len(), 2);
}

#[test]
fn duplicate_registration_replaces() {
    let mut router = Router::new();
    router.register("/dup", StaticHandler { body: "first".to_string() });
    router.register("/dup", StaticHandler { body: "second".to_string() });

    let mut req = Request::new("/dup".to_string());
    let mut res = Response::new();
    assert_eq!(router.handle(&mut req, &mut res), Ok("second".to_string()));
}

#[test]
fn after_hook_runs_once_on_success() {
    let mut router = Router::new_with_middleware(
        NoOpBefore {},
        AddHeaderAfter { name: "X-Tag".to_string(), value: "ran".to_string() },
    );
    router.register("/hello", StaticHandler { body: "hello".to_string() });

    let mut req = Request::new("/hello".to_string());
    let mut res = Response::new();
    let r = router.handle(&mut req, &mut res);

    assert_eq!(r, Ok("hello".to_string()));
    assert_eq!(res.header_count(), 1);
    assert_eq!(res.header_at(0), &("X-Tag".to_string(), "ran".to_string()));
}

#[test]
fn after_hook_skipped_on_failure() {
    let mut router = Router::new_with_middleware(
        NoOpBefore {},
        AddHeaderAfter { name: "X-Tag".to_string(), value: "ran".to_string() },
    );
    router.register("/boom", FailHandler { message: "boom".to_string() });

    let mut req = Request::new("/boom".to_string());
    let mut res = Response::new();
    let r = router.handle(&mut req, &mut res);

    assert_eq!(r, Err(DispatchError::HandlerFailure("boom".to_string())));
    assert_eq!(res.header_count(), 0);
}

#[test]
fn before_hook_runs_once_per_dispatch() {
    let mut router = Router::new_with_middleware(
        SetParamBefore { key: "seen".to_string(), value: "yes".to_string() },
        NoOpAfter {},
    );
    router.register("/known", StaticHandler { body: "ok".to_string() });

    let mut req = Request::new("/known".to_string());
    let mut res = Response::new();
    assert_eq!(router.handle(&mut req, &mut res), Ok("ok".to_string()));
    assert_eq!(req.params.len(), 1);

    assert_eq!(router.handle(&mut req, &mut res), Ok("ok".to_string()));
    assert_eq!(req.params.len(), 2);
}

#[test]
fn missing_param_is_handler_failure() {
    let mut router = Router::new();
    router.register("/static", ParamHandler { key: "id".to_string() });

    let mut req = Request::new("/static".to_string());
    let mut res = Response::new();
    let r = router.handle(&mut req, &mut res);

    assert_eq!(r, Err(DispatchError::HandlerFailure("id".to_string())));
}

#[test]
fn router_mounts_as_handler() {
    let mut inner = Router::new();
    inner.register("/api/info", StaticHandler { body: "inner".to_string() });

    let mut outer = Router::new();
    outer.register("/api/*rest", inner);

    let mut req = Request::new("/api/info".to_string());
    let mut res = Response::new();
    assert_eq!(outer.handle(&mut req, &mut res), Ok("inner".to_string()));
}

#[test]
fn multiple_params_all_propagated() {
    let mut router = Router::new();
    router.register(
        "/posts/:post_id/comments/:id",
        ParamHandler { key: "post_id".to_string() },
    );

    let mut req = Request::new("/posts/7/comments/9".to_string());
    let mut res = Response::new();
    let r = router.handle(&mut req, &mut res);

    assert_eq!(r, Ok("7".to_string()));
    assert_eq!(req.params.get(&"id".to_string()), Some(&"9".to_string()));
    assert_eq!(req.params.len(), 2);
}

#[test]
fn root_route_dispatches() {
    let mut router = Router::new();
    router.register("/", StaticHandler { body: "root".to_string() });

    let mut req = Request::new("/".to_string());
    let mut res = Response::new();
    assert_eq!(router.handle(&mut req, &mut res), Ok("root".to_string()));
}

#[test]
fn registration_chains() {
    let mut router = Router::new();
    router
        .register("/alpha", StaticHandler { body: "first".to_string() })
        .register("/beta", StaticHandler { body: "second".to_string() });

    let mut req = Request::new("/beta".to_string());
    let mut res = Response::new();
    assert_eq!(router.handle(&mut req, &mut res), Ok("second".to_string()));
}

#[test]
fn nul_in_path_is_not_found() {
    let mut router = Router::new();
    router.register("/users/:id", ParamHandler { key: "id".to_string() });

    let mut req = Request::new("/users/\0".to_string());
    let mut res = Response::new();
    assert_eq!(router.handle(&mut req, &mut res), Err(DispatchError::NotFound));
    assert_eq!(req.params.len(), 0);
}

#[test]
fn empty_router_everything_not_found() {
    let router: Router<NoOpBefore, NoOpAfter, StaticHandler> = Router::new();

    let mut req = Request::new("/anything".to_string());
    let mut res = Response::new();
    assert_eq!(router.handle(&mut req, &mut res), Err(DispatchError::NotFound));
    assert_eq!(req.params.len(), 0);
    assert_eq!(res.header_count(), 0);
}
