use hello_service::handlers::{conclude, hello_world, hello_world2, Reply};
use hello_service::identity::ClientId;
use hello_service::router::{app, names_one_segment, Handler, Method, Pattern, Router, Step};
use hello_service::status::Status;

fn deny(status: Status) -> impl Fn(&str) -> Result<ClientId, Status> {
    move |_raw: &str| Err(status)
}

fn echo(raw: &str) -> Result<ClientId, Status> {
    Ok(ClientId::new(raw.to_string()))
}

fn identity_of(reply: &Reply) -> Option<String> {
    reply.identity.as_ref().map(|id| id.inner())
}

#[test]
fn the_real_deal() {
    let reply = app().respond(ClientId::from_request, Method::Get, "/hello");
    assert_eq!(reply.status, Status::Success);
    assert_eq!(reply.status.code(), 200);
}

#[test]
fn the_real_deal2() {
    let reply = app().respond(ClientId::from_request, Method::Get, "/2");
    assert_eq!(reply.status, Status::Success);
    assert_eq!(reply.status.code(), 200);
}

#[test]
fn segment_route_runs_under_the_fixed_identity() {
    for path in ["/hello", "/1", "/22", "/x", "/%2F", "/héllo", "/a b"] {
        let reply = app().respond(ClientId::from_request, Method::Get, path);
        assert_eq!(reply.status, Status::Success);
        assert_eq!(identity_of(&reply), Some("1".to_string()));
    }
}

#[test]
fn plain_route_runs_without_extraction() {
    let reply = app().respond(ClientId::from_request, Method::Get, "/2");
    assert_eq!(reply.status, Status::Success);
    assert_eq!(identity_of(&reply), None);

    let denied = app().respond(deny(Status::Unauthorized), Method::Get, "/2");
    assert_eq!(denied.status, Status::Success);
    assert_eq!(identity_of(&denied), None);
}

#[test]
fn unregistered_paths_are_not_found() {
    for path in ["/a/b", "/", "", "hello", "/hello/", "//", "/2/", "//2", "2"] {
        let reply = app().respond(ClientId::from_request, Method::Get, path);
        assert_eq!(reply.status, Status::NotFound);
        assert_ne!(reply.status.code(), 200);
        assert_eq!(reply.status.code(), 404);
        assert_eq!(identity_of(&reply), None);
    }
}

#[test]
fn root_path_is_not_found() {
    let reply = app().respond(ClientId::from_request, Method::Get, "/");
    assert_eq!(reply.status, Status::NotFound);
}

#[test]
fn unregistered_path_is_not_found_for_every_method() {
    let reply = app().respond(ClientId::from_request, Method::Post, "/a/b");
    assert_eq!(reply.status, Status::NotFound);
}

#[test]
fn wrong_method_is_not_allowed() {
    let methods = [
        Method::Post,
        Method::Put,
        Method::Delete,
        Method::Connect,
        Method::Options,
        Method::Trace,
        Method::Patch,
        Method::Other,
    ];
    for method in methods {
        let plain = app().respond(ClientId::from_request, method, "/2");
        assert_eq!(plain.status, Status::MethodNotAllowed);
        assert_eq!(plain.status.code(), 405);
        assert_eq!(identity_of(&plain), None);

        let segment = app().respond(ClientId::from_request, method, "/hello");
        assert_eq!(segment.status, Status::MethodNotAllowed);
        assert_eq!(identity_of(&segment), None);
    }
}

#[test]
fn extractor_ignores_its_input() {
    let first = ClientId::from_request("hello").unwrap();
    let second = ClientId::from_request("something else").unwrap();
    assert_eq!(first.inner(), "1");
    assert_eq!(second.inner(), "1");
    assert_eq!(first.inner(), second.inner());
    assert_eq!(ClientId::from_request("").unwrap().inner(), "1");
    assert_eq!(ClientId::from_request("2").unwrap().inner(), "1");
}

#[test]
fn rejection_short_circuits_the_handler() {
    let unauthorized = app().respond(deny(Status::Unauthorized), Method::Get, "/hello");
    assert_eq!(unauthorized.status, Status::Unauthorized);
    assert_eq!(unauthorized.status.code(), 401);
    assert_eq!(identity_of(&unauthorized), None);

    let forbidden = app().respond(deny(Status::Forbidden), Method::Get, "/hello");
    assert_eq!(forbidden.status, Status::Forbidden);
    assert_eq!(forbidden.status.code(), 403);
}

#[test]
fn method_is_checked_before_extraction() {
    let reply = app().respond(deny(Status::Unauthorized), Method::Post, "/hello");
    assert_eq!(reply.status, Status::MethodNotAllowed);
}

#[test]
fn segment_is_handed_to_the_extractor() {
    let reply = app().respond(echo, Method::Get, "/hello");
    assert_eq!(reply.status, Status::Success);
    assert_eq!(identity_of(&reply), Some("hello".to_string()));

    let accented = app().respond(echo, Method::Get, "/héllo wörld");
    assert_eq!(identity_of(&accented), Some("héllo wörld".to_string()));
}

#[test]
fn exact_route_hands_on_no_parameter() {
    let table = Router::new().route(Pattern::Exact("/me".to_string()), Handler::WithIdentity);
    let reply = table.respond(echo, Method::Get, "/me");
    assert_eq!(reply.status, Status::Success);
    assert_eq!(identity_of(&reply), Some(String::new()));
}

#[test]
fn app_registers_two_routes() {
    let table = app();
    let routes = table.routes();
    assert_eq!(routes.len(), 2);
    assert!(matches!(routes[0].pattern, Pattern::Segment));
    assert_eq!(routes[0].handler, Handler::WithIdentity);
    assert!(matches!(&routes[1].pattern, Pattern::Exact(text) if text == "/2"));
    assert_eq!(routes[1].handler, Handler::Plain);
}

#[test]
fn find_prefers_the_exact_route() {
    let table = app();
    assert_eq!(table.find("/2").map(|route| route.handler), Some(Handler::Plain));
    assert_eq!(table.find("/3").map(|route| route.handler), Some(Handler::WithIdentity));
    assert_eq!(table.find("/2/3").map(|route| route.handler), None);
    assert_eq!(table.find("/").map(|route| route.handler), None);
}

#[test]
fn find_prefers_the_exact_route_in_any_order() {
    let table = Router::new()
        .route(Pattern::Exact("/2".to_string()), Handler::Plain)
        .route(Pattern::Segment, Handler::WithIdentity);
    assert_eq!(table.find("/2").map(|route| route.handler), Some(Handler::Plain));
    assert_eq!(table.find("/hello").map(|route| route.handler), Some(Handler::WithIdentity));
}

#[test]
fn find_takes_the_first_of_equal_patterns() {
    let table = Router::new()
        .route(Pattern::Exact("/a/b".to_string()), Handler::Plain)
        .route(Pattern::Exact("/a/b".to_string()), Handler::WithIdentity)
        .route(Pattern::Segment, Handler::WithIdentity)
        .route(Pattern::Segment, Handler::Plain);
    assert_eq!(table.find("/a/b").map(|route| route.handler), Some(Handler::Plain));
    assert_eq!(table.find("/c").map(|route| route.handler), Some(Handler::WithIdentity));
}

#[test]
fn empty_table_finds_nothing() {
    let table = Router::new();
    assert_eq!(table.routes().len(), 0);
    assert!(table.find("/hello").is_none());
    assert_eq!(table.respond(ClientId::from_request, Method::Get, "/hello").status, Status::NotFound);
}

#[test]
fn exact_route_without_segment_route() {
    let table = Router::new().route(Pattern::Exact("/2".to_string()), Handler::Plain);
    assert_eq!(table.respond(ClientId::from_request, Method::Get, "/2").status, Status::Success);
    assert_eq!(table.respond(ClientId::from_request, Method::Get, "/3").status, Status::NotFound);
}

#[test]
fn single_segment_paths() {
    assert!(names_one_segment("/hello"));
    assert!(names_one_segment("/2"));
    assert!(names_one_segment("/é"));
    assert!(!names_one_segment(""));
    assert!(!names_one_segment("/"));
    assert!(!names_one_segment("hello"));
    assert!(!names_one_segment("a/"));
    assert!(!names_one_segment("/a/"));
    assert!(!names_one_segment("/a/b"));
    assert!(!names_one_segment("//"));
}

#[test]
fn handlers_succeed() {
    let with_identity = hello_world(ClientId::new("7".to_string()));
    assert_eq!(with_identity.status, Status::Success);
    assert_eq!(identity_of(&with_identity), Some("7".to_string()));

    let plain = hello_world2();
    assert_eq!(plain.status, Status::Success);
    assert_eq!(identity_of(&plain), None);

    let bare = Reply::bare(Status::NotFound);
    assert_eq!(bare.status, Status::NotFound);
    assert_eq!(identity_of(&bare), None);
}

#[test]
fn inner_copies_the_text() {
    let id = ClientId::new("client-9".to_string());
    assert_eq!(id.inner(), "client-9");
    assert_eq!(id.inner(), id.inner());
    assert_eq!(ClientId::new(String::new()).inner(), "");
}

#[test]
fn status_codes() {
    assert_eq!(Status::Success.code(), 200);
    assert_eq!(Status::Unauthorized.code(), 401);
    assert_eq!(Status::Forbidden.code(), 403);
    assert_eq!(Status::NotFound.code(), 404);
    assert_eq!(Status::MethodNotAllowed.code(), 405);
    assert!(Status::Success.is_success());
    assert!(!Status::Unauthorized.is_success());
    assert!(!Status::Forbidden.is_success());
    assert!(!Status::NotFound.is_success());
    assert!(!Status::MethodNotAllowed.is_success());
}

#[test]
fn plan_settles_or_asks_for_extraction() {
    let table = app();
    match table.plan(Method::Get, "/hello") {
        Step::Extract(raw) => assert_eq!(raw, "hello"),
        Step::Answer(reply) => panic!("settled early: {:?}", reply),
    }
    match table.plan(Method::Get, "/2") {
        Step::Answer(reply) => {
            assert_eq!(reply.status, Status::Success);
            assert_eq!(identity_of(&reply), None);
        }
        Step::Extract(raw) => panic!("extraction on {:?}", raw),
    }
    match table.plan(Method::Get, "/a/b") {
        Step::Answer(reply) => assert_eq!(reply.status, Status::NotFound),
        Step::Extract(raw) => panic!("extraction on {:?}", raw),
    }
    match table.plan(Method::Post, "/hello") {
        Step::Answer(reply) => assert_eq!(reply.status, Status::MethodNotAllowed),
        Step::Extract(raw) => panic!("extraction on {:?}", raw),
    }
}

#[test]
fn conclude_runs_the_handler_or_rejects() {
    let served = conclude(Ok(ClientId::new("1".to_string())));
    assert_eq!(served.status, Status::Success);
    assert_eq!(identity_of(&served), Some("1".to_string()));

    let rejected = conclude(Err(Status::Unauthorized));
    assert_eq!(rejected.status, Status::Unauthorized);
    assert_eq!(identity_of(&rejected), None);
}

#[test]
fn extraction_runs_once_per_served_request() {
    let calls = std::cell::Cell::new(0u32);
    let counting = |raw: &str| {
        calls.set(calls.get() + 1);
        ClientId::from_request(raw)
    };
    let table = app();
    assert_eq!(table.respond(&counting, Method::Get, "/hello").status, Status::Success);
    assert_eq!(calls.get(), 1);
    assert_eq!(table.respond(&counting, Method::Get, "/2").status, Status::Success);
    assert_eq!(calls.get(), 1);
    assert_eq!(table.respond(&counting, Method::Get, "/a/b").status, Status::NotFound);
    assert_eq!(calls.get(), 1);
    assert_eq!(table.respond(&counting, Method::Post, "/hello").status, Status::MethodNotAllowed);
    assert_eq!(calls.get(), 1);
}

#[test]
fn head_is_answered_as_get() {
    let plain = app().respond(ClientId::from_request, Method::Head, "/2");
    assert_eq!(plain.status, Status::Success);
    assert_eq!(identity_of(&plain), None);

    let segment = app().respond(ClientId::from_request, Method::Head, "/hello");
    assert_eq!(segment.status, Status::Success);
    assert_eq!(identity_of(&segment), Some("1".to_string()));

    let missing = app().respond(ClientId::from_request, Method::Head, "/a/b");
    assert_eq!(missing.status, Status::NotFound);

    let denied = app().respond(deny(Status::Forbidden), Method::Head, "/hello");
    assert_eq!(denied.status, Status::Forbidden);
}
