use soar::error::RouterError;
use soar::error::SoarError;
use soar::router::HandlerRef;
use soar::router::Router;
use soar::router::SoarMessage;
use soar::router::SoarResponse;
use soar::router::add_route;
use soar::router::send;
use soar::test_helpers::TestHandler;
use soar::test_helpers::TestIntoHandler;
use soar::test_helpers::TestMessage;
use soar::test_helpers::TestMessageEmpty;
use soar::test_helpers::TestResponse;

#[test]
fn send_without_route_fails_with_no_route() {
    let router = Router::new();
    let resp = send(&router, TestMessage(5));
    assert_eq!(resp, SoarResponse::Failed(SoarError::Routing(RouterError {})));
}

#[test]
fn echo_route_returns_expected_response() {
    let mut router = Router::new();
    let h = HandlerRef { id: 7, token: TestMessage::type_token() };
    add_route::<TestMessage>(&mut router, h);
    let resp = send(&router, TestMessage(99));
    match resp {
        SoarResponse::Forwarded(target, msg) => {
            assert_eq!(target, h);
            let handler = TestHandler;
            let answer = handler.handle(msg);
            assert_eq!(answer, TestResponse(99));
        }
        _ => panic!("expected a forwarded dispatch"),
    }
}

#[test]
fn second_registration_replaces_first() {
    let mut router = Router::new();
    let first = HandlerRef { id: 1, token: TestMessage::type_token() };
    let second = HandlerRef { id: 2, token: TestMessage::type_token() };
    add_route::<TestMessage>(&mut router, first);
    add_route::<TestMessage>(&mut router, second);
    let resp = send(&router, TestMessage(5));
    assert_eq!(resp, SoarResponse::Forwarded(second, TestMessage(5)));
}

#[test]
fn pending_route_parks_callers_until_resolution() {
    let mut router = Router::new();
    let p = router.insert_pending::<TestMessage>();
    let r1 = send(&router, TestMessage(1));
    let r2 = send(&router, TestMessage(2));
    assert_eq!(r1, SoarResponse::Awaiting(p, TestMessage(1)));
    assert_eq!(r2, SoarResponse::Awaiting(p, TestMessage(2)));
    assert_eq!(router.poll_pending(p), None);
    let h = HandlerRef { id: 3, token: TestMessage::type_token() };
    router.resolve_pending(p, h);
    assert_eq!(router.poll_pending(p), Some(h));
    assert_eq!(router.poll_pending(p), Some(h));
    let r3 = send(&router, TestMessage(3));
    assert_eq!(r3, SoarResponse::Forwarded(h, TestMessage(3)));
}

#[test]
fn promotion_survives_later_lookups() {
    let mut router = Router::new();
    let p = router.insert_pending::<TestMessage>();
    let h = HandlerRef { id: 8, token: TestMessage::type_token() };
    router.resolve_pending(p, h);
    for x in [0u8, 1, 2] {
        let resp = send(&router, TestMessage(x));
        assert_eq!(resp, SoarResponse::Forwarded(h, TestMessage(x)));
    }
}

#[test]
fn removing_route_restores_no_route_failure() {
    let mut router = Router::new();
    let h = HandlerRef { id: 7, token: TestMessage::type_token() };
    add_route::<TestMessage>(&mut router, h);
    let ok = send(&router, TestMessage(5));
    assert_eq!(ok, SoarResponse::Forwarded(h, TestMessage(5)));
    router.remove_handler::<TestMessage>();
    let resp = send(&router, TestMessage(5));
    assert_eq!(resp, SoarResponse::Failed(SoarError::Routing(RouterError {})));
}

#[test]
fn routes_are_per_request_type() {
    let mut router = Router::new();
    let h = HandlerRef { id: 1, token: TestMessage::type_token() };
    add_route::<TestMessage>(&mut router, h);
    let resp = send(&router, TestMessageEmpty);
    assert!(matches!(resp, SoarResponse::Failed(SoarError::Routing(RouterError {}))));
}

#[test]
fn into_handler_issues_its_own_request() {
    let mut router = Router::new();
    let h = HandlerRef { id: 4, token: TestMessage::type_token() };
    add_route::<TestMessage>(&mut router, h);
    let inner = TestIntoHandler(0);
    let resp = inner.handle(TestMessageEmpty, &router);
    assert_eq!(resp, SoarResponse::Forwarded(h, TestMessage(42)));
}

#[test]
fn empty_handler_accepts_empty_message() {
    let handler = TestHandler;
    handler.handle_empty(TestMessageEmpty);
}
