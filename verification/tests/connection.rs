use hello_server::connection::{ConnAction, ConnEvent, ConnState, ConnTask};
use hello_server::dispatcher::{AcceptAction, AcceptEvent, BindOutcome, Dispatcher};
use hello_server::handler::HelloHandler;
use hello_server::message::Request;

fn get_request(target: &str) -> Request {
    Request {
        method: "GET".to_string(),
        target: target.to_string(),
        headers: vec![],
        body: vec![],
    }
}

fn expect_hello_response(a: ConnAction) {
    match a {
        ConnAction::Respond(resp) => {
            assert_eq!(resp.status, 200);
            assert_eq!(resp.body, b"hello world".to_vec());
            assert_eq!(resp.headers, vec![("content-length".to_string(), b"11".to_vec())]);
        }
        _ => panic!("a parsed request must be answered"),
    }
}

#[test]
fn keep_alive_three_requests_on_one_connection() {
    let mut t = ConnTask::new();
    for i in 0..3u64 {
        assert_eq!(t.state, ConnState::Open);
        let a = t.step(&HelloHandler, ConnEvent::RequestParsed(get_request("/keep-alive")));
        expect_hello_response(a);
        assert_eq!(t.served, i + 1);
    }
    assert_eq!(t.state, ConnState::Open);
    assert_eq!(t.served, 3);
}

#[test]
fn malformed_bytes_close_only_that_connection() {
    let mut bad = ConnTask::new();
    let mut good = ConnTask::new();

    let a = bad.step(&HelloHandler, ConnEvent::ParseError);
    assert!(matches!(a, ConnAction::LogAndEnd));
    assert_eq!(bad.state, ConnState::Closed);

    // The well-behaved connection open beside it is still served normally.
    assert_eq!(good.state, ConnState::Open);
    let b = good.step(&HelloHandler, ConnEvent::RequestParsed(get_request("/")));
    expect_hello_response(b);
    assert_eq!(good.state, ConnState::Open);
}

#[test]
fn clean_close_by_the_peer_ends_the_task_silently() {
    let mut t = ConnTask::new();
    let a = t.step(&HelloHandler, ConnEvent::PeerClosed);
    assert!(matches!(a, ConnAction::EndSilently));
    assert_eq!(t.state, ConnState::Closed);
    assert_eq!(t.served, 0);
}

#[test]
fn peer_reset_is_contained_and_accepting_goes_on() {
    let mut d = Dispatcher::start(BindOutcome::Bound).expect("bind succeeded");

    assert_eq!(d.step(AcceptEvent::Accepted), AcceptAction::SpawnTask(0));
    let mut t = ConnTask::new();

    // The stream fails mid-request: that task alone logs and ends.
    let a = t.step(&HelloHandler, ConnEvent::StreamError);
    assert!(matches!(a, ConnAction::LogAndEnd));
    assert_eq!(t.state, ConnState::Closed);

    // The accept loop was never touched: the next accept succeeds at once.
    assert_eq!(d.step(AcceptEvent::Accepted), AcceptAction::SpawnTask(1));
    let mut fresh = ConnTask::new();
    let b = fresh.step(&HelloHandler, ConnEvent::RequestParsed(get_request("/next")));
    expect_hello_response(b);
    assert_eq!(fresh.state, ConnState::Open);
}

#[test]
fn closing_after_serving_keeps_the_served_count() {
    let mut t = ConnTask::new();
    let a = t.step(&HelloHandler, ConnEvent::RequestParsed(get_request("/")));
    expect_hello_response(a);
    let b = t.step(&HelloHandler, ConnEvent::StreamError);
    assert!(matches!(b, ConnAction::LogAndEnd));
    assert_eq!(t.state, ConnState::Closed);
    assert_eq!(t.served, 1);
}
