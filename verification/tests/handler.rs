use hello_server::handler::{Handler, HandlerError, HelloHandler};
use hello_server::message::{Request, Response};

fn request(method: &str, target: &str, headers: Vec<(String, Vec<u8>)>, body: Vec<u8>) -> Request {
    Request { method: method.to_string(), target: target.to_string(), headers, body }
}

fn expect_ok(r: Result<Response, HandlerError>) -> Response {
    match r {
        Ok(resp) => resp,
        Err(_) => panic!("the hello handler never fails"),
    }
}

#[test]
fn hello_returns_200_and_fixed_body() {
    let resp = expect_ok(HelloHandler.handle(&request("GET", "/", vec![], vec![])));
    assert_eq!(resp.status, 200);
    assert_eq!(resp.body, b"hello world".to_vec());
    assert_eq!(resp.headers, vec![("content-length".to_string(), b"11".to_vec())]);
}

#[test]
fn hello_ignores_method_target_headers_and_body() {
    let plain = expect_ok(HelloHandler.handle(&request("GET", "/", vec![], vec![])));
    let loaded = expect_ok(HelloHandler.handle(&request(
        "POST",
        "/deep/path?query=1&other=two",
        vec![
            ("host".to_string(), b"127.0.0.1:3000".to_vec()),
            ("content-type".to_string(), b"application/json".to_vec()),
        ],
        b"{\"ignored\": true}".to_vec(),
    )));
    assert_eq!(plain.status, loaded.status);
    assert_eq!(plain.headers, loaded.headers);
    assert_eq!(plain.body, loaded.body);
}

#[test]
fn hello_response_content_length_matches_body() {
    let resp = hello_server::handler::hello_response();
    assert_eq!(resp.body.len(), 11);
    assert_eq!(resp.headers.len(), 1);
    assert_eq!(resp.headers[0].0, "content-length");
    assert_eq!(resp.headers[0].1, resp.body.len().to_string().into_bytes());
}
