use std::future::Future;
use std::sync::{Arc, Mutex};

use cluster_session::raw::{prepare_raw, raw_call, raw_request, request_for};
use http::{Request, Response, Uri};
use kube::client::Body;
use kube::Client;
use tower_test::mock;

/// A client whose requests are answered with the text of `reply`, and
/// recorded as method, target and body. Call it on a runtime.
fn echoing_client(asked: Arc<Mutex<Vec<(String, String, Vec<u8>)>>>) -> Client {
    let (service, mut handle) = mock::pair::<Request<Body>, Response<Body>>();
    tokio::spawn(async move {
        let mut served = 0;
        while let Some((request, reply)) = handle.next_request().await {
            let method = request.method().to_string();
            let target = request.uri().to_string();
            let body = request.into_body().collect_bytes().await.unwrap().to_vec();
            asked.lock().unwrap().push((method, target.clone(), body));
            served += 1;
            if target.starts_with("/missing") {
                let text = r#"{"kind":"Status","apiVersion":"v1","status":"Failure","message":"no such path","reason":"NotFound","code":404}"#;
                reply.send_response(
                    Response::builder().status(404).body(Body::from(text.as_bytes().to_vec())).unwrap(),
                );
            } else {
                let text = format!("you asked for {target}");
                reply.send_response(Response::new(Body::from(text.into_bytes())));
            }
        }
        assert!(served > 0);
    });
    Client::new(service, "default")
}

fn on_runtime<F: Future>(work: F) -> F::Output {
    tokio::runtime::Builder::new_current_thread().build().unwrap().block_on(work)
}

#[test]
fn exec_raw_rejects_text_that_is_no_uri() {
    let failure = raw_request("not a uri").unwrap_err();
    assert_eq!(failure, "invalid uri character");
}

#[test]
fn raw_request_rejects_the_empty_text() {
    assert_eq!(raw_request("").unwrap_err(), "empty string");
}

#[test]
fn raw_request_rejects_a_text_that_is_too_long() {
    let path = format!("/{}", "a".repeat(70_000));
    assert_eq!(raw_request(&path).unwrap_err(), "uri too long");
}

#[test]
fn raw_request_is_a_get_with_an_empty_body() {
    let request = raw_request("/api/v1/namespaces/default/pods?limit=5").unwrap();
    assert_eq!(request.method(), http::Method::GET);
    assert_eq!(request.uri().path(), "/api/v1/namespaces/default/pods");
    assert_eq!(request.uri().query(), Some("limit=5"));
    assert_eq!(request.version(), http::Version::HTTP_11);
    assert!(request.headers().is_empty());
    assert!(request.body().is_empty());
}

#[test]
fn raw_request_keeps_an_absolute_target_as_it_is() {
    let request = raw_request("https://cluster.example:6443/healthz").unwrap();
    assert_eq!(request.uri().scheme_str(), Some("https"));
    assert_eq!(request.uri().host(), Some("cluster.example"));
    assert_eq!(request.uri().port_u16(), Some(6443));
    assert_eq!(request.uri().path(), "/healthz");
}

#[test]
fn raw_request_depends_on_the_text_alone() {
    let one = raw_request("/apis/apps/v1/deployments").unwrap();
    let other = raw_request("/apis/apps/v1/deployments").unwrap();
    assert_eq!(one.method(), other.method());
    assert_eq!(one.uri(), other.uri());
    assert_eq!(one.body(), other.body());
    assert_eq!(raw_request("a b").unwrap_err(), raw_request("a b").unwrap_err());
}

#[test]
fn request_for_carries_the_parsed_target() {
    let target: Uri = "/version".parse().unwrap();
    let request = request_for(Ok(target.clone())).unwrap();
    assert_eq!(request.uri(), &target);
    assert_eq!(request.method(), http::Method::GET);
    assert!(request.body().is_empty());
}

#[test]
fn request_for_describes_the_parser_s_error() {
    let error = "/has space".parse::<Uri>().unwrap_err();
    let expected = error.to_string();
    assert_eq!(request_for(Err(error)).unwrap_err(), expected);
    assert_eq!(expected, "invalid uri character");
}

#[test]
fn prepare_raw_hands_a_failure_to_connect_on() {
    let prepared = prepare_raw(Err("no reachable API server".to_string()), "/version");
    match prepared {
        Err(message) => assert_eq!(message, "no reachable API server"),
        Ok(_) => panic!("a request was prepared without a client"),
    }
}

#[test]
fn prepare_raw_reports_text_that_is_no_uri_whatever_came_of_connecting() {
    for failure in ["no reachable API server", "no configuration found"] {
        match prepare_raw(Err(failure.to_string()), "not a uri") {
            Err(message) => assert_eq!(message, "invalid uri character"),
            Ok(_) => panic!("a request was prepared for text that is no URI"),
        }
    }
}

#[test]
fn raw_call_hands_a_failure_to_connect_on() {
    let request = raw_request("/version").unwrap();
    match raw_call(Err("no reachable API server".to_string()), request) {
        Err(message) => assert_eq!(message, "no reachable API server"),
        Ok(_) => panic!("a call was made ready without a client"),
    }
}

#[test]
fn raw_call_keeps_the_request_as_it_was_prepared() {
    on_runtime(async {
        let asked = Arc::new(Mutex::new(Vec::new()));
        let request = raw_request("/apis/apps/v1?timeout=3").unwrap();
        let call = match raw_call(Ok(echoing_client(asked.clone())), request) {
            Ok(call) => call,
            Err(message) => panic!("{message}"),
        };
        assert_eq!(call.request.method(), http::Method::GET);
        assert_eq!(call.request.uri(), "/apis/apps/v1?timeout=3");
        assert!(call.request.body().is_empty());
        let text = call.client.request_text(call.request).await.unwrap();
        assert_eq!(text, "you asked for /apis/apps/v1?timeout=3");
        assert_eq!(asked.lock().unwrap().len(), 1);
    });
}

#[test]
fn prepare_raw_reports_text_that_is_no_uri() {
    on_runtime(async {
        let asked = Arc::new(Mutex::new(Vec::new()));
        let prepared = prepare_raw(Ok(echoing_client(asked.clone())), "not a uri");
        match prepared {
            Err(message) => assert_eq!(message, "invalid uri character"),
            Ok(_) => panic!("a request was prepared for text that is no URI"),
        }
        assert!(asked.lock().unwrap().is_empty());
    });
}

#[test]
fn exec_raw_returns_the_body_as_the_cluster_sent_it() {
    on_runtime(async {
        let asked = Arc::new(Mutex::new(Vec::new()));
        let call = match prepare_raw(Ok(echoing_client(asked.clone())), "/version?verbose=1") {
            Ok(call) => call,
            Err(message) => panic!("{message}"),
        };
        let text = call.client.request_text(call.request).await.map_err(|error| error.to_string());
        assert_eq!(text, Ok("you asked for /version?verbose=1".to_string()));
        assert_eq!(
            asked.lock().unwrap().clone(),
            vec![("GET".to_string(), "/version?verbose=1".to_string(), Vec::new())]
        );
    });
}

#[test]
fn exec_raw_twice_returns_the_same_text() {
    on_runtime(async {
        let asked = Arc::new(Mutex::new(Vec::new()));
        let client = echoing_client(asked.clone());
        let mut texts = Vec::new();
        for _ in 0..2 {
            let call = match prepare_raw(Ok(client.clone()), "/api/v1/nodes") {
                Ok(call) => call,
                Err(message) => panic!("{message}"),
            };
            texts.push(call.client.request_text(call.request).await.unwrap());
        }
        assert_eq!(texts[0], "you asked for /api/v1/nodes");
        assert_eq!(texts[0].as_bytes(), texts[1].as_bytes());
        let asked = asked.lock().unwrap().clone();
        assert_eq!(asked.len(), 2);
        assert_eq!(asked[0], asked[1]);
    });
}

#[test]
fn exec_raw_reports_what_the_cluster_refuses() {
    on_runtime(async {
        let asked = Arc::new(Mutex::new(Vec::new()));
        let call = match prepare_raw(Ok(echoing_client(asked.clone())), "/missing") {
            Ok(call) => call,
            Err(message) => panic!("{message}"),
        };
        let failure = call.client.request_text(call.request).await.map_err(|error| error.to_string());
        let message = failure.unwrap_err();
        assert!(message.contains("no such path"), "{message}");
    });
}
