use webcore::extensions::Extensions;
use webcore::http::{HeaderMap, Method, StatusCode, Uri, Version};
use webcore::request::{AppConfig, HttpRequest, Payload, RequestHead, ResourceMap};
use webcore::response::Response;
use webcore::service::{WebRequest, WebResponse};
use webcore::body::{Body, ResponseBody};
use webcore::error::WebError;

fn test_head(method: Method, path: &str, query: Option<&str>) -> RequestHead {
    RequestHead {
        method,
        uri: Uri::new(path.to_string(), query.map(|q| q.to_string())),
        version: Version::Http11,
        headers: HeaderMap::new(),
        peer: None,
    }
}

fn test_handle(method: Method, path: &str, query: Option<&str>) -> HttpRequest {
    HttpRequest::new(
        test_head(method, path, query),
        Payload::Empty,
        Extensions::new(),
        AppConfig::new("localhost".to_string(), false),
        ResourceMap::new(),
    )
}

fn srv_request(method: Method, path: &str, query: Option<&str>) -> WebRequest {
    WebRequest::new(test_handle(method, path, query))
}

#[test]
fn test_service_request() {
    let req = srv_request(Method::Get, "/", None);
    let (r, pl) = req.into_parts();
    assert!(WebRequest::from_parts(r, pl).is_ok());

    let req = srv_request(Method::Get, "/", None);
    let (mut r, pl) = req.into_parts();
    let _r2 = r.clone_handle();
    assert!(WebRequest::from_parts(r, pl).is_err());

    let req = srv_request(Method::Get, "/", None);
    let (r, _pl) = req.into_parts();
    assert!(WebRequest::from_request(r).is_ok());

    let req = srv_request(Method::Get, "/", None);
    let (mut r, _pl) = req.into_parts();
    let _r2 = r.clone_handle();
    assert!(WebRequest::from_request(r).is_err());
}

#[test]
fn test_fmt_debug() {
    let mut headers = HeaderMap::new();
    headers.append("x-test".to_string(), "111".to_string());
    let head = RequestHead {
        method: Method::Get,
        uri: Uri::new("/index.html".to_string(), Some("test=1".to_string())),
        version: Version::Http11,
        headers,
        peer: None,
    };
    let req = WebRequest::new(HttpRequest::new(
        head,
        Payload::Empty,
        Extensions::new(),
        AppConfig::new("localhost".to_string(), false),
        ResourceMap::new(),
    ));
    let s = req.render();
    assert!(s.contains("WebRequest"));
    assert!(s.contains("test=1"));
    assert!(s.contains("x-test"));

    let mut res = Response::new(StatusCode::new(200));
    res.headers_mut().append("x-test".to_string(), "111".to_string());
    let res = WebResponse::new(test_handle(Method::Post, "/index.html", Some("test=1")), res);
    let s = res.render();
    assert!(s.contains("WebResponse"));
    assert!(s.contains("x-test"));
}

#[test]
fn test_render_exact() {
    let req = srv_request(Method::Get, "/p", None);
    let s = req.render();
    assert_eq!(s, "\nWebRequest HTTP/1.1 GET:/p\n  headers:\n");
}

#[test]
fn test_exclusivity_after_reattach() {
    let req = srv_request(Method::Get, "/", None);
    let (r, pl) = req.into_parts();
    let rebuilt = WebRequest::from_parts(r, pl).ok().unwrap();
    let (r2, _pl2) = rebuilt.into_parts();
    assert_eq!(r2.strong_count(), 1);
    assert_eq!(r2.weak_count(), 0);
}

#[test]
fn test_failed_reconstruction_returns_parts_unchanged() {
    let req = srv_request(Method::Get, "/somewhere", Some("a=1"));
    let (mut r, pl) = req.into_parts();
    let _r2 = r.clone_handle();
    match WebRequest::from_parts(r, pl) {
        Ok(_) => panic!("shared handle must not grant exclusive access"),
        Err((r, pl)) => {
            assert_eq!(r.head().uri.path, "/somewhere".to_string());
            assert_eq!(r.strong_count(), 2);
            assert!(matches!(pl, Payload::Empty));
        },
    }
}

#[test]
fn test_query_string_and_accessors() {
    let req = srv_request(Method::Put, "/a/b", Some("id=10"));
    assert_eq!(req.path(), "/a/b");
    assert_eq!(req.query_string(), "id=10");
    assert_eq!(*req.method(), Method::Put);
    assert_eq!(req.version(), Version::Http11);
    let req = srv_request(Method::Get, "/a", None);
    assert_eq!(req.query_string(), "");
}

#[test]
fn test_connection_info() {
    let mut req = srv_request(Method::Get, "/", None);
    let info = req.connection_info();
    assert_eq!(info.host, "localhost".to_string());
    assert_eq!(info.scheme, "http".to_string());
    req.headers_mut().append("host".to_string(), "example.test".to_string());
    let info = req.connection_info();
    assert_eq!(info.host, "example.test".to_string());
}

#[test]
fn test_app_data_lookup() {
    let mut bag = Extensions::new();
    bag.insert(7, 42);
    let mut req = srv_request(Method::Get, "/", None);
    req.set_data_container(bag);
    assert_eq!(req.app_data(7), Some(42));
    assert_eq!(req.app_data(8), None);
}

#[test]
fn test_payload_round_trip() {
    let mut req = srv_request(Method::Post, "/upload", None);
    req.set_payload(Payload::Bytes(vec![1, 2, 3]));
    match req.take_payload() {
        Payload::Bytes(v) => assert_eq!(v, vec![1, 2, 3]),
        Payload::Empty => panic!("payload was set"),
    }
    assert!(matches!(req.take_payload(), Payload::Empty));
}

#[test]
fn test_map_body_preserves_head_and_request() {
    let mut res = Response::new(StatusCode::new(204));
    res.headers_mut().append("x-keep".to_string(), "yes".to_string());
    let resp: WebResponse<Body> = WebResponse::new(test_handle(Method::Get, "/kept", None), res);
    let mapped: WebResponse<Body> = resp.map_body(|_head, _body| {
        ResponseBody::Other(Body::Bytes(vec![b'n', b'e', b'w']))
    });
    assert_eq!(mapped.status().as_u16(), 204);
    assert!(mapped.headers().contains("x-keep"));
    assert_eq!(mapped.request().head().uri.path, "/kept".to_string());
    match mapped.response().body {
        ResponseBody::Other(Body::Bytes(ref v)) => assert_eq!(v, &vec![b'n', b'e', b'w']),
        _ => panic!("body was substituted"),
    }
}

#[test]
fn test_take_body_empties_response() {
    let res = Response::new(StatusCode::new(200));
    let mut resp: WebResponse<Body> = WebResponse::new(test_handle(Method::Get, "/", None), res);
    match resp.take_body() {
        ResponseBody::Body(Body::Empty) => {},
        _ => panic!("a fresh response has an empty body"),
    }
    match resp.take_body() {
        ResponseBody::Other(Body::Absent) => {},
        _ => panic!("a taken body leaves an absent one"),
    }
    assert_eq!(resp.status().as_u16(), 200);
}

#[test]
fn test_error_response_keeps_request() {
    let req = srv_request(Method::Get, "/err", None);
    let resp: WebResponse<Body> = req.error_response(WebError::BadRequest);
    assert_eq!(resp.status().as_u16(), 400);
    assert_eq!(resp.request().head().uri.path, "/err".to_string());
    let resp = resp.error_response(WebError::Timeout);
    assert_eq!(resp.status().as_u16(), 504);
    assert_eq!(resp.request().head().uri.path, "/err".to_string());
}

#[test]
fn test_canonical_error_bodies() {
    let cases = vec![
        (WebError::Internal, 500u16, "internal server error"),
        (WebError::BadRequest, 400u16, "bad request"),
        (WebError::NotFound, 404u16, "not found"),
        (WebError::Timeout, 504u16, "gateway timeout"),
    ];
    for (err, code, text) in cases {
        let mut resp: WebResponse<Body> =
            WebResponse::from_err(err, test_handle(Method::Get, "/", None));
        assert_eq!(resp.status().as_u16(), code);
        match resp.take_body() {
            ResponseBody::Other(Body::Bytes(v)) => assert_eq!(v, text.as_bytes().to_vec()),
            _ => panic!("error responses carry the canonical body"),
        }
    }
}

#[test]
fn test_checked_expr() {
    let res = Response::new(StatusCode::new(200));
    let resp: WebResponse<Body> = WebResponse::new(test_handle(Method::Get, "/c", None), res);
    let kept = resp.checked_expr(|mut r| {
        r.headers_mut().append("x-step".to_string(), "1".to_string());
        Ok(r)
    });
    assert!(kept.headers().contains("x-step"));
    assert_eq!(kept.status().as_u16(), 200);

    let failed = kept.checked_expr(|r| Err((r, WebError::Internal)));
    assert_eq!(failed.status().as_u16(), 500);
    assert_eq!(failed.request().head().uri.path, "/c".to_string());
}

#[test]
fn test_into_response_replaces_response() {
    let res = Response::new(StatusCode::new(200));
    let resp: WebResponse<Body> = WebResponse::new(test_handle(Method::Get, "/r", None), res);
    let swapped: WebResponse<Body> = resp.into_response(Response::new(StatusCode::new(201)));
    assert_eq!(swapped.status().as_u16(), 201);
    assert_eq!(swapped.request().head().uri.path, "/r".to_string());
}
