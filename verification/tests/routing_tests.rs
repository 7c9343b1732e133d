use webcore::extensions::Extensions;
use webcore::guard::Guard;
use webcore::http::{HeaderMap, Method, StatusCode, Uri, Version};
use webcore::request::{AppConfig, HttpRequest, Payload, RequestHead, ResourceMap};
use webcore::route::{
    dispatch, AppService, Failing, FixedStatus, HttpServiceFactory, ServiceFactoryWrapper,
    WebService,
};
use webcore::service::WebRequest;
use webcore::error::WebError;

fn request_to(method: Method, path: &str) -> WebRequest {
    let head = RequestHead {
        method,
        uri: Uri::new(path.to_string(), None),
        version: Version::Http11,
        headers: HeaderMap::new(),
        peer: None,
    };
    WebRequest::new(HttpRequest::new(
        head,
        Payload::Empty,
        Extensions::new(),
        AppConfig::new("localhost".to_string(), false),
        ResourceMap::new(),
    ))
}

fn ok_handler(code: u16) -> FixedStatus {
    FixedStatus::new(StatusCode::new(code))
}

#[test]
fn test_service() {
    let mut config: AppService<FixedStatus> = AppService::new(true);
    WebService::new("/test").name("test").finish(ok_handler(200)).register(&mut config);
    let resp = dispatch(&config, request_to(Method::Get, "/test"));
    assert_eq!(resp.status().as_u16(), 200);

    let mut config: AppService<FixedStatus> = AppService::new(true);
    WebService::new("/test")
        .guard(Guard::MethodIs(Method::Get))
        .finish(ok_handler(200))
        .register(&mut config);
    let resp = dispatch(&config, request_to(Method::Put, "/test"));
    assert_eq!(resp.status().as_u16(), 404);
}

#[test]
fn test_register_at_most_once() {
    let mut config: AppService<FixedStatus> = AppService::new(true);
    let unit = WebService::new("/once").finish(ok_handler(200));
    let mut wrapper = ServiceFactoryWrapper::new(unit);
    wrapper.register(&mut config);
    assert_eq!(config.len(), 1);
    wrapper.register(&mut config);
    wrapper.register(&mut config);
    assert_eq!(config.len(), 1);
}

#[test]
fn test_trailing_slash_at_root() {
    let mut config: AppService<FixedStatus> = AppService::new(true);
    WebService::new("users").finish(ok_handler(200)).register(&mut config);
    let resp = dispatch(&config, request_to(Method::Get, "/users"));
    assert_eq!(resp.status().as_u16(), 200);
    let resp = dispatch(&config, request_to(Method::Get, "/users/"));
    assert_eq!(resp.status().as_u16(), 200);
}

#[test]
fn test_non_root_empty_patterns_gain_no_variant() {
    let mut config: AppService<FixedStatus> = AppService::new(false);
    WebService::from_patterns(Vec::new()).finish(ok_handler(200)).register(&mut config);
    assert_eq!(config.len(), 1);
    let resp = dispatch(&config, request_to(Method::Get, "/"));
    assert_eq!(resp.status().as_u16(), 404);
}

#[test]
fn test_first_match_wins_registration_order() {
    let mut config: AppService<FixedStatus> = AppService::new(true);
    WebService::new("/a").finish(ok_handler(200)).register(&mut config);
    WebService::new("/a").finish(ok_handler(201)).register(&mut config);
    let resp = dispatch(&config, request_to(Method::Get, "/a"));
    assert_eq!(resp.status().as_u16(), 200);
}

#[test]
fn test_first_match_wins_guard_fallthrough() {
    let mut config: AppService<FixedStatus> = AppService::new(true);
    WebService::new("/a").guard(Guard::Never).finish(ok_handler(200)).register(&mut config);
    WebService::new("/a").guard(Guard::Always).finish(ok_handler(201)).register(&mut config);
    let resp = dispatch(&config, request_to(Method::Get, "/a"));
    assert_eq!(resp.status().as_u16(), 201);
}

#[test]
fn test_header_guard() {
    let mut config: AppService<FixedStatus> = AppService::new(true);
    WebService::new("/h")
        .guard(Guard::HeaderEq("x-kind".to_string(), "good".to_string()))
        .finish(ok_handler(200))
        .register(&mut config);

    let mut req = request_to(Method::Get, "/h");
    req.headers_mut().append("x-kind".to_string(), "good".to_string());
    let resp = dispatch(&config, req);
    assert_eq!(resp.status().as_u16(), 200);

    let mut req = request_to(Method::Get, "/h");
    req.headers_mut().append("x-kind".to_string(), "bad".to_string());
    let resp = dispatch(&config, req);
    assert_eq!(resp.status().as_u16(), 404);
}

#[test]
fn test_failing_handler_maps_to_error_response() {
    let mut config: AppService<Failing> = AppService::new(true);
    WebService::new("/boom").finish(Failing::new(WebError::Internal)).register(&mut config);
    let resp = dispatch(&config, request_to(Method::Get, "/boom"));
    assert_eq!(resp.status().as_u16(), 500);
}

#[test]
fn test_service_name_attached() {
    let mut config: AppService<FixedStatus> = AppService::new(true);
    WebService::new("/named").name("users-index").finish(ok_handler(200)).register(&mut config);
    assert_eq!(config.len(), 1);
    assert_eq!(config.service_name(0), "users-index".to_string());

    let mut config: AppService<FixedStatus> = AppService::new(true);
    WebService::new("/anonymous").finish(ok_handler(200)).register(&mut config);
    assert_eq!(config.service_name(0), "".to_string());
}

#[test]
fn test_path_parameters_captured() {
    let mut config: AppService<FixedStatus> = AppService::new(true);
    WebService::from_patterns(vec!["/users/{id}/posts".to_string()])
        .finish(ok_handler(200))
        .register(&mut config);
    let resp = dispatch(&config, request_to(Method::Get, "/users/77/posts"));
    assert_eq!(resp.status().as_u16(), 200);
    let id = resp.request().params().get("id").cloned();
    assert_eq!(id, Some("77".to_string()));
}

#[test]
fn test_dispatch_no_routes_is_not_found() {
    let config: AppService<FixedStatus> = AppService::new(true);
    let resp = dispatch(&config, request_to(Method::Get, "/missing"));
    assert_eq!(resp.status().as_u16(), 404);
}
