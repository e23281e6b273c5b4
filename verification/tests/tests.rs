use tonic_middleware::services::{
    AuthInterceptor, Interceptor2, Middleware1, ProtectedService, PublicService,
    AUTHORIZATION_HEADER_KEY, TOKEN, USER_ID, USER_ID_HEADER_KEY,
};
use tonic_middleware::{
    Action, Flow, InterceptorFor, MiddlewareFor, MiddlewareLayer, Request,
    RequestInterceptorLayer, ServiceBound,
};

fn plain_request() -> Request {
    Request::new("Hello!".to_string())
}

fn authorized_request() -> Request {
    let mut request = plain_request();
    request
        .metadata
        .append(AUTHORIZATION_HEADER_KEY.to_string(), TOKEN.to_string());
    request
}

#[test]
fn test_interceptor_applies_to_individual_service_rejecting_request() {
    let mut flow = Flow::new();
    let public_service = PublicService::default();
    let protected = InterceptorFor::new(ProtectedService::default(), AuthInterceptor::new());

    let public_response = public_service
        .call(plain_request(), &mut flow)
        .expect("Public method response");
    assert_eq!(public_response.body, "Hello Public!");

    let result = protected
        .call(plain_request(), &mut flow)
        .expect("terminal response");
    assert_eq!(result.metadata.get("grpc-status").unwrap(), "16");
    assert_eq!(result.metadata.get("grpc-message").unwrap(), "Unauthenticated");

    let actions: Vec<Action> = flow.read_actions();
    assert_eq!(actions.len(), 1);
    assert_eq!(actions[0], Action::AuthInterceptor);
}

#[test]
fn test_interceptor_applies_to_individual_service_and_sets_request_header() {
    let mut flow = Flow::new();
    let protected = InterceptorFor::new(ProtectedService::default(), AuthInterceptor::new());

    let result = protected
        .call(authorized_request(), &mut flow)
        .expect("Method response");
    assert_eq!(result.metadata.get(USER_ID_HEADER_KEY).unwrap(), USER_ID);

    let actions: Vec<Action> = flow.read_actions();
    assert_eq!(actions.len(), 1);
    assert_eq!(actions[0], Action::AuthInterceptor);
}

#[test]
fn test_interceptor_applies_to_all_services() {
    let mut flow = Flow::new();
    let layer = RequestInterceptorLayer::new(Interceptor2::new());
    let public_service = layer.layer(PublicService::default());
    let protected = layer.layer(InterceptorFor::new(
        ProtectedService::default(),
        AuthInterceptor::new(),
    ));

    let result = protected
        .call(authorized_request(), &mut flow)
        .expect("Method response");
    assert_eq!(result.metadata.get(USER_ID_HEADER_KEY).unwrap(), USER_ID);

    public_service
        .call(plain_request(), &mut flow)
        .expect("Public method response");

    let actions: Vec<Action> = flow.read_actions();
    assert_eq!(actions.len(), 3);
    // protected call -> interceptor2 through the layer
    assert_eq!(actions[0], Action::Interceptor2);
    // protected call -> auth interceptor wrapped per service
    assert_eq!(actions[1], Action::AuthInterceptor);
    // public call -> interceptor2 through the layer
    assert_eq!(actions[2], Action::Interceptor2);
}

#[test]
fn test_interceptors_can_be_combined() {
    let mut flow = Flow::new();
    let protected = InterceptorFor::new(
        InterceptorFor::new(ProtectedService::default(), AuthInterceptor::new()),
        Interceptor2::new(),
    );

    let result = protected
        .call(authorized_request(), &mut flow)
        .expect("Method response");
    assert_eq!(result.metadata.get(USER_ID_HEADER_KEY).unwrap(), USER_ID);

    let actions: Vec<Action> = flow.read_actions();
    assert_eq!(actions.len(), 2);
    assert_eq!(actions[0], Action::Interceptor2);
    assert_eq!(actions[1], Action::AuthInterceptor);
}

#[test]
fn test_middleware_applied_to_individual_service() {
    let mut flow = Flow::new();
    let public_service = MiddlewareFor::new(PublicService::default(), Middleware1::new());
    let protected = InterceptorFor::new(ProtectedService::default(), AuthInterceptor::new());

    let result = protected
        .call(authorized_request(), &mut flow)
        .expect("Method response");
    assert_eq!(result.metadata.get(USER_ID_HEADER_KEY).unwrap(), USER_ID);

    public_service
        .call(plain_request(), &mut flow)
        .expect("Method response");

    let actions: Vec<Action> = flow.read_actions();
    assert_eq!(actions.len(), 3);
    assert_eq!(actions[0], Action::AuthInterceptor);
    assert_eq!(actions[1], Action::Middleware1Before);
    assert_eq!(actions[2], Action::Middleware1After);
}

#[test]
fn test_middleware_applied_to_all_services_through_layer() {
    let mut flow = Flow::new();
    let layer = MiddlewareLayer::new(Middleware1::new());
    let public_service = layer.layer(PublicService::default());
    let protected = layer.layer(InterceptorFor::new(
        ProtectedService::default(),
        AuthInterceptor::new(),
    ));

    let result = protected
        .call(authorized_request(), &mut flow)
        .expect("Method response");
    assert_eq!(result.metadata.get(USER_ID_HEADER_KEY).unwrap(), USER_ID);

    public_service
        .call(plain_request(), &mut flow)
        .expect("Method response");

    let actions: Vec<Action> = flow.read_actions();
    assert_eq!(actions.len(), 5);
    assert_eq!(actions[0], Action::Middleware1Before);
    assert_eq!(actions[1], Action::AuthInterceptor);
    assert_eq!(actions[2], Action::Middleware1After);
    assert_eq!(actions[3], Action::Middleware1Before);
    assert_eq!(actions[4], Action::Middleware1After);
}

#[test]
fn test_interceptor_and_middleware_combined_for_individual_service() {
    let mut flow = Flow::new();
    let public_service = PublicService::default();
    let protected = MiddlewareFor::new(
        InterceptorFor::new(ProtectedService::default(), AuthInterceptor::new()),
        Middleware1::new(),
    );

    let result = protected
        .call(authorized_request(), &mut flow)
        .expect("Method response");
    assert_eq!(result.metadata.get(USER_ID_HEADER_KEY).unwrap(), USER_ID);

    public_service
        .call(plain_request(), &mut flow)
        .expect("Method response");

    let actions: Vec<Action> = flow.read_actions();
    assert_eq!(actions.len(), 3);
    assert_eq!(actions[0], Action::Middleware1Before);
    assert_eq!(actions[1], Action::AuthInterceptor);
    assert_eq!(actions[2], Action::Middleware1After);
}

#[test]
fn test_interceptor_and_middleware_combined_for_all_services_through_layer() {
    let mut flow = Flow::new();
    let middleware_layer = MiddlewareLayer::new(Middleware1::new());
    let interceptor_layer = RequestInterceptorLayer::new(Interceptor2::new());
    let public_service = middleware_layer.layer(interceptor_layer.layer(PublicService::default()));
    let protected = middleware_layer.layer(interceptor_layer.layer(InterceptorFor::new(
        ProtectedService::default(),
        AuthInterceptor::new(),
    )));

    protected
        .call(authorized_request(), &mut flow)
        .expect("Method response");

    public_service
        .call(plain_request(), &mut flow)
        .expect("Method response");

    let actions: Vec<Action> = flow.read_actions();
    assert_eq!(actions.len(), 7);
    assert_eq!(actions[0], Action::Middleware1Before);
    assert_eq!(actions[1], Action::Interceptor2);
    assert_eq!(actions[2], Action::AuthInterceptor);
    assert_eq!(actions[3], Action::Middleware1After);
    assert_eq!(actions[4], Action::Middleware1Before);
    assert_eq!(actions[5], Action::Interceptor2);
    assert_eq!(actions[6], Action::Middleware1After);
}
