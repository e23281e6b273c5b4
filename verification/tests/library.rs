use tonic_middleware::auth::{
    is_valid_header_value, AuthInterceptor as TokenAuthInterceptor, AuthService, AuthServiceImpl,
};
use tonic_middleware::orders::Orders;
use tonic_middleware::products::Products;
use tonic_middleware::services::{
    AuthInterceptor, Interceptor2, Middleware1, ProtectedService, PublicService, TOKEN, USER_ID,
};
use tonic_middleware::{
    Action, Code, Flow, InterceptorFor, Metadata, MiddlewareFor, MiddlewareLayer, Request,
    RequestInterceptor, RequestInterceptorLayer, ServiceBound, Status,
};

#[test]
fn flow_records_actions_in_order() {
    let mut flow = Flow::new();
    assert!(flow.read_actions().is_empty());
    flow.add_action(Action::Middleware1Before);
    flow.add_action(Action::AuthInterceptor);
    flow.add_action(Action::Middleware1After);
    let actions = flow.read_actions();
    assert_eq!(
        actions,
        vec![
            Action::Middleware1Before,
            Action::AuthInterceptor,
            Action::Middleware1After
        ]
    );
}

#[test]
fn metadata_keys_are_case_insensitive() {
    let mut metadata = Metadata::new();
    metadata.append("Authorization".to_string(), "abc".to_string());
    assert_eq!(metadata.get("authorization").unwrap(), "abc");
    assert_eq!(metadata.get("AUTHORIZATION").unwrap(), "abc");
    assert!(metadata.get("authorizatio").is_none());
    assert!(metadata.get("authorization2").is_none());
}

#[test]
fn metadata_keeps_multiple_values_in_insertion_order() {
    let mut metadata = Metadata::new();
    metadata.append("accept".to_string(), "text".to_string());
    metadata.append("other".to_string(), "x".to_string());
    metadata.append("Accept".to_string(), "binary".to_string());
    assert_eq!(metadata.get("accept").unwrap(), "text");
    let all = metadata.get_all("ACCEPT");
    assert_eq!(all.len(), 2);
    assert_eq!(all[0], "text");
    assert_eq!(all[1], "binary");
}

#[test]
fn metadata_set_replaces_every_value_under_the_key() {
    let mut metadata = Metadata::new();
    metadata.append("User_Id".to_string(), "old-1".to_string());
    metadata.append("other".to_string(), "x".to_string());
    metadata.append("user_id".to_string(), "old-2".to_string());
    metadata.set("user_id".to_string(), "user-1".to_string());
    assert_eq!(metadata.get("user_id").unwrap(), "user-1");
    assert_eq!(metadata.get_all("user_id").len(), 1);
    assert_eq!(metadata.get("other").unwrap(), "x");
}

#[test]
fn status_translates_into_a_terminal_response() {
    let unauthenticated = Status::unauthenticated("Unauthenticated").to_http();
    assert_eq!(unauthenticated.body, "");
    assert_eq!(unauthenticated.metadata.get("grpc-status").unwrap(), "16");
    assert_eq!(
        unauthenticated.metadata.get("grpc-message").unwrap(),
        "Unauthenticated"
    );

    let internal = Status::internal("boom").to_http();
    assert_eq!(internal.metadata.get("grpc-status").unwrap(), "13");
    assert_eq!(internal.metadata.get("grpc-message").unwrap(), "boom");

    let okay = Status::new(Code::Okay, "done".to_string()).to_http();
    assert_eq!(okay.metadata.get("grpc-status").unwrap(), "0");
    assert_eq!(okay.metadata.get("grpc-message").unwrap(), "done");
}

#[test]
fn auth_service_resolves_the_recognised_token_only() {
    let auth = AuthServiceImpl::default();
    assert_eq!(auth.verify_token(TOKEN).unwrap(), USER_ID);
    assert_eq!(auth.verify_token("wrong").unwrap_err(), "Unauthenticated");
}

#[test]
fn token_auth_interceptor_attaches_the_resolved_identity() {
    let mut flow = Flow::new();
    let interceptor = TokenAuthInterceptor { auth_service: AuthServiceImpl::default() };
    let mut request = Request::new("Hello!".to_string());
    request
        .metadata
        .append("authorization".to_string(), TOKEN.to_string());
    let forwarded = interceptor.intercept(request, &mut flow).unwrap();
    assert_eq!(forwarded.metadata.get("user_id").unwrap(), USER_ID);
    assert!(flow.read_actions().is_empty());
}

#[test]
fn token_auth_interceptor_rejects_a_missing_or_wrong_token() {
    let mut flow = Flow::new();
    let interceptor = TokenAuthInterceptor { auth_service: AuthServiceImpl::default() };

    let missing = interceptor
        .intercept(Request::new("Hello!".to_string()), &mut flow)
        .unwrap_err();
    assert_eq!(missing.code, Code::Unauthenticated);
    assert_eq!(missing.message, "Unauthenticated");

    let mut request = Request::new("Hello!".to_string());
    request
        .metadata
        .append("authorization".to_string(), "wrong".to_string());
    let wrong = interceptor.intercept(request, &mut flow).unwrap_err();
    assert_eq!(wrong.code, Code::Unauthenticated);
    assert_eq!(wrong.message, "Unauthenticated");
}

#[test]
fn header_value_validity_means_printable_ascii() {
    assert!(is_valid_header_value("user-1"));
    assert!(is_valid_header_value(""));
    assert!(!is_valid_header_value("user\u{1}"));
    assert!(!is_valid_header_value("usager-numéro-1"));
}

#[test]
fn orders_answers_the_identified_caller() {
    let mut request = Request::new("orders?".to_string());
    request
        .metadata
        .append("user_id".to_string(), USER_ID.to_string());
    let response = Orders::default().get_my_orders(request).unwrap();
    assert_eq!(response.orders.len(), 2);
    assert_eq!(response.orders[0].id, "ord001");
    assert_eq!(response.orders[0].label, "Christmas gifts");
    assert_eq!(response.orders[0].amount, 350);
    assert_eq!(response.orders[1].id, "ord002");
    assert_eq!(response.orders[1].label, "Home office equipment");
    assert_eq!(response.orders[1].amount, 1150);
}

#[test]
fn products_answers_every_request() {
    let response = Products::default()
        .list_products(Request::new("products?".to_string()))
        .unwrap();
    assert_eq!(response.products.len(), 2);
    assert_eq!(response.products[0].id, "p001");
    assert_eq!(response.products[0].name, "phone");
    assert_eq!(response.products[1].id, "p002");
    assert_eq!(response.products[1].name, "tablet");
}

#[test]
fn rejection_is_observed_as_success_by_enclosing_middleware() {
    let mut flow = Flow::new();
    let service = MiddlewareFor::new(
        InterceptorFor::new(ProtectedService::default(), AuthInterceptor::new()),
        Middleware1::new(),
    );
    // No authorization: the interceptor rejects, yet the middleware's
    // after-phase still runs and the call succeeds with the terminal response.
    let response = service
        .call(Request::new("Hello!".to_string()), &mut flow)
        .expect("a rejection is a successful terminal response");
    assert_eq!(response.metadata.get("grpc-status").unwrap(), "16");

    let actions = flow.read_actions();
    assert_eq!(actions.len(), 3);
    assert_eq!(actions[0], Action::Middleware1Before);
    assert_eq!(actions[1], Action::AuthInterceptor);
    assert_eq!(actions[2], Action::Middleware1After);
}

#[test]
fn handler_failure_propagates_and_skips_the_after_phase() {
    let mut flow = Flow::new();
    let service = MiddlewareFor::new(ProtectedService::default(), Middleware1::new());
    // No user_id in the metadata: the protected service fails on its native
    // error channel, which the middleware forwards verbatim without running
    // its after-phase.
    let error = service
        .call(Request::new("Hello!".to_string()), &mut flow)
        .unwrap_err();
    assert_eq!(error.message, "user_id missing");

    let actions = flow.read_actions();
    assert_eq!(actions.len(), 1);
    assert_eq!(actions[0], Action::Middleware1Before);
}

#[test]
fn global_layers_record_the_same_actions_for_every_handler() {
    let mut flow = Flow::new();
    let middleware_layer = MiddlewareLayer::new(Middleware1::new());
    let interceptor_layer = RequestInterceptorLayer::new(Interceptor2::new());
    let first = middleware_layer.layer(interceptor_layer.layer(PublicService::default()));
    let second = middleware_layer.layer(interceptor_layer.layer(ProtectedService::default()));

    first
        .call(Request::new("Hello!".to_string()), &mut flow)
        .expect("Method response");
    let mut identified = Request::new("Hello!".to_string());
    identified
        .metadata
        .append("user_id".to_string(), USER_ID.to_string());
    second.call(identified, &mut flow).expect("Method response");

    // Per call: middleware before, interceptor, middleware after — three
    // actions, independent of which handler was invoked.
    let actions = flow.read_actions();
    assert_eq!(actions.len(), 6);
    let per_call = [
        Action::Middleware1Before,
        Action::Interceptor2,
        Action::Middleware1After,
    ];
    assert_eq!(&actions[0..3], &per_call);
    assert_eq!(&actions[3..6], &per_call);
}

#[test]
fn readiness_and_name_pass_through_every_wrapper() {
    let service = MiddlewareFor::new(
        InterceptorFor::new(PublicService::default(), AuthInterceptor::new()),
        Middleware1::new(),
    );
    assert!(service.poll_ready());
    assert_eq!(service.name().unwrap(), "PublicService");
}
