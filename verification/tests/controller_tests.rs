use rust_poc_ai_model_comparison::constant::constants::API_FOO_GET_ALL;
use rust_poc_ai_model_comparison::constant::constants::API_FOO_MAIN_PATH;
use rust_poc_ai_model_comparison::constant::constants::API_FOO_POST_ALL;
use rust_poc_ai_model_comparison::constant::constants::API_HEALTH_CHECK_PATH;
use rust_poc_ai_model_comparison::constant::constants::SERVER_RUNNING_STATUS;
use rust_poc_ai_model_comparison::controller::foo_controller::create_routes;
use rust_poc_ai_model_comparison::controller::foo_controller::FooAnswer;
use rust_poc_ai_model_comparison::controller::foo_controller::FooController;
use rust_poc_ai_model_comparison::controller::health_controller::HealthController;
use rust_poc_ai_model_comparison::controller::routes::nest;
use rust_poc_ai_model_comparison::controller::routes::route;
use rust_poc_ai_model_comparison::controller::routes::Handler;
use rust_poc_ai_model_comparison::controller::routes::HttpMethod;
use rust_poc_ai_model_comparison::service::foo_service::FooService;
use rust_poc_ai_model_comparison::service::foo_service::ThirdPartyReply;

#[test]
fn map_foo_result_answers_ok_with_the_result() {
    let answer = FooController::map_foo_result(Ok(String::from("some-response-value")));
    assert_eq!(200, answer.status_code());
    assert_eq!("some-response-value", answer.into_body());
}

#[test]
fn map_foo_result_answers_internal_server_error_on_error() {
    let answer = FooController::map_foo_result(Err(()));
    assert!(matches!(answer, FooAnswer::InternalServerError));
    assert_eq!(500, answer.status_code());
    assert_eq!("", answer.into_body());
}

#[test]
fn foo_answer_follows_third_party_status() {
    let foo_service = FooService {};
    let ok = foo_service.result_from_reply(ThirdPartyReply::Answered {
        status: 201,
        body: b"some-api-response-value".to_vec(),
    });
    let answer = FooController::map_foo_result(ok);
    assert_eq!(200, answer.status_code());
    assert_eq!("some-api-response-value", answer.into_body());

    let failed = foo_service.result_from_reply(ThirdPartyReply::Answered {
        status: 404,
        body: b"not found".to_vec(),
    });
    let answer = FooController::map_foo_result(failed);
    assert_eq!(500, answer.status_code());
    assert_eq!("", answer.into_body());

    let invalid_url = foo_service.sanitize_url(String::from("no valid url")).map(|_| String::new());
    assert_eq!(500, FooController::map_foo_result(invalid_url).status_code());
}

#[test]
fn create_routes_lists_get_and_post() {
    let routes = create_routes();
    assert_eq!(2, routes.len());
    assert_eq!(HttpMethod::Get, routes[0].method);
    assert_eq!(API_FOO_GET_ALL, routes[0].path);
    assert_eq!(Handler::GetFoo, routes[0].handler);
    assert_eq!(HttpMethod::Post, routes[1].method);
    assert_eq!(API_FOO_POST_ALL, routes[1].path);
    assert_eq!(Handler::PostFoo, routes[1].handler);
}

#[test]
fn foo_controller_routes_are_nested_under_main_path() {
    let routes = FooController::routes();
    assert_eq!(2, routes.len());
    assert_eq!(format!("{API_FOO_MAIN_PATH}{API_FOO_GET_ALL}"), routes[0].path);
    assert_eq!("/foo/get-all", routes[0].path);
    assert_eq!(HttpMethod::Get, routes[0].method);
    assert_eq!(Handler::GetFoo, routes[0].handler);
    assert_eq!(format!("{API_FOO_MAIN_PATH}{API_FOO_POST_ALL}"), routes[1].path);
    assert_eq!(HttpMethod::Post, routes[1].method);
    assert_eq!(Handler::PostFoo, routes[1].handler);
}

#[test]
fn nest_prefixes_each_path_and_keeps_order() {
    let routes = vec![
        route(HttpMethod::Post, "/b", Handler::PostFoo),
        route(HttpMethod::Get, "", Handler::HealthCheck),
    ];
    let nested = nest("/api", &routes);
    assert_eq!(2, nested.len());
    assert_eq!("/api/b", nested[0].path);
    assert_eq!(HttpMethod::Post, nested[0].method);
    assert_eq!(Handler::PostFoo, nested[0].handler);
    assert_eq!("/api", nested[1].path);
    assert_eq!(Handler::HealthCheck, nested[1].handler);
    assert!(nest("/api", &Vec::new()).is_empty());
}

#[test]
fn health_controller_routes_list_the_health_check() {
    let routes = HealthController::routes();
    assert_eq!(1, routes.len());
    assert_eq!(HttpMethod::Get, routes[0].method);
    assert_eq!(API_HEALTH_CHECK_PATH, routes[0].path);
    assert_eq!(Handler::HealthCheck, routes[0].handler);
}

#[test]
fn map_health_reports_running_status() {
    assert_eq!(SERVER_RUNNING_STATUS, HealthController::map_health().status);
}
