use vstd::prelude::*;
use crate::constant::constants::API_FOO_GET_ALL;
use crate::constant::constants::API_FOO_MAIN_PATH;
use crate::constant::constants::API_FOO_POST_ALL;
use crate::controller::routes::is_nested_under;
use crate::controller::routes::nest;
use crate::controller::routes::route;
use crate::controller::routes::Handler;
use crate::controller::routes::HttpMethod;
use crate::controller::routes::Route;
use crate::service::foo_service::body_text;
use crate::service::foo_service::is_successful_reply;
use crate::service::foo_service::parses_as_uri;
use crate::service::foo_service::reply_result;
use crate::service::foo_service::ThirdPartyReply;

verus! {

/// What a foo end-point answers
pub enum FooAnswer {
    /// 200 OK with the third party's result as body
    Found(String),
    /// 500 Internal Server Error with an empty body
    InternalServerError,
}

/// The answer that a foo end-point gives for what the service returned
/// (`None` for an error): its status code and its body.
pub open spec fn answer_for(result: Option<Seq<char>>) -> (u16, Seq<char>) {
    match result {
        Some(text) => (200u16, text),
        None => (500u16, Seq::empty()),
    }
}

impl View for FooAnswer {
    type V = (u16, Seq<char>);

    /// The status code and the body of the answer
    open spec fn view(&self) -> (u16, Seq<char>) {
        match self {
            FooAnswer::Found(text) => (200u16, text@),
            FooAnswer::InternalServerError => (500u16, Seq::empty()),
        }
    }
}

impl FooAnswer {
    /// HTTP status code of the answer
    pub fn status_code(&self) -> (code: u16)
        ensures
            code == self@.0,
            self is Found ==> code == 200,
            self is InternalServerError ==> code == 500,
    {
        match self {
            FooAnswer::Found(_) => 200,
            FooAnswer::InternalServerError => 500,
        }
    }

    /// Body of the answer
    pub fn into_body(self) -> (body: String)
        ensures
            body@ == self@.1,
            self matches FooAnswer::Found(text) ==> body == text,
            self is InternalServerError ==> body@.len() == 0,
    {
        match self {
            FooAnswer::Found(text) => text,
            FooAnswer::InternalServerError => String::new(),
        }
    }
}

/// Foo controller implementation struct
pub struct FooController {}

/// Creates Foo routes, relative to the path under which they are nested
pub fn create_routes() -> (routes: Vec<Route>)
    ensures
        routes@.len() == 2,
        routes@[0].method == HttpMethod::Get,
        routes@[0].path@ == API_FOO_GET_ALL@,
        routes@[0].handler == Handler::GetFoo,
        routes@[1].method == HttpMethod::Post,
        routes@[1].path@ == API_FOO_POST_ALL@,
        routes@[1].handler == Handler::PostFoo,
{
    let mut routes: Vec<Route> = Vec::new();
    routes.push(route(HttpMethod::Get, API_FOO_GET_ALL, Handler::GetFoo));
    routes.push(route(HttpMethod::Post, API_FOO_POST_ALL, Handler::PostFoo));
    routes
}

impl FooController {
    /// The end-points of this controller: the Foo routes nested under `API_FOO_MAIN_PATH`
    pub fn routes() -> (routes: Vec<Route>)
        ensures
            routes@.len() == 2,
            routes@[0].method == HttpMethod::Get,
            routes@[0].path@ == API_FOO_MAIN_PATH@ + API_FOO_GET_ALL@,
            routes@[0].handler == Handler::GetFoo,
            routes@[1].method == HttpMethod::Post,
            routes@[1].path@ == API_FOO_MAIN_PATH@ + API_FOO_POST_ALL@,
            routes@[1].handler == Handler::PostFoo,
    {
        let relative = create_routes();
        let routes = nest(API_FOO_MAIN_PATH, &relative);
        assert(is_nested_under(routes@, API_FOO_MAIN_PATH@, relative@));
        assert(routes@[0].path@ == API_FOO_MAIN_PATH@ + relative@[0].path@);
        assert(routes@[1].path@ == API_FOO_MAIN_PATH@ + relative@[1].path@);
        routes
    }

    /// Maps what the foo service returned to the answer of a foo end-point (GET and POST alike):
    /// the result with 200 OK, or 500 Internal Server Error on an error.
    #[verifier::allow_in_spec]
    pub fn map_foo_result(result: Result<String, ()>) -> (answer: FooAnswer)
        ensures
            answer@ == answer_for(
                match result {
                    Ok(text) => Some(text@),
                    Err(_) => None,
                },
            ),
        returns
            (match result {
                Ok(text) => FooAnswer::Found(text),
                Err(_) => FooAnswer::InternalServerError,
            }),
    {
        match result {
            Ok(text) => FooAnswer::Found(text),
            Err(_) => FooAnswer::InternalServerError,
        }
    }
}

/// The status and body of an answer: `Found(text)` is 200 OK with `text` itself as body,
/// `InternalServerError` is 500 with an empty body.
pub proof fn lemma_foo_answer_status_and_body(text: String)
    ensures
        FooAnswer::Found(text)@ == (200u16, text@),
        FooAnswer::InternalServerError@ == (500u16, Seq::<char>::empty()),
{
}

/// A foo end-point passes the service's result through unchanged: for `Ok(text)` it answers
/// `Found` holding that very string (200 OK, body `text`); for an error it answers 500
/// Internal Server Error with an empty body.
pub proof fn lemma_map_foo_result_passes_result_through(result: Result<String, ()>)
    ensures
        result matches Ok(text) ==> FooController::map_foo_result(result) == FooAnswer::Found(text)
            && FooController::map_foo_result(result)@ == (200u16, text@),
        result is Err ==> FooController::map_foo_result(result) == FooAnswer::InternalServerError
            && FooController::map_foo_result(result)@ == (500u16, Seq::<char>::empty()),
{
}

/// A foo end-point answers 200 OK exactly when the third party URL parses and the third party
/// answered with a success status, and its body is then the third party's body text; in every
/// other case it answers 500 Internal Server Error with an empty body.
pub proof fn lemma_foo_answer_follows_third_party(url: Seq<char>, reply: ThirdPartyReply)
    ensures
        ({
            let result = if parses_as_uri(url) { reply_result(reply) } else { None };
            &&& answer_for(result).0 == 200 <==> (parses_as_uri(url) && is_successful_reply(reply))
            &&& answer_for(result).0 != 200 ==> answer_for(result) == (500u16, Seq::<char>::empty())
            &&& (parses_as_uri(url) && is_successful_reply(reply)) ==> answer_for(result).1
                == body_text(reply->body@)
        }),
{
}

} // verus!
