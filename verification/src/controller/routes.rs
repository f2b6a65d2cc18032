use vstd::prelude::*;

verus! {

/// HTTP method that a route answers
#[derive(Debug, Clone, Copy, PartialEq, Eq, Structural)]
pub enum HttpMethod {
    Get,
    Post,
}

/// The handler that serves a route
#[derive(Debug, Clone, Copy, PartialEq, Eq, Structural)]
pub enum Handler {
    /// foo GET end-point: the URL comes from the query string
    GetFoo,
    /// foo POST end-point: the URL comes from the JSON body
    PostFoo,
    /// health check end-point
    HealthCheck,
}

/// One end-point: a method on a path, served by a handler
pub struct Route {
    pub method: HttpMethod,
    pub path: String,
    pub handler: Handler,
}

/// `nested` is `routes` with every path put under `prefix`, in the same order,
/// with the same methods and handlers.
pub open spec fn is_nested_under(nested: Seq<Route>, prefix: Seq<char>, routes: Seq<Route>) -> bool {
    &&& nested.len() == routes.len()
    &&& forall|i: int|
        0 <= i < routes.len() ==> {
            &&& (#[trigger] nested[i]).path@ == prefix + routes[i].path@
            &&& nested[i].method == routes[i].method
            &&& nested[i].handler == routes[i].handler
        }
}

/// Builds one route.
pub fn route(method: HttpMethod, path: &str, handler: Handler) -> (r: Route)
    ensures
        r.method == method,
        r.path@ == path@,
        r.handler == handler,
{
    Route { method, path: String::from_str(path), handler }
}

/// Puts every route under the path `prefix`, as a router nested at `prefix` serves them.
pub fn nest(prefix: &str, routes: &Vec<Route>) -> (nested: Vec<Route>)
    ensures
        is_nested_under(nested@, prefix@, routes@),
{
    let mut nested: Vec<Route> = Vec::new();
    let n: usize = routes.len();
    for i in 0..n
        invariant
            n == routes@.len(),
            is_nested_under(nested@, prefix@, routes@.take(i as int)),
    {
        let mut path = String::from_str(prefix);
        path.append(routes[i].path.as_str());
        nested.push(Route { method: routes[i].method, path, handler: routes[i].handler });
        assert(routes@.take(i as int).push(routes@[i as int]) =~= routes@.take(i + 1));
    }
    assert(routes@.take(n as int) =~= routes@);
    nested
}

} // verus!
