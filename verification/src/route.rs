//! The routes the service offers, and which of them ask for authentication.

use vstd::prelude::*;
use vstd::string::*;

verus! {

/// The request method of a route.
#[derive(Debug, Clone, Copy, PartialEq, Eq, Structural)]
pub enum Method {
    Get,
    Post,
    Patch,
    Delete,
}

/// What a route leads to.
#[derive(Debug, Clone, Copy, PartialEq, Eq, Structural)]
pub enum Endpoint {
    HealthCheck,
    ListTodos,
    CreateTodo,
    GetTodo,
    UpdateTodo,
    DeleteTodo,
    Login,
    Signup,
    ConfirmUser,
}

/// One route: a method and a path, the endpoint they lead to, and whether it
/// asks for authentication.
#[derive(Debug, Clone, PartialEq, Eq)]
pub struct Route {
    pub method: Method,
    pub path: String,
    pub endpoint: Endpoint,
    pub protected: bool,
}

/// What a `Route` is, mathematically.
pub struct RouteView {
    pub method: Method,
    pub path: Seq<char>,
    pub endpoint: Endpoint,
    pub protected: bool,
}

impl View for Route {
    type V = RouteView;

    open spec fn view(&self) -> RouteView {
        RouteView {
            method: self.method,
            path: self.path@,
            endpoint: self.endpoint,
            protected: self.protected,
        }
    }
}

/// The views of a list of routes, in order.
pub open spec fn route_views(routes: Seq<Route>) -> Seq<RouteView> {
    routes.map_values(|route: Route| route@)
}

/// Whether an endpoint is served only to authenticated callers: everything
/// that touches todos is.
pub open spec fn is_protected(endpoint: Endpoint) -> bool {
    match endpoint {
        Endpoint::ListTodos => true,
        Endpoint::CreateTodo => true,
        Endpoint::GetTodo => true,
        Endpoint::UpdateTodo => true,
        Endpoint::DeleteTodo => true,
        Endpoint::HealthCheck => false,
        Endpoint::Login => false,
        Endpoint::Signup => false,
        Endpoint::ConfirmUser => false,
    }
}

/// A route to `endpoint`.
pub open spec fn route_to(method: Method, path: Seq<char>, endpoint: Endpoint) -> RouteView {
    RouteView { method, path, endpoint, protected: is_protected(endpoint) }
}

/// The service's routes.
pub open spec fn route_table() -> Seq<RouteView> {
    seq![
        route_to(Method::Get, "/todos"@, Endpoint::ListTodos),
        route_to(Method::Post, "/todos"@, Endpoint::CreateTodo),
        route_to(Method::Get, "/todos/:id"@, Endpoint::GetTodo),
        route_to(Method::Patch, "/todos/:id"@, Endpoint::UpdateTodo),
        route_to(Method::Delete, "/todos/:id"@, Endpoint::DeleteTodo),
        route_to(Method::Post, "/login"@, Endpoint::Login),
        route_to(Method::Post, "/signup"@, Endpoint::Signup),
        route_to(Method::Post, "/confirm"@, Endpoint::ConfirmUser),
        route_to(Method::Get, "/"@, Endpoint::HealthCheck),
    ]
}

/// Whether `endpoint` asks for authentication.
pub fn requires_auth(endpoint: Endpoint) -> (protected: bool)
    ensures
        protected == is_protected(endpoint),
{
    match endpoint {
        Endpoint::ListTodos
        | Endpoint::CreateTodo
        | Endpoint::GetTodo
        | Endpoint::UpdateTodo
        | Endpoint::DeleteTodo => true,
        Endpoint::HealthCheck | Endpoint::Login | Endpoint::Signup | Endpoint::ConfirmUser => false,
    }
}

fn route(method: Method, path: &str, endpoint: Endpoint) -> (route: Route)
    ensures
        route@ == route_to(method, path@, endpoint),
{
    Route { method, path: String::from_str(path), endpoint, protected: requires_auth(endpoint) }
}

/// Lists the service's routes, the protected ones first.
pub fn create_router() -> (routes: Vec<Route>)
    ensures
        route_views(routes@) == route_table(),
{
    let mut routes: Vec<Route> = Vec::new();
    routes.push(route(Method::Get, "/todos", Endpoint::ListTodos));
    routes.push(route(Method::Post, "/todos", Endpoint::CreateTodo));
    routes.push(route(Method::Get, "/todos/:id", Endpoint::GetTodo));
    routes.push(route(Method::Patch, "/todos/:id", Endpoint::UpdateTodo));
    routes.push(route(Method::Delete, "/todos/:id", Endpoint::DeleteTodo));
    routes.push(route(Method::Post, "/login", Endpoint::Login));
    routes.push(route(Method::Post, "/signup", Endpoint::Signup));
    routes.push(route(Method::Post, "/confirm", Endpoint::ConfirmUser));
    routes.push(route(Method::Get, "/", Endpoint::HealthCheck));
    assert(route_views(routes@) =~= route_table());
    routes
}

} // verus!
