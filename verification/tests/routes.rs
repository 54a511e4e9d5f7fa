use todo_api::route::{create_router, requires_auth, Endpoint, Method, Route};

fn route(method: Method, path: &str, endpoint: Endpoint, protected: bool) -> Route {
    Route { method, path: path.to_string(), endpoint, protected }
}

#[test]
fn the_router_lists_every_route() {
    assert_eq!(
        create_router(),
        vec![
            route(Method::Get, "/todos", Endpoint::ListTodos, true),
            route(Method::Post, "/todos", Endpoint::CreateTodo, true),
            route(Method::Get, "/todos/:id", Endpoint::GetTodo, true),
            route(Method::Patch, "/todos/:id", Endpoint::UpdateTodo, true),
            route(Method::Delete, "/todos/:id", Endpoint::DeleteTodo, true),
            route(Method::Post, "/login", Endpoint::Login, false),
            route(Method::Post, "/signup", Endpoint::Signup, false),
            route(Method::Post, "/confirm", Endpoint::ConfirmUser, false),
            route(Method::Get, "/", Endpoint::HealthCheck, false),
        ]
    );
}

#[test]
fn only_the_todo_routes_ask_for_authentication() {
    for route in create_router() {
        assert_eq!(route.protected, route.path.starts_with("/todos"));
        assert_eq!(route.protected, requires_auth(route.endpoint));
    }
}

#[test]
fn account_routes_and_health_check_are_open() {
    assert!(!requires_auth(Endpoint::Login));
    assert!(!requires_auth(Endpoint::Signup));
    assert!(!requires_auth(Endpoint::ConfirmUser));
    assert!(!requires_auth(Endpoint::HealthCheck));
}
