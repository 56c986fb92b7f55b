use backend_agent::routes::{filter_probable_routes, RouteObject};

fn route(route: &str, method: &str, is_route_dynamic: &str) -> RouteObject {
    RouteObject {
        route: route.to_string(),
        method: method.to_string(),
        is_route_dynamic: is_route_dynamic.to_string(),
    }
}

#[test]
fn filter_keeps_exactly_static_gets_in_order() {
    let routes = vec![
        route("/health", "get", "false"),
        route("/items/:id", "get", "true"),
        route("/items", "post", "false"),
        route("/status", "get", "false"),
        route("/users", "GET", "false"),
    ];
    let kept = filter_probable_routes(&routes);
    assert_eq!(kept.len(), 2);
    assert_eq!(kept[0].route, "/health");
    assert_eq!(kept[1].route, "/status");
}

#[test]
fn filter_is_idempotent_on_its_own_output() {
    let routes = vec![
        route("/a", "get", "false"),
        route("/b", "post", "false"),
        route("/c", "get", "false"),
    ];
    let once = filter_probable_routes(&routes);
    let twice = filter_probable_routes(&once);
    assert_eq!(once.len(), twice.len());
    for i in 0..once.len() {
        assert_eq!(once[i].route, twice[i].route);
        assert_eq!(once[i].method, twice[i].method);
        assert_eq!(once[i].is_route_dynamic, twice[i].is_route_dynamic);
    }
}

#[test]
fn dynamic_and_post_routes_are_both_excluded() {
    let routes = vec![route("/widgets/:id", "get", "true"), route("/widgets", "post", "false")];
    let kept = filter_probable_routes(&routes);
    assert_eq!(kept.len(), 0);
}

#[test]
fn empty_descriptor_list_filters_to_empty() {
    let routes: Vec<RouteObject> = vec![];
    let kept = filter_probable_routes(&routes);
    assert_eq!(kept.len(), 0);
}
