use frontend::route::{route_for_path, Route};

#[test]
fn root_path_routes_home() {
    assert_eq!(route_for_path("/"), Route::Home);
}

#[test]
fn counter_path_routes_counter() {
    assert_eq!(route_for_path("/counter"), Route::Counter);
}

#[test]
fn explicit_404_path_routes_not_found() {
    assert_eq!(route_for_path("/404"), Route::NotFound);
}

#[test]
fn empty_path_routes_not_found() {
    assert_eq!(route_for_path(""), Route::NotFound);
}

#[test]
fn unknown_paths_route_not_found() {
    assert_eq!(route_for_path("/home"), Route::NotFound);
    assert_eq!(route_for_path("/counters"), Route::NotFound);
    assert_eq!(route_for_path("/counter/"), Route::NotFound);
    assert_eq!(route_for_path("/counter/1"), Route::NotFound);
    assert_eq!(route_for_path("counter"), Route::NotFound);
    assert_eq!(route_for_path("//"), Route::NotFound);
    assert_eq!(route_for_path("/COUNTER"), Route::NotFound);
    assert_eq!(route_for_path("/counter "), Route::NotFound);
}
