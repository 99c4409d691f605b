use deviceservice::restapihttpserver::{
    gethelloworldwebservice, statusnotfoundwebservice, webservicerouter, Route,
};

#[test]
fn the_four_routes_are_found() {
    assert_eq!(webservicerouter("GET", "/api/v1/helloworld"), Route::HelloWorld);
    assert_eq!(webservicerouter("POST", "/queryDevice"), Route::QueryDevice);
    assert_eq!(webservicerouter("POST", "/queryDeviceCredential"), Route::QueryDeviceCredential);
    assert_eq!(webservicerouter("POST", "/deviceChange"), Route::DeviceChange);
}

#[test]
fn the_four_routes_answer_with_200() {
    assert_eq!(Route::HelloWorld.status(), 200);
    assert_eq!(Route::QueryDevice.status(), 200);
    assert_eq!(Route::QueryDeviceCredential.status(), 200);
    assert_eq!(Route::DeviceChange.status(), 200);
}

#[test]
fn other_requests_are_not_found() {
    let others = [
        ("POST", "/api/v1/helloworld"),
        ("GET", "/queryDevice"),
        ("GET", "/queryDeviceCredential"),
        ("GET", "/deviceChange"),
        ("PUT", "/deviceChange"),
        ("DELETE", "/queryDevice"),
        ("get", "/api/v1/helloworld"),
        ("post", "/queryDevice"),
        ("GET", "/api/v1/helloworld/"),
        ("GET", "/api/v1/HelloWorld"),
        ("POST", "/queryDevice/"),
        ("POST", "/querydevice"),
        ("POST", "/queryDeviceCredentials"),
        ("POST", "/deviceChange?x=1"),
        ("GET", "/"),
        ("GET", ""),
        ("", ""),
        ("POST", "/"),
    ];
    for (method, path) in others {
        let route = webservicerouter(method, path);
        assert_eq!(route, Route::NotFound);
        assert_eq!(route.status(), 404);
    }
}

#[test]
fn fixed_bodies() {
    assert_eq!(gethelloworldwebservice(), "Hello World");
    assert_eq!(statusnotfoundwebservice(), "404 Not Found");
}
