use hello_ockam::echoer::{EchoRequest, Echoer};
use ockam_core::{Address, Route};

#[test]
fn echoer_sends_body_back_on_return_route() {
    let mut echoer = Echoer;
    let address = Address::from_string("echoer");
    let route = Route::create(vec!["1#127.0.0.1:4000", "app"]);
    let req = EchoRequest { return_route: route.clone(), body: String::from("Hello Ockam!") };
    let reply = echoer.handle_message(&address, req);
    assert_eq!(reply.route, route);
    assert_eq!(reply.body, "Hello Ockam!");
    assert_eq!(
        reply.log,
        vec![
            String::from("[echoer] Address: 0#echoer, Received: Hello Ockam!"),
            String::from(
                "[echoer] Echoing message 'Hello Ockam!' back on its return_route: 1#127.0.0.1:4000 => 0#app"
            ),
        ]
    );
}

#[test]
fn echoer_handles_empty_body_and_route() {
    let mut echoer = Echoer;
    let address = Address::from_string("2#e");
    let route: Route = Route::new().into();
    let req = EchoRequest { return_route: route.clone(), body: String::new() };
    let reply = echoer.handle_message(&address, req);
    assert_eq!(reply.route, route);
    assert_eq!(reply.body, "");
    assert_eq!(reply.log[0], "[echoer] Address: 2#e, Received: ");
    assert_eq!(reply.log[1], "[echoer] Echoing message '' back on its return_route: ");
}
