use ockam_core::{Address, Route};
use vstd::prelude::*;
use vstd::string::to_string_from_display_ensures;
use vstd::string::StringExecFns;

verus! {

// - outside types -------------------------------------------------------------

#[verifier::external_type_specification]
#[verifier::external_body]
pub struct ExAddress(Address);

#[verifier::external_type_specification]
#[verifier::external_body]
pub struct ExRoute(Route);

// - messages ------------------------------------------------------------------

/// What the echo worker reads of a routed message it receives: the route
/// along which a reply reaches the sender, and the text it carries.
pub struct EchoRequest {
    pub return_route: Route,
    pub body: String,
}

/// What the echo worker does with a message: the lines it logs, in order,
/// and the message it sends.
pub struct EchoReply {
    pub log: Vec<String>,
    pub route: Route,
    pub body: String,
}

/// The line logged on receipt of `body` by the worker at `address`.
pub open spec fn received_line(address: Seq<char>, body: Seq<char>) -> Seq<char> {
    "[echoer] Address: "@ + address + ", Received: "@ + body
}

/// The line logged before `body` is sent back along the route shown as `route`.
pub open spec fn echoing_line(body: Seq<char>, route: Seq<char>) -> Seq<char> {
    "[echoer] Echoing message '"@ + body + "' back on its return_route: "@ + route
}

/// The receipt line is its fixed text, the shown address, and then the whole
/// received body, of any length.
pub proof fn received_line_ends_with_whole_body(address: Seq<char>, body: Seq<char>)
    ensures
        received_line(address, body).len() == "[echoer] Address: "@.len() + address.len()
            + ", Received: "@.len() + body.len(),
        received_line(address, body).take(("[echoer] Address: "@.len() + address.len() + ", Received: "@.len()) as int) == "[echoer] Address: "@ + address + ", Received: "@,
        received_line(address, body).skip(("[echoer] Address: "@.len() + address.len() + ", Received: "@.len()) as int) == body,
{
    let head = "[echoer] Address: "@ + address + ", Received: "@;
    let line = received_line(address, body);
    assert(line =~= head + body);
    assert(line.take(head.len() as int) =~= head);
    assert(line.skip(head.len() as int) =~= body);
}

/// The echo line is its fixed text around the whole body, then the whole
/// shown return route, both of any length.
pub proof fn echoing_line_ends_with_whole_route(body: Seq<char>, route: Seq<char>)
    ensures
        echoing_line(body, route).len() == "[echoer] Echoing message '"@.len() + body.len()
            + "' back on its return_route: "@.len() + route.len(),
        echoing_line(body, route).take(("[echoer] Echoing message '"@.len() + body.len() + "' back on its return_route: "@.len()) as int) == "[echoer] Echoing message '"@ + body + "' back on its return_route: "@,
        echoing_line(body, route).skip(("[echoer] Echoing message '"@.len() + body.len() + "' back on its return_route: "@.len()) as int) == route,
        echoing_line(body, route).subrange(
            "[echoer] Echoing message '"@.len() as int,
            ("[echoer] Echoing message '"@.len() + body.len()) as int,
        ) == body,
{
    let head = "[echoer] Echoing message '"@ + body + "' back on its return_route: "@;
    let line = echoing_line(body, route);
    assert(line =~= head + route);
    assert(line.take(head.len() as int) =~= head);
    assert(line.skip(head.len() as int) =~= route);
    assert(line.subrange(
        "[echoer] Echoing message '"@.len() as int,
        ("[echoer] Echoing message '"@.len() + body.len()) as int,
    ) =~= body);
}

/// A worker that sends every message it receives back to its sender.
#[derive(Clone, Copy, Debug)]
pub struct Echoer;

impl Echoer {
    /// Handles `req`, received by the worker at `address`: logs its receipt
    /// and its echo, and sends its body back along its return route.
    pub fn handle_message(&mut self, address: &Address, req: EchoRequest) -> (reply: EchoReply)
        ensures
            reply.route == req.return_route,
            reply.body@ == req.body@,
            reply.log@.len() == 2,
            exists|shown: String|
                to_string_from_display_ensures::<Address>(address, shown)
                    && reply.log@[0]@ == received_line(shown@, req.body@),
            exists|shown: String|
                to_string_from_display_ensures::<Route>(&req.return_route, shown)
                    && reply.log@[1]@ == echoing_line(req.body@, shown@),
            exists|shown: String|
                to_string_from_display_ensures::<Address>(address, shown)
                    && reply.log@[0]@ == "[echoer] Address: "@ + shown@ + ", Received: "@ + req.body@,
            exists|shown: String|
                to_string_from_display_ensures::<Route>(&req.return_route, shown)
                    && reply.log@[1]@.len() == "[echoer] Echoing message '"@.len() + req.body@.len()
                        + "' back on its return_route: "@.len() + shown@.len()
                    && reply.log@[1]@.skip((reply.log@[1]@.len() - shown@.len()) as int) == shown@,
    {
        let address_text = address.to_string();
        let route_text = req.return_route.to_string();
        let mut received = String::from_str("[echoer] Address: ");
        received.append(address_text.as_str());
        received.append(", Received: ");
        received.append(req.body.as_str());
        let mut echoing = String::from_str("[echoer] Echoing message '");
        echoing.append(req.body.as_str());
        echoing.append("' back on its return_route: ");
        echoing.append(route_text.as_str());
        let mut log: Vec<String> = Vec::new();
        log.push(received);
        log.push(echoing);
        proof {
            received_line_ends_with_whole_body(address_text@, req.body@);
            echoing_line_ends_with_whole_route(req.body@, route_text@);
            let line1 = echoing_line(req.body@, route_text@);
            assert(line1.skip((line1.len() - route_text@.len()) as int) =~= route_text@);
        }
        EchoReply { log, route: req.return_route, body: req.body }
    }
}

} // verus!
