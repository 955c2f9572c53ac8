//! The greeting.

use vstd::prelude::*;
use crate::errors::AppError;
use crate::response::{ResponseBuilder, ResponseLink};

verus! {

/// The status of an answer that went well.
pub const OK: u16 = 200;

/// Greets the caller: status 200, the greeting as data, the message
/// "Success" and one link back to this route.
pub fn say_hello() -> (answer: Result<(u16, ResponseBuilder<&'static str>), AppError>)
    ensures
        answer matches Ok((status, body)) && {
            &&& status == OK
            &&& body.data() matches Some(greeting) && greeting@ == "Hello, world!"@
            &&& body.failure() is None
            &&& body.text() == "Success"@
            &&& body.links().len() == 1
            &&& body.links()[0].rel@ == "self"@
            &&& body.links()[0].href@ == "/hello"@
            &&& body.links()[0].method@ == "GET"@
        },
{
    let body = ResponseBuilder::new("Hello, world!").message("Success").link(
        ResponseLink::new("self", "/hello", "GET"),
    );
    Ok((OK, body))
}

} // verus!
