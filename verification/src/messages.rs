use vstd::prelude::*;
use vstd::string::StringExecFns;

verus! {

/// The greeting produced for a caller-supplied name: `"Hello {name}!"`.
pub open spec fn greeting_of(name: Seq<char>) -> Seq<char> {
    "Hello "@ + name + "!"@
}

/// The static liveness payload of the health endpoint.
pub open spec fn health_text() -> Seq<char> {
    "API is up and running!"@
}

/// The stateless greeter service: one operation, no external dependency.
#[derive(Clone, Copy, PartialEq, Eq, Structural)]
pub struct MyGreeter;

impl MyGreeter {
    /// Builds the reply to `SayHello`. Pure: no shared state, cannot fail,
    /// and no input (the empty name included) is special-cased.
    pub fn say_hello(&self, name: &str) -> (r: String)
        ensures
            r@ == greeting_of(name@),
    {
        let mut s: String = String::from_str("Hello ");
        s.append(name);
        s.append("!");
        s
    }
}

impl Default for MyGreeter {
    fn default() -> (r: MyGreeter)
        ensures
            r == (MyGreeter {}),
    {
        MyGreeter {}
    }
}

/// What the health endpoint hands back: a status code and a plain-text body.
pub struct HealthResponse {
    pub status: u16,
    pub body: String,
}

/// The health check reply. It takes no handle to the database pool: health
/// reflects process liveness only, never backend readiness.
pub fn health_check() -> (r: HealthResponse)
    ensures
        r.status == 200,
        r.body@ == health_text(),
{
    HealthResponse { status: 200, body: String::from_str("API is up and running!") }
}

} // verus!
