use vstd::prelude::*;

verus! {

/// A body with no fields, for scenario steps that carry none.
#[derive(Debug, Clone, Copy, PartialEq, Eq, Structural)]
pub struct DummyType {}

/// Where a scenario step is sent: a socket endpoint or an HTTP base address.
#[derive(Debug, Clone, PartialEq, Eq)]
pub enum ServerAddress {
    WebSocket(String),
    RestApi(String),
}

} // verus!
