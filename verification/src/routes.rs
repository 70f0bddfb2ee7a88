//! The route table: which request method and path reach which handler.

use crate::handlers::Handler;
use vstd::prelude::*;

verus! {

/// A request method of HTTP.
#[derive(Clone, Copy, Debug, PartialEq, Eq, Hash, Structural)]
pub enum Method {
    Get,
    Put,
    Post,
    Delete,
    Options,
    Head,
    Trace,
    Connect,
    Patch,
}

/// One entry of the route table: requests with this method and path go to
/// this handler.
#[derive(Clone, Copy, Debug, PartialEq, Eq)]
pub struct Route {
    pub method: Method,
    pub path: &'static str,
    pub handler: Handler,
}

/// A route as the contracts see it, with the path as a sequence of characters.
pub struct RouteView {
    pub method: Method,
    pub path: Seq<char>,
    pub handler: Handler,
}

impl View for Route {
    type V = RouteView;

    open spec fn view(&self) -> RouteView {
        RouteView { method: self.method, path: self.path@, handler: self.handler }
    }
}

/// The route table of the service, in the order in which it is mounted.
pub open spec fn route_table() -> Seq<RouteView> {
    seq![
        RouteView { method: Method::Get, path: "/"@, handler: Handler::Index },
        RouteView { method: Method::Get, path: "/world"@, handler: Handler::Hello },
    ]
}

/// No two entries of `table` have the same method and path.
pub open spec fn unambiguous(table: Seq<RouteView>) -> bool {
    forall|i: int, j: int|
        0 <= i < j < table.len() ==> !(table[i].method == table[j].method && table[i].path
            == table[j].path)
}

/// Builds the route table.
pub fn routes() -> (table: Vec<Route>)
    ensures
        table@.len() == route_table().len(),
        forall|i: int| 0 <= i < table@.len() ==> (#[trigger] table@[i])@ == route_table()[i],
{
    let mut table: Vec<Route> = Vec::new();
    table.push(Route { method: Method::Get, path: "/", handler: Handler::Index });
    table.push(Route { method: Method::Get, path: "/world", handler: Handler::Hello });
    table
}

/// The route table is a mapping: a method and path reach at most one handler.
pub proof fn lemma_route_table_unambiguous()
    ensures
        unambiguous(route_table()),
{
    reveal_strlit("/");
    reveal_strlit("/world");
    assert("/"@.len() != "/world"@.len());
}

} // verus!
