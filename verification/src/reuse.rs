//! Port reuse: a listener that shares its port and hands each accepted
//! connection to one of two targets by the connection's source address.

use vstd::prelude::*;
use vstd::string::*;

verus! {

/// Pending connections that the shared listener queues.
pub const LISTEN_BACKLOG: i32 = 128;

/// The configuration of the reuse role.
pub struct Reuse {
    pub local_addr: String,
    pub remote_addr: String,
    pub fallback_addr: Option<String>,
    pub external_ip: String,
    pub timeout: Option<u64>,
}

/// How the listening socket is set up before it is bound.
#[derive(Clone, Copy, Debug, PartialEq, Eq, Structural)]
pub struct ListenSetup {
    pub reuse_address: bool,
    pub reuse_port: bool,
    pub nonblocking: bool,
    pub backlog: i32,
}

/// Where an accepted connection goes.
#[derive(Debug, PartialEq, Eq)]
pub enum Route {
    /// To the primary target: the source is the external address.
    Primary(String),
    /// To the fallback target: the source is another address.
    Fallback(String),
    /// Nowhere: the source is another address and no fallback is configured.
    Drop,
}

/// The mathematical value of a `Route`.
pub ghost enum RouteView {
    Primary(Seq<char>),
    Fallback(Seq<char>),
    Drop,
}

impl View for Route {
    type V = RouteView;

    open spec fn view(&self) -> RouteView {
        match *self {
            Route::Primary(target) => RouteView::Primary(target@),
            Route::Fallback(target) => RouteView::Fallback(target@),
            Route::Drop => RouteView::Drop,
        }
    }
}

impl Reuse {
    /// A configuration that holds the given values as they are.
    pub fn new(
        local_addr: String,
        remote_addr: String,
        fallback_addr: Option<String>,
        external_ip: String,
        timeout: Option<u64>,
    ) -> (reuse: Self)
        ensures
            reuse.local_addr == local_addr,
            reuse.remote_addr == remote_addr,
            reuse.fallback_addr == fallback_addr,
            reuse.external_ip == external_ip,
            reuse.timeout == timeout,
    {
        Reuse { local_addr, remote_addr, fallback_addr, external_ip, timeout }
    }

    /// The route of a connection from `source_ip`: the primary target where
    /// the source is the external address, else the fallback target if there
    /// is one.
    pub open spec fn route_of(&self, source_ip: Seq<char>) -> RouteView {
        if source_ip == self.external_ip@ {
            RouteView::Primary(self.remote_addr@)
        } else {
            match self.fallback_addr {
                Some(fallback) => RouteView::Fallback(fallback@),
                None => RouteView::Drop,
            }
        }
    }

    /// Classifies an accepted connection by the text of its source address.
    pub fn route(&self, source_ip: &str) -> (route: Route)
        ensures
            route@ == self.route_of(source_ip@),
    {
        let source = String::from_str(source_ip);
        if source == self.external_ip {
            Route::Primary(self.remote_addr.clone())
        } else {
            match &self.fallback_addr {
                Some(fallback) => Route::Fallback(fallback.clone()),
                None => Route::Drop,
            }
        }
    }

    /// The socket options and backlog of the shared listener: address and
    /// port reuse, non-blocking, a backlog of 128.
    pub fn listen_setup() -> (setup: ListenSetup)
        ensures
            setup == (ListenSetup {
                reuse_address: true,
                reuse_port: true,
                nonblocking: true,
                backlog: LISTEN_BACKLOG,
            }),
    {
        ListenSetup { reuse_address: true, reuse_port: true, nonblocking: true, backlog: LISTEN_BACKLOG }
    }

    /// The number of seconds after which no new connection is accepted, if
    /// the operator set one. Pipes that are open by then run on.
    pub fn accept_deadline(&self) -> (seconds: Option<u64>)
        ensures
            seconds == self.timeout,
    {
        self.timeout
    }
}

/// A connection from the external address goes to the primary target; one
/// from any other address goes to the fallback target where one is set, and
/// is dropped where none is.
pub proof fn lemma_reuse_classification(reuse: Reuse, source_ip: Seq<char>)
    ensures
        source_ip == reuse.external_ip@ ==> reuse.route_of(source_ip) == RouteView::Primary(
            reuse.remote_addr@,
        ),
        source_ip != reuse.external_ip@ && reuse.fallback_addr is Some ==> reuse.route_of(source_ip)
            == RouteView::Fallback(reuse.fallback_addr->Some_0@),
        source_ip != reuse.external_ip@ && reuse.fallback_addr is None ==> reuse.route_of(source_ip)
            == RouteView::Drop,
{
}

} // verus!
