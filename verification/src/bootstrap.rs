//! What the server is started with: its one route, its bind address and its
//! worker count.

use crate::workers::{resolve_workers, resolved_workers};
use vstd::prelude::*;

verus! {

/// The settings of a server about to start.
#[derive(Debug, PartialEq, Eq)]
pub struct Bootstrap {
    /// How many workers serve connections.
    pub workers: usize,
    /// The address and port that the listener binds.
    pub bind_address: String,
    /// The method of the one route, which answers with the greeting.
    pub route_method: String,
    /// The path of the one route.
    pub route_path: String,
}

/// Server settings as a mathematical value.
pub struct BootstrapView {
    pub workers: usize,
    pub bind_address: Seq<char>,
    pub route_method: Seq<char>,
    pub route_path: Seq<char>,
}

impl View for Bootstrap {
    type V = BootstrapView;

    open spec fn view(&self) -> BootstrapView {
        BootstrapView {
            workers: self.workers,
            bind_address: self.bind_address@,
            route_method: self.route_method@,
            route_path: self.route_path@,
        }
    }
}

/// The settings that a configured worker count leads to. Only the worker
/// count depends on the configuration: the server always listens on port
/// 8000 of every interface and serves `GET` on the root path.
pub open spec fn bootstrap_plan(configured: Option<Seq<char>>) -> BootstrapView {
    BootstrapView {
        workers: resolved_workers(configured),
        bind_address: "0.0.0.0:8000"@,
        route_method: "GET"@,
        route_path: "/"@,
    }
}

/// Works out the settings of the server from the configured worker count, if
/// there is one.
pub fn bootstrap(configured: Option<&str>) -> (plan: Bootstrap)
    ensures
        plan@ == bootstrap_plan(configured.deep_view()),
{
    Bootstrap {
        workers: resolve_workers(configured),
        bind_address: "0.0.0.0:8000".to_owned(),
        route_method: "GET".to_owned(),
        route_path: "/".to_owned(),
    }
}

} // verus!
