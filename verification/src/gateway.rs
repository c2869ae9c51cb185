//! The routing table of the listener: which component answers a request.

use vstd::prelude::*;
use crate::text::{same_text, starts_with};

verus! {

/// The path of the command execution endpoint.
pub const EXEC_PATH: &'static str = "/exec";

/// The method that the command execution endpoint answers to.
pub const EXEC_METHOD: &'static str = "GET";

/// The prefix of the proxied API paths.
pub const API_PREFIX: &'static str = "/api/";

/// The prefix of the proxied version-prefixed paths.
pub const VERSION_PREFIX: &'static str = "/v1/";

/// The component that answers a request.
#[derive(Structural, PartialEq, Eq, Clone, Copy, Debug)]
pub enum Route {
    /// The command sandbox: the request opens a command stream.
    Exec,
    /// The reverse proxy: the request is forwarded upstream.
    Proxy,
    /// The fallback: the request is answered from the bundled front-end.
    Assets,
}

/// Whether `path` lies below `prefix`: it begins with it and goes on.
pub open spec fn is_under(path: Seq<char>, prefix: Seq<char>) -> bool {
    prefix.is_prefix_of(path) && path.len() > prefix.len()
}

/// The component that answers a request with `method` for `path`.
///
/// The execution endpoint answers to its one path and method. Every path
/// below one of the two proxied prefixes is forwarded, whatever the method.
/// The fallback takes the rest.
pub open spec fn route_spec(method: Seq<char>, path: Seq<char>) -> Route {
    if path == EXEC_PATH@ && method == EXEC_METHOD@ {
        Route::Exec
    } else if is_under(path, API_PREFIX@) || is_under(path, VERSION_PREFIX@) {
        Route::Proxy
    } else {
        Route::Assets
    }
}

/// Decides whether `path` lies below `prefix`.
fn lies_under(path: &str, prefix: &str) -> (r: bool)
    ensures
        r == is_under(path@, prefix@),
{
    proof {
        if prefix@.is_prefix_of(path@) && path@.len() == prefix@.len() {
            assert(path@ =~= path@.subrange(0, prefix@.len() as int));
        }
    }
    starts_with(path, prefix) && !same_text(path, prefix)
}

/// Picks the component that answers a request with `method` for `path`.
pub fn route(method: &str, path: &str) -> (chosen: Route)
    ensures
        chosen == route_spec(method@, path@),
{
    if same_text(path, EXEC_PATH) && same_text(method, EXEC_METHOD) {
        Route::Exec
    } else if lies_under(path, API_PREFIX) || lies_under(path, VERSION_PREFIX) {
        Route::Proxy
    } else {
        Route::Assets
    }
}

} // verus!
