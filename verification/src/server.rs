//! The outward-facing surface of the crawler program, as data.
//!
//! The surrounding program serves three routes — the index page, the crawl
//! trigger and the results accessor — and a static-file mount. Which routes
//! exist, with which methods, at which paths, is decided here; the serving
//! itself (sockets, handlers, files) belongs to the surrounding program.

use vstd::prelude::*;
use vstd::string::StringExecFns;

verus! {

/// An HTTP method of the surface.
pub enum Method {
    Get,
    Post,
}

/// One mount of the surface: a method and the path it answers on. A
/// `serves_files` mount hands out static files; the others reach the crawl
/// core.
pub struct Route {
    pub method: Method,
    pub path: String,
    pub serves_files: bool,
}

/// The routes the crawler program mounts: the index page at the root, the
/// crawl trigger, the results accessor, and the static-file mount — exactly
/// these four, in this order.
pub fn rocket() -> (r: Vec<Route>)
    ensures
        r@.len() == 4,
        r@[0].method is Get && r@[0].path@ == "/"@ && !r@[0].serves_files,
        r@[1].method is Post && r@[1].path@ == "/start_crawl"@ && !r@[1].serves_files,
        r@[2].method is Get && r@[2].path@ == "/results"@ && !r@[2].serves_files,
        r@[3].method is Get && r@[3].path@ == "/static"@ && r@[3].serves_files,
{
    let mut routes: Vec<Route> = Vec::new();
    routes.push(Route { method: Method::Get, path: String::from_str("/"), serves_files: false });
    routes.push(
        Route { method: Method::Post, path: String::from_str("/start_crawl"), serves_files: false },
    );
    routes.push(
        Route { method: Method::Get, path: String::from_str("/results"), serves_files: false },
    );
    routes.push(
        Route { method: Method::Get, path: String::from_str("/static"), serves_files: true },
    );
    routes
}

} // verus!
