//! Host-based routing and redirect decisions for the BetterGovPH
//! data-visualization sites.
//!
//! Each page handler of the surrounding web server hands the library the
//! plain parts of a request (host header, path, query string) and gets back
//! a `RoutingDecision`: either a permanent redirect away from the legacy
//! production host, or the name of the template to render together with the
//! brand metadata to render it with.

pub mod context;
pub mod laws;
pub mod pages;
pub mod routing;
pub mod strutil;
pub mod utils;
pub mod visualizations;
