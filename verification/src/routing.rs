//! The router/redirector: per request, decide whether to short-circuit with
//! a permanent redirect off the legacy production host, and otherwise which
//! template variant (desktop or mobile) to render.
//!
//! Everything here is a pure function of the plain request parts — host
//! header value (absent or unreadable headers arrive as `None`), path and
//! query string — so the surrounding server can call it per request with no
//! shared state.

use vstd::prelude::*;
use vstd::string::{StrSliceExecFns, StringExecFns};
use crate::context::BrandContext;
use crate::strutil::{contains_seq, str_contains, str_eq};

verus! {

/// Marker of the first mobile domain.
pub open spec fn mobile_marker_short() -> Seq<char> {
    "m.kenchlightyear.com"@
}

/// Marker of the second mobile domain.
pub open spec fn mobile_marker_long() -> Seq<char> {
    "mobile.kenchlightyear.com"@
}

/// The legacy production host being phased out.
pub open spec fn legacy_host() -> Seq<char> {
    "kenchlightyear.com"@
}

/// The legacy production host with its `www.` prefix.
pub open spec fn legacy_host_www() -> Seq<char> {
    "www.kenchlightyear.com"@
}

/// The canonical modern origin that legacy routes are forwarded to.
pub open spec fn canonical_origin() -> Seq<char> {
    "https://altgovph.site"@
}

/// The view of an optional host header (or query string).
pub open spec fn opt_view(s: Option<&str>) -> Option<Seq<char>> {
    match s {
        Some(v) => Some(v@),
        None => None,
    }
}

/// The host carries one of the mobile-subdomain markers.
pub open spec fn host_is_mobile(host: Option<Seq<char>>) -> bool {
    match host {
        Some(h) => contains_seq(h, mobile_marker_short()) || contains_seq(
            h,
            mobile_marker_long(),
        ),
        None => false,
    }
}

/// The host is exactly the legacy production host, bare or `www.`-prefixed.
pub open spec fn host_is_legacy(host: Option<Seq<char>>) -> bool {
    match host {
        Some(h) => h == legacy_host() || h == legacy_host_www(),
        None => false,
    }
}

/// The path belongs to the fixed allow-list of forwarded legacy routes.
pub open spec fn path_is_legacy(path: Seq<char>) -> bool {
    ||| path == "/budget"@
    ||| path == "/flood"@
    ||| path == "/alt"@
    ||| path == "/dime"@
    ||| path == "/budget-flood-correlation"@
    ||| path == "/flood-dime-correlation"@
}

/// The request is blocked on the legacy host and must be redirected.
pub open spec fn blocks_request(host: Option<Seq<char>>, path: Seq<char>) -> bool {
    host_is_legacy(host) && path_is_legacy(path)
}

/// What a query string contributes to a redirect target: `?` plus the query
/// verbatim, or nothing at all when the request carried none.
pub open spec fn query_suffix(query: Option<Seq<char>>) -> Seq<char> {
    match query {
        Some(q) => "?"@ + q,
        None => Seq::<char>::empty(),
    }
}

/// The redirect target: canonical origin, same path, query preserved.
pub open spec fn redirect_target(path: Seq<char>, query: Option<Seq<char>>) -> Seq<char> {
    canonical_origin() + path + query_suffix(query)
}

/// The template variant to render: the `mobile/`-prefixed one exactly when
/// the host carries a mobile marker.
pub open spec fn template_variant(mobile: bool, base: Seq<char>) -> Seq<char> {
    if mobile {
        "mobile/"@ + base
    } else {
        base
    }
}

/// The HTTP status of a permanent redirect.
pub const PERMANENT_REDIRECT: u16 = 308;

/// What a handler decides for one request: redirect, or render a template
/// with a brand context. Exactly one is produced per request.
#[derive(Debug, Clone, PartialEq, Eq)]
pub enum RoutingDecision {
    Redirect { location: String, status: u16 },
    Render { template_name: String, context: BrandContext },
}

/// The mathematical shape of a `RoutingDecision`.
pub enum DecisionModel {
    Redirect { location: Seq<char>, status: int },
    Render { template_name: Seq<char>, context: Map<Seq<char>, Seq<char>> },
}

impl View for RoutingDecision {
    type V = DecisionModel;

    open spec fn view(&self) -> DecisionModel {
        match self {
            RoutingDecision::Redirect { location, status } => DecisionModel::Redirect {
                location: location@,
                status: *status as int,
            },
            RoutingDecision::Render { template_name, context } => DecisionModel::Render {
                template_name: template_name@,
                context: context@,
            },
        }
    }
}

/// What one page handler decides, given its fixed template base name and
/// brand context. Handlers without the legacy-domain block pass
/// `block_legacy == false`; handlers with a fixed desktop-only template pass
/// `select_mobile == false`.
pub open spec fn page_decision(
    host: Option<Seq<char>>,
    path: Seq<char>,
    query: Option<Seq<char>>,
    base: Seq<char>,
    ctx: Map<Seq<char>, Seq<char>>,
    block_legacy: bool,
    select_mobile: bool,
) -> DecisionModel {
    if block_legacy && blocks_request(host, path) {
        DecisionModel::Redirect { location: redirect_target(path, query), status: 308 }
    } else {
        DecisionModel::Render {
            template_name: template_variant(select_mobile && host_is_mobile(host), base),
            context: ctx,
        }
    }
}

/// Is the request already on the mobile domain, so that the mobile template
/// variant should be rendered?
pub fn should_use_mobile_template(host: Option<&str>) -> (r: bool)
    ensures
        r == host_is_mobile(opt_view(host)),
{
    match host {
        Some(h) => str_contains(h, "m.kenchlightyear.com") || str_contains(
            h,
            "mobile.kenchlightyear.com",
        ),
        None => false,
    }
}

/// The mobile-domain redirect check. A request already on the mobile domain
/// needs no action, and every other request needs none either, so this
/// never produces a redirect; it is kept decoupled from the mobile-template
/// selection, which re-inspects the host on its own.
pub fn check_mobile_redirect_enhanced(host: Option<&str>) -> (r: Option<RoutingDecision>)
    ensures
        r is None,
{
    match host {
        Some(h) => {
            if str_contains(h, "m.kenchlightyear.com") || str_contains(
                h,
                "mobile.kenchlightyear.com",
            ) {
                // Already on the mobile domain.
                None
            } else {
                None
            }
        },
        None => None,
    }
}

/// The production-domain block: on the legacy host, a path of the fixed
/// allow-list is answered with a permanent redirect to the canonical origin,
/// same path, query string appended verbatim; every other request passes.
pub fn check_production_domain_block(
    host: Option<&str>,
    path: &str,
    query: Option<&str>,
) -> (r: Option<RoutingDecision>)
    ensures
        match r {
            Some(d) => blocks_request(opt_view(host), path@) && d@ == (DecisionModel::Redirect {
                location: redirect_target(path@, opt_view(query)),
                status: 308,
            }),
            None => !blocks_request(opt_view(host), path@),
        },
{
    if let Some(h) = host {
        if str_eq(h, "kenchlightyear.com") || str_eq(h, "www.kenchlightyear.com") {
            let on_allow_list = str_eq(path, "/budget") || str_eq(path, "/flood") || str_eq(
                path,
                "/alt",
            ) || str_eq(path, "/dime") || str_eq(path, "/budget-flood-correlation") || str_eq(
                path,
                "/flood-dime-correlation",
            );
            if on_allow_list {
                let mut location = String::from_str("https://altgovph.site");
                location.append(path);
                if let Some(q) = query {
                    location.append("?");
                    location.append(q);
                }
                proof {
                    assert(location@ =~= redirect_target(path@, opt_view(query)));
                }
                return Some(
                    RoutingDecision::Redirect { location, status: PERMANENT_REDIRECT },
                );
            }
        }
    }
    None
}

/// The template name for a page: the base name, or its `mobile/` variant
/// when the host carries a mobile marker.
pub fn select_template(host: Option<&str>, base: &str) -> (t: String)
    ensures
        t@ == template_variant(host_is_mobile(opt_view(host)), base@),
{
    if should_use_mobile_template(host) {
        let mut t = String::from_str("mobile/");
        t.append(base);
        t
    } else {
        String::from_str(base)
    }
}

} // verus!
