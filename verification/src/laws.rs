//! The router's laws, stated over the same spec functions that the page
//! handlers' contracts use, so each holds of every verified handler.

use vstd::prelude::*;
use crate::routing::{
    blocks_request, canonical_origin, host_is_legacy, host_is_mobile, page_decision,
    path_is_legacy, redirect_target, template_variant, DecisionModel,
};

verus! {

/// A host carrying a mobile-subdomain marker always gets the `mobile/`-
/// prefixed template variant.
pub proof fn lemma_mobile_host_selects_mobile_template(host: Option<Seq<char>>, base: Seq<char>)
    requires
        host_is_mobile(host),
    ensures
        template_variant(host_is_mobile(host), base) == "mobile/"@ + base,
{
}

/// On the legacy production host, every path of the allow-list is answered
/// with a permanent redirect to the canonical origin, same path, query
/// preserved, status 308.
pub proof fn lemma_legacy_request_redirects(
    host: Option<Seq<char>>,
    path: Seq<char>,
    query: Option<Seq<char>>,
    base: Seq<char>,
    ctx: Map<Seq<char>, Seq<char>>,
    select_mobile: bool,
)
    requires
        host_is_legacy(host),
        path_is_legacy(path),
    ensures
        page_decision(host, path, query, base, ctx, true, select_mobile)
            == (DecisionModel::Redirect {
            location: redirect_target(path, query),
            status: 308,
        }),
{
}

/// On the legacy production host, any path off the allow-list renders
/// normally: no blanket redirect.
pub proof fn lemma_legacy_host_other_path_renders(
    host: Option<Seq<char>>,
    path: Seq<char>,
    query: Option<Seq<char>>,
    base: Seq<char>,
    ctx: Map<Seq<char>, Seq<char>>,
    select_mobile: bool,
)
    requires
        host_is_legacy(host),
        !path_is_legacy(path),
    ensures
        page_decision(host, path, query, base, ctx, true, select_mobile) is Render,
{
}

/// A redirect target carries the query string verbatim after a `?`, and
/// carries nothing at all — no bare `?` — when the request had none.
pub proof fn lemma_redirect_preserves_query(path: Seq<char>, query: Option<Seq<char>>)
    ensures
        query matches Some(q) ==> redirect_target(path, query) == canonical_origin() + path
            + "?"@ + q,
        query is None ==> redirect_target(path, query) == canonical_origin() + path,
{
    match query {
        Some(q) => {
            assert(redirect_target(path, query) =~= canonical_origin() + path + "?"@ + q);
        },
        None => {
            assert(redirect_target(path, query) =~= canonical_origin() + path);
        },
    }
}

/// Classification is a pure function of the request: equal requests yield
/// identical decisions.
pub proof fn lemma_classification_is_pure(
    host1: Option<Seq<char>>,
    path1: Seq<char>,
    query1: Option<Seq<char>>,
    host2: Option<Seq<char>>,
    path2: Seq<char>,
    query2: Option<Seq<char>>,
    base: Seq<char>,
    ctx: Map<Seq<char>, Seq<char>>,
    block_legacy: bool,
    select_mobile: bool,
)
    requires
        host1 == host2,
        path1 == path2,
        query1 == query2,
    ensures
        page_decision(host1, path1, query1, base, ctx, block_legacy, select_mobile)
            == page_decision(host2, path2, query2, base, ctx, block_legacy, select_mobile),
{
}

/// A host other than the legacy production host never triggers a redirect,
/// whatever the path.
pub proof fn lemma_non_legacy_host_never_redirects(
    host: Option<Seq<char>>,
    path: Seq<char>,
    query: Option<Seq<char>>,
    base: Seq<char>,
    ctx: Map<Seq<char>, Seq<char>>,
    block_legacy: bool,
    select_mobile: bool,
)
    requires
        !host_is_legacy(host),
    ensures
        page_decision(host, path, query, base, ctx, block_legacy, select_mobile) is Render,
{
    assert(!blocks_request(host, path));
}

/// An absent (or unreadable) host header matches no host-based predicate:
/// the request falls through to normal desktop rendering, never a redirect.
pub proof fn lemma_absent_host_renders_desktop(
    path: Seq<char>,
    query: Option<Seq<char>>,
    base: Seq<char>,
    ctx: Map<Seq<char>, Seq<char>>,
    block_legacy: bool,
    select_mobile: bool,
)
    ensures
        page_decision(None, path, query, base, ctx, block_legacy, select_mobile)
            == (DecisionModel::Render { template_name: base, context: ctx }),
{
}

} // verus!
