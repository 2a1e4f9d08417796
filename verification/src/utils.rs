//! Frontend environment defaults shared with the surrounding server.
//!
//! The third-party client identifiers come from the process environment;
//! the server reads them and hands the plain values in, with the empty
//! string standing for an unset variable.

use vstd::prelude::*;
use crate::context::BrandContext;

verus! {

/// The site-identity map the frontend is given: fixed defaults plus the
/// environment-sourced client identifiers.
pub open spec fn frontend_env_map(
    google_client_id: Seq<char>,
    facebook_app_id: Seq<char>,
) -> Map<Seq<char>, Seq<char>> {
    Map::empty().insert("SITE_NAME"@, "BetterGovPH Data Visualizations"@).insert(
        "SITE_URL"@,
        "https://altgovph.site"@,
    ).insert("GOOGLE_CLIENT_ID"@, google_client_id).insert("FACEBOOK_APP_ID"@, facebook_app_id)
}

/// Build the frontend environment map from the given client identifiers.
pub fn load_frontend_env(google_client_id: &str, facebook_app_id: &str) -> (c: BrandContext)
    ensures
        c@ == frontend_env_map(google_client_id@, facebook_app_id@),
{
    let mut c = BrandContext::new();
    c.insert("SITE_NAME", "BetterGovPH Data Visualizations");
    c.insert("SITE_URL", "https://altgovph.site");
    c.insert("GOOGLE_CLIENT_ID", google_client_id);
    c.insert("FACEBOOK_APP_ID", facebook_app_id);
    c
}

/// Add the frontend environment entries to an existing context.
pub fn add_frontend_env_to_context(
    context: &mut BrandContext,
    google_client_id: &str,
    facebook_app_id: &str,
)
    ensures
        final(context)@ == old(context)@.insert(
            "SITE_NAME"@,
            "BetterGovPH Data Visualizations"@,
        ).insert("SITE_URL"@, "https://altgovph.site"@).insert(
            "GOOGLE_CLIENT_ID"@,
            google_client_id@,
        ).insert("FACEBOOK_APP_ID"@, facebook_app_id@),
{
    context.insert("SITE_NAME", "BetterGovPH Data Visualizations");
    context.insert("SITE_URL", "https://altgovph.site");
    context.insert("GOOGLE_CLIENT_ID", google_client_id);
    context.insert("FACEBOOK_APP_ID", facebook_app_id);
}

} // verus!
