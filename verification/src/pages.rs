//! The BetterGovPH co-branded page handlers: for each route, the routing
//! decision — mobile-domain check, legacy-production-domain block, template
//! variant selection — and the brand metadata handed to the renderer.
//!
//! Each handler is a pure function of the request's host header, path and
//! query string; the surrounding server extracts those, calls the handler,
//! and renders or redirects as the decision says.

use vstd::prelude::*;
use crate::context::BrandContext;
use crate::routing::{
    check_mobile_redirect_enhanced, check_production_domain_block, opt_view, page_decision,
    select_template, RoutingDecision,
};

verus! {

/// The environment-derived defaults every page starts from.
pub open spec fn frontend_env(m: Map<Seq<char>, Seq<char>>) -> Map<Seq<char>, Seq<char>> {
    m.insert("SITE_URL"@, "https://altgovph.site"@).insert("SITE_NAME"@, "BetterGovPH"@)
}

/// Add the frontend environment defaults for the co-branded pages.
pub fn add_frontend_env_to_context(context: &mut BrandContext)
    ensures
        final(context)@ == frontend_env(old(context)@),
{
    context.insert("SITE_URL", "https://altgovph.site");
    context.insert("SITE_NAME", "BetterGovPH");
}

/// The brand metadata of the home page.
pub open spec fn home_context() -> Map<Seq<char>, Seq<char>> {
    frontend_env(Map::empty()).insert("title"@, "BetterGovPH"@).insert(
        "company_name"@,
        "BetterGovPH"@,
    ).insert("platform"@, "BetterGovPH"@).insert("SITE_NAME"@, "BetterGovPH"@).insert(
        "SITE_URL"@,
        "https://altgovph.site"@,
    ).insert("og_title"@, "BetterGovPH"@).insert(
        "og_description"@,
        "Promoting Data Transparency and Open Government in the Philippines"@,
    ).insert("og_url"@, "https://altgovph.site/"@).insert(
        "og_image"@,
        "/static/images/gov_logo.png"@,
    )
}

/// The home page, served on the `/alt` route of the allow-list, so it is
/// subject to the legacy-domain block like the data pages.
pub fn altgovph_home(host: Option<&str>, path: &str, query: Option<&str>) -> (d: RoutingDecision)
    ensures
        d@ == page_decision(
            opt_view(host),
            path@,
            opt_view(query),
            "altgovph_home.html"@,
            home_context(),
            true,
            true,
        ),
{
    if let Some(redirect) = check_mobile_redirect_enhanced(host) {
        return redirect;
    }
    if let Some(block_response) = check_production_domain_block(host, path, query) {
        return block_response;
    }
    let mut context = BrandContext::new();
    add_frontend_env_to_context(&mut context);
    context.insert("title", "BetterGovPH");
    context.insert("company_name", "BetterGovPH");
    context.insert("platform", "BetterGovPH");
    context.insert("SITE_NAME", "BetterGovPH");
    context.insert("SITE_URL", "https://altgovph.site");
    context.insert("og_title", "BetterGovPH");
    context.insert(
        "og_description",
        "Promoting Data Transparency and Open Government in the Philippines",
    );
    context.insert("og_url", "https://altgovph.site/");
    context.insert("og_image", "/static/images/gov_logo.png");
    let template_name = select_template(host, "altgovph_home.html");
    RoutingDecision::Render { template_name, context }
}

/// The brand metadata of the budget analysis page.
pub open spec fn budget_context() -> Map<Seq<char>, Seq<char>> {
    frontend_env(Map::empty()).insert("title"@, "Budget Analysis - BetterGovPH"@).insert(
        "company_name"@,
        "BetterGovPH"@,
    ).insert("platform"@, "BetterGovPH"@).insert("SITE_NAME"@, "BetterGovPH"@).insert(
        "SITE_URL"@,
        "https://altgovph.site"@,
    ).insert("og_title"@, "Budget Analysis - BetterGovPH"@).insert(
        "og_description"@,
        "Government Data Analysis Platform for Budget and Flood Control Projects"@,
    ).insert("og_url"@, "https://altgovph.site/"@).insert(
        "og_image"@,
        "/static/images/gov_logo.png"@,
    )
}

/// The budget analysis page, subject to the legacy-domain block.
pub fn budget(host: Option<&str>, path: &str, query: Option<&str>) -> (d: RoutingDecision)
    ensures
        d@ == page_decision(
            opt_view(host),
            path@,
            opt_view(query),
            "budget.html"@,
            budget_context(),
            true,
            true,
        ),
{
    if let Some(redirect) = check_mobile_redirect_enhanced(host) {
        return redirect;
    }
    if let Some(block_response) = check_production_domain_block(host, path, query) {
        return block_response;
    }
    let mut context = BrandContext::new();
    add_frontend_env_to_context(&mut context);
    context.insert("title", "Budget Analysis - BetterGovPH");
    context.insert("company_name", "BetterGovPH");
    context.insert("platform", "BetterGovPH");
    context.insert("SITE_NAME", "BetterGovPH");
    context.insert("SITE_URL", "https://altgovph.site");
    context.insert("og_title", "Budget Analysis - BetterGovPH");
    context.insert(
        "og_description",
        "Government Data Analysis Platform for Budget and Flood Control Projects",
    );
    context.insert("og_url", "https://altgovph.site/");
    context.insert("og_image", "/static/images/gov_logo.png");
    let template_name = select_template(host, "budget.html");
    RoutingDecision::Render { template_name, context }
}

/// The brand metadata of the flood-control projects page.
pub open spec fn flood_context() -> Map<Seq<char>, Seq<char>> {
    frontend_env(Map::empty()).insert("title"@, "Flood Control Projects - BetterGovPH"@).insert(
        "company_name"@,
        "BetterGovPH"@,
    ).insert("platform"@, "BetterGovPH"@).insert("SITE_NAME"@, "BetterGovPH"@).insert(
        "SITE_URL"@,
        "https://altgovph.site"@,
    ).insert("og_title"@, "Flood Control Projects - BetterGovPH"@).insert(
        "og_description"@,
        "Government Data Analysis Platform for Flood Control Infrastructure Projects"@,
    ).insert("og_url"@, "https://altgovph.site/"@).insert(
        "og_image"@,
        "/static/images/gov_logo.png"@,
    )
}

/// The flood-control projects page, subject to the legacy-domain block.
pub fn flood(host: Option<&str>, path: &str, query: Option<&str>) -> (d: RoutingDecision)
    ensures
        d@ == page_decision(
            opt_view(host),
            path@,
            opt_view(query),
            "flood.html"@,
            flood_context(),
            true,
            true,
        ),
{
    if let Some(redirect) = check_mobile_redirect_enhanced(host) {
        return redirect;
    }
    if let Some(block_response) = check_production_domain_block(host, path, query) {
        return block_response;
    }
    let mut context = BrandContext::new();
    add_frontend_env_to_context(&mut context);
    context.insert("title", "Flood Control Projects - BetterGovPH");
    context.insert("company_name", "BetterGovPH");
    context.insert("platform", "BetterGovPH");
    context.insert("SITE_NAME", "BetterGovPH");
    context.insert("SITE_URL", "https://altgovph.site");
    context.insert("og_title", "Flood Control Projects - BetterGovPH");
    context.insert(
        "og_description",
        "Government Data Analysis Platform for Flood Control Infrastructure Projects",
    );
    context.insert("og_url", "https://altgovph.site/");
    context.insert("og_image", "/static/images/gov_logo.png");
    let template_name = select_template(host, "flood.html");
    RoutingDecision::Render { template_name, context }
}

/// The brand metadata of the infrastructure-projects page.
pub open spec fn dime_context() -> Map<Seq<char>, Seq<char>> {
    frontend_env(Map::empty()).insert("title"@, "DIME Infrastructure Projects - BetterGovPH"@)
        .insert("company_name"@, "BetterGovPH"@).insert("platform"@, "BetterGovPH"@).insert(
        "SITE_NAME"@,
        "BetterGovPH"@,
    ).insert("SITE_URL"@, "https://altgovph.site"@).insert(
        "og_title"@,
        "DIME Infrastructure Projects - BetterGovPH"@,
    ).insert(
        "og_description"@,
        "Department of Infrastructure and Mega-Projects Execution - Infrastructure Projects Tracker"@,
    ).insert("og_url"@, "https://altgovph.site/"@).insert(
        "og_image"@,
        "/static/images/gov_logo.png"@,
    )
}

/// The infrastructure-projects page, subject to the legacy-domain block.
pub fn dime(host: Option<&str>, path: &str, query: Option<&str>) -> (d: RoutingDecision)
    ensures
        d@ == page_decision(
            opt_view(host),
            path@,
            opt_view(query),
            "dime.html"@,
            dime_context(),
            true,
            true,
        ),
{
    if let Some(redirect) = check_mobile_redirect_enhanced(host) {
        return redirect;
    }
    if let Some(block_response) = check_production_domain_block(host, path, query) {
        return block_response;
    }
    let mut context = BrandContext::new();
    add_frontend_env_to_context(&mut context);
    context.insert("title", "DIME Infrastructure Projects - BetterGovPH");
    context.insert("company_name", "BetterGovPH");
    context.insert("platform", "BetterGovPH");
    context.insert("SITE_NAME", "BetterGovPH");
    context.insert("SITE_URL", "https://altgovph.site");
    context.insert("og_title", "DIME Infrastructure Projects - BetterGovPH");
    context.insert(
        "og_description",
        "Department of Infrastructure and Mega-Projects Execution - Infrastructure Projects Tracker",
    );
    context.insert("og_url", "https://altgovph.site/");
    context.insert("og_image", "/static/images/gov_logo.png");
    let template_name = select_template(host, "dime.html");
    RoutingDecision::Render { template_name, context }
}

/// The brand metadata of the national-expenditure-program page.
pub open spec fn nep_context() -> Map<Seq<char>, Seq<char>> {
    frontend_env(Map::empty()).insert("title"@, "NEP Analysis - BetterGovPH"@).insert(
        "company_name"@,
        "BetterGovPH"@,
    ).insert("platform"@, "BetterGovPH"@).insert("SITE_NAME"@, "BetterGovPH"@).insert(
        "SITE_URL"@,
        "https://altgovph.site"@,
    ).insert("og_title"@, "NEP Analysis - BetterGovPH"@).insert(
        "og_description"@,
        "Government Data Analysis Platform for National Expenditure Program Projects"@,
    ).insert("og_url"@, "https://altgovph.site/nep"@).insert(
        "og_image"@,
        "/static/images/gov_logo.png"@,
    )
}

/// The national-expenditure-program page. It runs the legacy-domain block
/// too, though its own path is not on the allow-list, so on that path the
/// block never fires.
pub fn nep(host: Option<&str>, path: &str, query: Option<&str>) -> (d: RoutingDecision)
    ensures
        d@ == page_decision(
            opt_view(host),
            path@,
            opt_view(query),
            "nep.html"@,
            nep_context(),
            true,
            true,
        ),
{
    if let Some(redirect) = check_mobile_redirect_enhanced(host) {
        return redirect;
    }
    if let Some(block_response) = check_production_domain_block(host, path, query) {
        return block_response;
    }
    let mut context = BrandContext::new();
    add_frontend_env_to_context(&mut context);
    context.insert("title", "NEP Analysis - BetterGovPH");
    context.insert("company_name", "BetterGovPH");
    context.insert("platform", "BetterGovPH");
    context.insert("SITE_NAME", "BetterGovPH");
    context.insert("SITE_URL", "https://altgovph.site");
    context.insert("og_title", "NEP Analysis - BetterGovPH");
    context.insert(
        "og_description",
        "Government Data Analysis Platform for National Expenditure Program Projects",
    );
    context.insert("og_url", "https://altgovph.site/nep");
    context.insert("og_image", "/static/images/gov_logo.png");
    let template_name = select_template(host, "nep.html");
    RoutingDecision::Render { template_name, context }
}

/// The brand metadata of the budget/NEP correlation dashboard.
pub open spec fn budget_nep_correlation_context() -> Map<Seq<char>, Seq<char>> {
    frontend_env(Map::empty()).insert(
        "title"@,
        "NEP-Budget Correlation Analysis - BetterGovPH"@,
    ).insert("company_name"@, "BetterGovPH"@).insert("platform"@, "BetterGovPH"@).insert(
        "SITE_NAME"@,
        "BetterGovPH"@,
    ).insert("SITE_URL"@, "https://altgovph.site"@).insert(
        "og_url"@,
        "https://altgovph.site/budget-nep-correlation"@,
    ).insert("og_image"@, "/static/images/gov_logo.png"@)
}

/// The budget/NEP correlation dashboard, subject to the legacy-domain block.
pub fn budget_nep_correlation(
    host: Option<&str>,
    path: &str,
    query: Option<&str>,
) -> (d: RoutingDecision)
    ensures
        d@ == page_decision(
            opt_view(host),
            path@,
            opt_view(query),
            "budget_nep_correlation.html"@,
            budget_nep_correlation_context(),
            true,
            true,
        ),
{
    if let Some(redirect) = check_mobile_redirect_enhanced(host) {
        return redirect;
    }
    if let Some(block_response) = check_production_domain_block(host, path, query) {
        return block_response;
    }
    let mut context = BrandContext::new();
    add_frontend_env_to_context(&mut context);
    context.insert("title", "NEP-Budget Correlation Analysis - BetterGovPH");
    context.insert("company_name", "BetterGovPH");
    context.insert("platform", "BetterGovPH");
    context.insert("SITE_NAME", "BetterGovPH");
    context.insert("SITE_URL", "https://altgovph.site");
    context.insert("og_url", "https://altgovph.site/budget-nep-correlation");
    context.insert("og_image", "/static/images/gov_logo.png");
    let template_name = select_template(host, "budget_nep_correlation.html");
    RoutingDecision::Render { template_name, context }
}

/// The brand metadata of the budget/flood correlation dashboard. This page
/// sets no `title` of its own.
pub open spec fn budget_flood_correlation_context() -> Map<Seq<char>, Seq<char>> {
    frontend_env(Map::empty()).insert("company_name"@, "BetterGovPH"@).insert(
        "platform"@,
        "BetterGovPH"@,
    ).insert("SITE_NAME"@, "BetterGovPH"@).insert("SITE_URL"@, "https://altgovph.site"@).insert(
        "og_url"@,
        "https://altgovph.site/budget-flood-correlation"@,
    ).insert("og_image"@, "/static/images/gov_logo.png"@)
}

/// The budget/flood correlation dashboard, subject to the legacy-domain
/// block and to mobile template selection.
pub fn budget_flood_correlation(
    host: Option<&str>,
    path: &str,
    query: Option<&str>,
) -> (d: RoutingDecision)
    ensures
        d@ == page_decision(
            opt_view(host),
            path@,
            opt_view(query),
            "budget_flood_correlation.html"@,
            budget_flood_correlation_context(),
            true,
            true,
        ),
{
    if let Some(redirect) = check_mobile_redirect_enhanced(host) {
        return redirect;
    }
    if let Some(block_response) = check_production_domain_block(host, path, query) {
        return block_response;
    }
    let mut context = BrandContext::new();
    add_frontend_env_to_context(&mut context);
    context.insert("company_name", "BetterGovPH");
    context.insert("platform", "BetterGovPH");
    context.insert("SITE_NAME", "BetterGovPH");
    context.insert("SITE_URL", "https://altgovph.site");
    context.insert("og_url", "https://altgovph.site/budget-flood-correlation");
    context.insert("og_image", "/static/images/gov_logo.png");
    let template_name = select_template(host, "budget_flood_correlation.html");
    RoutingDecision::Render { template_name, context }
}

/// The brand metadata of the flood/infrastructure correlation dashboard.
pub open spec fn flood_dime_correlation_context() -> Map<Seq<char>, Seq<char>> {
    frontend_env(Map::empty()).insert(
        "title"@,
        "Flood-DIME Correlation Analysis - BetterGovPH"@,
    ).insert("company_name"@, "BetterGovPH"@).insert("platform"@, "BetterGovPH"@).insert(
        "SITE_NAME"@,
        "BetterGovPH"@,
    ).insert("SITE_URL"@, "https://altgovph.site"@).insert(
        "og_url"@,
        "https://altgovph.site/flood-dime-correlation"@,
    ).insert("og_image"@, "/static/images/gov_logo.png"@)
}

/// The flood/infrastructure correlation dashboard, subject to the
/// legacy-domain block and to mobile template selection.
pub fn flood_dime_correlation(
    host: Option<&str>,
    path: &str,
    query: Option<&str>,
) -> (d: RoutingDecision)
    ensures
        d@ == page_decision(
            opt_view(host),
            path@,
            opt_view(query),
            "flood_dime_correlation.html"@,
            flood_dime_correlation_context(),
            true,
            true,
        ),
{
    if let Some(redirect) = check_mobile_redirect_enhanced(host) {
        return redirect;
    }
    if let Some(block_response) = check_production_domain_block(host, path, query) {
        return block_response;
    }
    let mut context = BrandContext::new();
    add_frontend_env_to_context(&mut context);
    context.insert("title", "Flood-DIME Correlation Analysis - BetterGovPH");
    context.insert("company_name", "BetterGovPH");
    context.insert("platform", "BetterGovPH");
    context.insert("SITE_NAME", "BetterGovPH");
    context.insert("SITE_URL", "https://altgovph.site");
    context.insert("og_url", "https://altgovph.site/flood-dime-correlation");
    context.insert("og_image", "/static/images/gov_logo.png");
    let template_name = select_template(host, "flood_dime_correlation.html");
    RoutingDecision::Render { template_name, context }
}

} // verus!
