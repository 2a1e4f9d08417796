//! The standalone data-visualizations variant of the site: the same pages
//! under the "BetterGovPH Data Visualizations" brand, with the mobile and
//! legacy-domain checks disabled, so every handler plainly renders its own
//! desktop template with its own metadata.

use vstd::prelude::*;
use vstd::string::StringExecFns;
use crate::context::BrandContext;
use crate::routing::{DecisionModel, RoutingDecision};

verus! {

/// The environment-derived defaults of the standalone variant.
pub open spec fn frontend_env(m: Map<Seq<char>, Seq<char>>) -> Map<Seq<char>, Seq<char>> {
    m.insert("SITE_URL"@, "https://altgovph.site"@).insert(
        "SITE_NAME"@,
        "BetterGovPH Data Visualizations"@,
    )
}

/// Add the frontend environment defaults of the standalone variant.
pub fn add_frontend_env_to_context(context: &mut BrandContext)
    ensures
        final(context)@ == frontend_env(old(context)@),
{
    context.insert("SITE_URL", "https://altgovph.site");
    context.insert("SITE_NAME", "BetterGovPH Data Visualizations");
}

/// The metadata every standalone page carries: its title plus the fixed
/// brand identity.
pub open spec fn page_context(title: Seq<char>) -> Map<Seq<char>, Seq<char>> {
    frontend_env(Map::empty()).insert("title"@, title).insert("company_name"@, "BetterGovPH"@)
        .insert("platform"@, "BetterGovPH"@).insert(
        "SITE_NAME"@,
        "BetterGovPH Data Visualizations"@,
    ).insert("SITE_URL"@, "https://altgovph.site"@)
}

/// Build the standalone decision: always render `template` with the brand
/// metadata titled `title`.
fn render_page(title: &str, template: &str) -> (d: RoutingDecision)
    ensures
        d@ == (DecisionModel::Render {
            template_name: template@,
            context: page_context(title@),
        }),
{
    let mut context = BrandContext::new();
    add_frontend_env_to_context(&mut context);
    context.insert("title", title);
    context.insert("company_name", "BetterGovPH");
    context.insert("platform", "BetterGovPH");
    context.insert("SITE_NAME", "BetterGovPH Data Visualizations");
    context.insert("SITE_URL", "https://altgovph.site");
    RoutingDecision::Render { template_name: String::from_str(template), context }
}

/// The standalone homepage.
pub fn altgovph_home() -> (d: RoutingDecision)
    ensures
        d@ == (DecisionModel::Render {
            template_name: "visualizations_home.html"@,
            context: page_context("BetterGovPH Data Visualizations"@),
        }),
{
    render_page("BetterGovPH Data Visualizations", "visualizations_home.html")
}

/// The standalone budget analysis page.
pub fn budget() -> (d: RoutingDecision)
    ensures
        d@ == (DecisionModel::Render {
            template_name: "budget.html"@,
            context: page_context("Budget Analysis - BetterGovPH"@),
        }),
{
    render_page("Budget Analysis - BetterGovPH", "budget.html")
}

/// The standalone flood-control projects page.
pub fn flood() -> (d: RoutingDecision)
    ensures
        d@ == (DecisionModel::Render {
            template_name: "flood.html"@,
            context: page_context("Flood Control Projects - BetterGovPH"@),
        }),
{
    render_page("Flood Control Projects - BetterGovPH", "flood.html")
}

/// The standalone infrastructure-projects page.
pub fn dime() -> (d: RoutingDecision)
    ensures
        d@ == (DecisionModel::Render {
            template_name: "dime.html"@,
            context: page_context("DIME Infrastructure Projects - BetterGovPH"@),
        }),
{
    render_page("DIME Infrastructure Projects - BetterGovPH", "dime.html")
}

/// The standalone national-expenditure-program page.
pub fn nep() -> (d: RoutingDecision)
    ensures
        d@ == (DecisionModel::Render {
            template_name: "nep.html"@,
            context: page_context("NEP Analysis - BetterGovPH"@),
        }),
{
    render_page("NEP Analysis - BetterGovPH", "nep.html")
}

/// The standalone interactive map page.
pub fn map_page() -> (d: RoutingDecision)
    ensures
        d@ == (DecisionModel::Render {
            template_name: "map.html"@,
            context: page_context("Interactive Map - BetterGovPH"@),
        }),
{
    render_page("Interactive Map - BetterGovPH", "map.html")
}

/// The standalone about page.
pub fn about() -> (d: RoutingDecision)
    ensures
        d@ == (DecisionModel::Render {
            template_name: "about.html"@,
            context: page_context("About - BetterGovPH"@),
        }),
{
    render_page("About - BetterGovPH", "about.html")
}

/// The standalone budget/NEP correlation page.
pub fn budget_nep_correlation() -> (d: RoutingDecision)
    ensures
        d@ == (DecisionModel::Render {
            template_name: "budget_nep_correlation.html"@,
            context: page_context("Budget-NEP Correlation - BetterGovPH"@),
        }),
{
    render_page("Budget-NEP Correlation - BetterGovPH", "budget_nep_correlation.html")
}

/// The standalone budget/flood correlation page.
pub fn budget_flood_correlation() -> (d: RoutingDecision)
    ensures
        d@ == (DecisionModel::Render {
            template_name: "budget_flood_correlation.html"@,
            context: page_context("Budget-Flood Correlation - BetterGovPH"@),
        }),
{
    render_page("Budget-Flood Correlation - BetterGovPH", "budget_flood_correlation.html")
}

/// The standalone flood/infrastructure correlation page.
pub fn flood_dime_correlation() -> (d: RoutingDecision)
    ensures
        d@ == (DecisionModel::Render {
            template_name: "flood_dime_correlation.html"@,
            context: page_context("Flood-DIME Correlation - BetterGovPH"@),
        }),
{
    render_page("Flood-DIME Correlation - BetterGovPH", "flood_dime_correlation.html")
}

} // verus!
