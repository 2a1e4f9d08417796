use altgovph::context::BrandContext;
use altgovph::pages;
use altgovph::routing::RoutingDecision;

fn expect_render(d: RoutingDecision) -> (String, BrandContext) {
    match d {
        RoutingDecision::Render { template_name, context } => (template_name, context),
        RoutingDecision::Redirect { .. } => panic!("expected a render, got a redirect"),
    }
}

fn expect_redirect(d: RoutingDecision) -> (String, u16) {
    match d {
        RoutingDecision::Redirect { location, status } => (location, status),
        RoutingDecision::Render { .. } => panic!("expected a redirect, got a render"),
    }
}

fn value(ctx: &BrandContext, key: &str) -> String {
    ctx.get(key).unwrap_or_else(|| panic!("missing context key {}", key)).clone()
}

#[test]
fn dime_on_legacy_host_redirects_permanently() {
    let d = pages::dime(Some("kenchlightyear.com"), "/dime", None);
    let (location, status) = expect_redirect(d);
    assert_eq!(location, "https://altgovph.site/dime");
    assert_eq!(status, 308);
}

#[test]
fn nep_on_legacy_host_renders_normally() {
    let d = pages::nep(Some("kenchlightyear.com"), "/nep", None);
    let (template, ctx) = expect_render(d);
    assert_eq!(template, "nep.html");
    assert_eq!(value(&ctx, "title"), "NEP Analysis - BetterGovPH");
}

#[test]
fn budget_redirect_keeps_query_string() {
    let d = pages::budget(Some("kenchlightyear.com"), "/budget", Some("year=2024"));
    let (location, status) = expect_redirect(d);
    assert_eq!(location, "https://altgovph.site/budget?year=2024");
    assert_eq!(status, 308);
}

#[test]
fn budget_redirect_without_query_has_no_question_mark() {
    let d = pages::budget(Some("www.kenchlightyear.com"), "/budget", None);
    let (location, _) = expect_redirect(d);
    assert_eq!(location, "https://altgovph.site/budget");
    assert!(!location.contains('?'));
}

#[test]
fn budget_on_canonical_host_renders_desktop() {
    let d = pages::budget(Some("altgovph.site"), "/budget", None);
    let (template, ctx) = expect_render(d);
    assert_eq!(template, "budget.html");
    assert_eq!(value(&ctx, "title"), "Budget Analysis - BetterGovPH");
    assert_eq!(value(&ctx, "company_name"), "BetterGovPH");
    assert_eq!(value(&ctx, "platform"), "BetterGovPH");
    assert_eq!(value(&ctx, "SITE_NAME"), "BetterGovPH");
    assert_eq!(value(&ctx, "SITE_URL"), "https://altgovph.site");
    assert_eq!(value(&ctx, "og_title"), "Budget Analysis - BetterGovPH");
    assert_eq!(
        value(&ctx, "og_description"),
        "Government Data Analysis Platform for Budget and Flood Control Projects"
    );
    assert_eq!(value(&ctx, "og_url"), "https://altgovph.site/");
    assert_eq!(value(&ctx, "og_image"), "/static/images/gov_logo.png");
}

#[test]
fn budget_on_mobile_host_selects_mobile_template() {
    let d = pages::budget(Some("m.kenchlightyear.com"), "/budget", None);
    let (template, _) = expect_render(d);
    assert_eq!(template, "mobile/budget.html");
}

#[test]
fn flood_on_mobile_host_selects_mobile_template() {
    let d = pages::flood(Some("mobile.kenchlightyear.com"), "/flood", None);
    let (template, ctx) = expect_render(d);
    assert_eq!(template, "mobile/flood.html");
    assert_eq!(value(&ctx, "title"), "Flood Control Projects - BetterGovPH");
    assert_eq!(
        value(&ctx, "og_description"),
        "Government Data Analysis Platform for Flood Control Infrastructure Projects"
    );
}

#[test]
fn flood_on_legacy_host_redirects() {
    let d = pages::flood(Some("kenchlightyear.com"), "/flood", None);
    let (location, status) = expect_redirect(d);
    assert_eq!(location, "https://altgovph.site/flood");
    assert_eq!(status, 308);
}

#[test]
fn home_on_legacy_host_redirects_permanently() {
    let d = pages::altgovph_home(Some("kenchlightyear.com"), "/alt", None);
    let (location, status) = expect_redirect(d);
    assert_eq!(location, "https://altgovph.site/alt");
    assert_eq!(status, 308);
}

#[test]
fn home_on_www_legacy_host_redirects_too() {
    let d = pages::altgovph_home(Some("www.kenchlightyear.com"), "/alt", Some("ref=banner"));
    let (location, status) = expect_redirect(d);
    assert_eq!(location, "https://altgovph.site/alt?ref=banner");
    assert_eq!(status, 308);
}

#[test]
fn home_on_canonical_host_renders() {
    let d = pages::altgovph_home(Some("altgovph.site"), "/alt", None);
    let (template, ctx) = expect_render(d);
    assert_eq!(template, "altgovph_home.html");
    assert_eq!(value(&ctx, "title"), "BetterGovPH");
    assert_eq!(
        value(&ctx, "og_description"),
        "Promoting Data Transparency and Open Government in the Philippines"
    );
}

#[test]
fn home_on_mobile_host_selects_mobile_template() {
    let d = pages::altgovph_home(Some("m.kenchlightyear.com"), "/alt", None);
    let (template, _) = expect_render(d);
    assert_eq!(template, "mobile/altgovph_home.html");
}

#[test]
fn dime_on_absent_host_renders_desktop() {
    let d = pages::dime(None, "/dime", None);
    let (template, ctx) = expect_render(d);
    assert_eq!(template, "dime.html");
    assert_eq!(value(&ctx, "title"), "DIME Infrastructure Projects - BetterGovPH");
    assert_eq!(
        value(&ctx, "og_description"),
        "Department of Infrastructure and Mega-Projects Execution - Infrastructure Projects Tracker"
    );
}

#[test]
fn budget_nep_correlation_renders_with_mobile_variant() {
    let d = pages::budget_nep_correlation(
        Some("m.kenchlightyear.com"),
        "/budget-nep-correlation",
        None,
    );
    let (template, ctx) = expect_render(d);
    assert_eq!(template, "mobile/budget_nep_correlation.html");
    assert_eq!(value(&ctx, "title"), "NEP-Budget Correlation Analysis - BetterGovPH");
    assert_eq!(value(&ctx, "og_url"), "https://altgovph.site/budget-nep-correlation");
    assert!(ctx.get("og_title").is_none());
}

#[test]
fn budget_nep_correlation_is_not_on_the_allow_list() {
    let d = pages::budget_nep_correlation(
        Some("kenchlightyear.com"),
        "/budget-nep-correlation",
        None,
    );
    let (template, _) = expect_render(d);
    assert_eq!(template, "budget_nep_correlation.html");
}

#[test]
fn budget_flood_correlation_redirects_on_legacy_host() {
    let d = pages::budget_flood_correlation(
        Some("kenchlightyear.com"),
        "/budget-flood-correlation",
        Some("region=ncr"),
    );
    let (location, status) = expect_redirect(d);
    assert_eq!(location, "https://altgovph.site/budget-flood-correlation?region=ncr");
    assert_eq!(status, 308);
}

#[test]
fn budget_flood_correlation_on_mobile_host_selects_mobile_template() {
    let d = pages::budget_flood_correlation(
        Some("m.kenchlightyear.com"),
        "/budget-flood-correlation",
        None,
    );
    let (template, ctx) = expect_render(d);
    assert_eq!(template, "mobile/budget_flood_correlation.html");
    assert!(ctx.get("title").is_none());
    assert_eq!(value(&ctx, "og_url"), "https://altgovph.site/budget-flood-correlation");
}

#[test]
fn budget_flood_correlation_on_desktop_host_has_no_title() {
    let d = pages::budget_flood_correlation(
        Some("altgovph.site"),
        "/budget-flood-correlation",
        None,
    );
    let (template, ctx) = expect_render(d);
    assert_eq!(template, "budget_flood_correlation.html");
    assert!(ctx.get("title").is_none());
}

#[test]
fn flood_dime_correlation_on_mobile_host_selects_mobile_template() {
    let d = pages::flood_dime_correlation(
        Some("mobile.kenchlightyear.com"),
        "/flood-dime-correlation",
        None,
    );
    let (template, ctx) = expect_render(d);
    assert_eq!(template, "mobile/flood_dime_correlation.html");
    assert_eq!(value(&ctx, "title"), "Flood-DIME Correlation Analysis - BetterGovPH");
    assert_eq!(value(&ctx, "og_url"), "https://altgovph.site/flood-dime-correlation");
}

#[test]
fn flood_dime_correlation_on_desktop_host_renders_base_template() {
    let d = pages::flood_dime_correlation(None, "/flood-dime-correlation", None);
    let (template, ctx) = expect_render(d);
    assert_eq!(template, "flood_dime_correlation.html");
    assert_eq!(value(&ctx, "title"), "Flood-DIME Correlation Analysis - BetterGovPH");
}

#[test]
fn flood_dime_correlation_redirects_on_legacy_host() {
    let d = pages::flood_dime_correlation(
        Some("www.kenchlightyear.com"),
        "/flood-dime-correlation",
        None,
    );
    let (location, status) = expect_redirect(d);
    assert_eq!(location, "https://altgovph.site/flood-dime-correlation");
    assert_eq!(status, 308);
}

#[test]
fn classification_is_idempotent() {
    let first = pages::budget(Some("kenchlightyear.com"), "/budget", Some("year=2024"));
    let second = pages::budget(Some("kenchlightyear.com"), "/budget", Some("year=2024"));
    assert_eq!(first, second);

    let first = pages::dime(Some("m.kenchlightyear.com"), "/dime", None);
    let second = pages::dime(Some("m.kenchlightyear.com"), "/dime", None);
    assert_eq!(first, second);
}
