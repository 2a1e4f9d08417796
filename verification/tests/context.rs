use altgovph::context::BrandContext;
use altgovph::utils;

#[test]
fn new_context_is_empty() {
    let ctx = BrandContext::new();
    assert_eq!(ctx.len(), 0);
    assert!(ctx.get("title").is_none());
}

#[test]
fn insert_then_get_returns_value() {
    let mut ctx = BrandContext::new();
    ctx.insert("title", "BetterGovPH");
    assert_eq!(ctx.get("title").unwrap(), "BetterGovPH");
    assert!(ctx.get("platform").is_none());
}

#[test]
fn later_insert_of_same_key_wins() {
    let mut ctx = BrandContext::new();
    ctx.insert("SITE_NAME", "BetterGovPH Data Visualizations");
    ctx.insert("SITE_NAME", "BetterGovPH");
    assert_eq!(ctx.get("SITE_NAME").unwrap(), "BetterGovPH");
}

#[test]
fn entries_record_insertion_order() {
    let mut ctx = BrandContext::new();
    ctx.insert("a", "1");
    ctx.insert("b", "2");
    ctx.insert("a", "3");
    assert_eq!(ctx.len(), 3);
    let keys: Vec<&str> = ctx.entries.iter().map(|(k, _)| k.as_str()).collect();
    assert_eq!(keys, vec!["a", "b", "a"]);
    assert_eq!(ctx.get("a").unwrap(), "3");
    assert_eq!(ctx.get("b").unwrap(), "2");
}

#[test]
fn load_frontend_env_holds_defaults_and_client_ids() {
    let ctx = utils::load_frontend_env("google-123", "facebook-456");
    assert_eq!(ctx.get("SITE_NAME").unwrap(), "BetterGovPH Data Visualizations");
    assert_eq!(ctx.get("SITE_URL").unwrap(), "https://altgovph.site");
    assert_eq!(ctx.get("GOOGLE_CLIENT_ID").unwrap(), "google-123");
    assert_eq!(ctx.get("FACEBOOK_APP_ID").unwrap(), "facebook-456");
}

#[test]
fn load_frontend_env_with_unset_variables_is_empty_strings() {
    let ctx = utils::load_frontend_env("", "");
    assert_eq!(ctx.get("GOOGLE_CLIENT_ID").unwrap(), "");
    assert_eq!(ctx.get("FACEBOOK_APP_ID").unwrap(), "");
}

#[test]
fn add_frontend_env_overrides_existing_entries() {
    let mut ctx = BrandContext::new();
    ctx.insert("SITE_NAME", "placeholder");
    utils::add_frontend_env_to_context(&mut ctx, "g", "f");
    assert_eq!(ctx.get("SITE_NAME").unwrap(), "BetterGovPH Data Visualizations");
    assert_eq!(ctx.get("SITE_URL").unwrap(), "https://altgovph.site");
    assert_eq!(ctx.get("GOOGLE_CLIENT_ID").unwrap(), "g");
}
