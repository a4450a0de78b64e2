use warp_local::auth::needs_sso_link_view::NeedsSsoLinkView;
use warp_local::auth::API_KEY_PREFIX;

#[test]
fn needs_sso_link_view_ignores_email() {
    let mut view = NeedsSsoLinkView::new();
    view.set_email("user@example.com".to_string());
    let text = view.render_text();
    assert_eq!(text.header, "Warp account SSO is disabled in this local-only build");
    assert_eq!(
        text.detail,
        "This fork does not connect to Warp account or SSO services. Restart Warp to continue with the local installation identity."
    );
}

#[test]
fn needs_sso_link_view_ui_name() {
    assert_eq!(NeedsSsoLinkView::ui_name(), "NeedsSsoLinkView");
}

#[test]
fn api_key_prefix_is_wk() {
    assert_eq!(API_KEY_PREFIX, "wk-");
}
