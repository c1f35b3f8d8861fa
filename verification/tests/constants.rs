use bb_chipotle::DEFAULT_MENU_SERVICE_URL_FORMAT;
use bb_chipotle::DEFAULT_MENU_SERVICE_URL_REPLACE_TOKEN;

#[test]
fn default_service_menu_url_format_has_token() {
    assert!(DEFAULT_MENU_SERVICE_URL_FORMAT.contains(DEFAULT_MENU_SERVICE_URL_REPLACE_TOKEN));
}

#[test]
fn constants_default_service_menu_url_format_has_token() {
    assert!(DEFAULT_MENU_SERVICE_URL_FORMAT.contains(DEFAULT_MENU_SERVICE_URL_REPLACE_TOKEN));
}
