use bb_chipotle::client;
use bb_chipotle::menu::Endpoint;
use bb_chipotle::menu::EndpointConfigError;

#[test]
fn endpoint_config_try_new_success() {
    let endpoint = "https://example.com/$store_id".to_string();
    let replace_token = "$store_id".to_string();
    let endpoint_config = Endpoint::try_new(endpoint, replace_token);
    assert!(endpoint_config.is_ok());
}

#[test]
fn endpoint_config_try_new_missing_endpoint() {
    let endpoint = "".to_string();
    let replace_token = "$store_id".to_string();
    let endpoint_config = Endpoint::try_new(endpoint, replace_token);
    assert_eq!(endpoint_config, Err(EndpointConfigError::MissingEndpoint));
}

#[test]
fn endpoint_config_try_new_missing_replace_token() {
    let endpoint = "https://example.com/$store_id".to_string();
    let replace_token = "".to_string();
    let endpoint_config = Endpoint::try_new(endpoint, replace_token);
    assert_eq!(
        endpoint_config,
        Err(EndpointConfigError::MissingReplaceToken)
    );
}

#[test]
fn endpoint_config_try_new_replace_token_not_in_endpoint() {
    let endpoint = "https://example.com/store_id".to_string();
    let replace_token = "$store_id".to_string();
    let endpoint_config = Endpoint::try_new(endpoint, replace_token);
    assert_eq!(
        endpoint_config,
        Err(EndpointConfigError::ReplaceTokenNotInEndpoint)
    );
}

#[test]
fn to_url_renders_by_substring_replacement() {
    let endpoint = Endpoint::try_new(
        "https://example.com/$id/menu".to_string(),
        "$id".to_string(),
    )
    .unwrap();
    assert_eq!(endpoint.to_url("42"), "https://example.com/42/menu");
}

#[test]
fn to_url_replaces_every_occurrence() {
    let endpoint = Endpoint::try_new("$id/x/$id".to_string(), "$id".to_string()).unwrap();
    assert_eq!(endpoint.to_url("7"), "7/x/7");
}

#[test]
fn validate_accepts_valid_config() {
    let config = client::EndpointConfig {
        menu: Some(client::Endpoint {
            url: "https://example.com/$store_id".to_string(),
            replace_token: Some("$store_id".to_string()),
        }),
        restaurant: Some(client::Endpoint {
            url: "https://example.com/restaurants".to_string(),
            replace_token: None,
        }),
    };
    assert!(config.validate().is_ok());
}

#[test]
fn validate_rejects_menu_without_token() {
    let config = client::EndpointConfig {
        menu: Some(client::Endpoint {
            url: "https://example.com/menu".to_string(),
            replace_token: None,
        }),
        restaurant: None,
    };
    assert_eq!(
        config.validate(),
        Err(client::EndpointConfigError::MissingReplaceToken(
            "menu".to_string(),
            "https://example.com/menu".to_string()
        ))
    );
}

#[test]
fn validate_rejects_restaurant_with_token() {
    let config = client::EndpointConfig {
        menu: None,
        restaurant: Some(client::Endpoint {
            url: "https://example.com/restaurants".to_string(),
            replace_token: Some("$x".to_string()),
        }),
    };
    assert_eq!(
        config.validate(),
        Err(client::EndpointConfigError::UnnecessaryReplaceToken(
            "restaurant".to_string(),
            "$x".to_string()
        ))
    );
}
