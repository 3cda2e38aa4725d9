use nango_client::config::CALLBACK_URL_VAR;
use nango_client::config::CLIENT_ID_VAR;
use nango_client::config::SECRET_KEY_VAR;
use nango_client::load_nango_config;
use nango_client::ConfigError;

fn some(value: &str) -> Option<String> {
    Some(value.to_string())
}

#[test]
fn variable_names() {
    assert_eq!(CLIENT_ID_VAR, "NANGO_CLIENT_ID");
    assert_eq!(SECRET_KEY_VAR, "NANGO_SECRET_KEY");
    assert_eq!(CALLBACK_URL_VAR, "NANGO_CALLBACK_URL");
}

#[test]
fn all_three_set_gives_the_configuration() {
    let config = load_nango_config(some("client"), some("secret"), some("https://cb.example/x"))
        .unwrap();
    assert_eq!(config.client_id, "client");
    assert_eq!(config.secret_key, "secret");
    assert_eq!(config.callback_url, "https://cb.example/x");
}

#[test]
fn values_are_trimmed() {
    let config = load_nango_config(
        some("  client\n"),
        some("\tsecret key "),
        some(" https://cb.example/x\r\n"),
    ).unwrap();
    assert_eq!(config.client_id, "client");
    assert_eq!(config.secret_key, "secret key");
    assert_eq!(config.callback_url, "https://cb.example/x");
}

#[test]
fn a_value_that_is_empty_after_trimming_is_accepted() {
    let config = load_nango_config(some(""), some("   "), some("\n")).unwrap();
    assert_eq!(config.client_id, "");
    assert_eq!(config.secret_key, "");
    assert_eq!(config.callback_url, "");
}

#[test]
fn missing_client_id_is_named() {
    let error = load_nango_config(None, some("secret"), some("url")).unwrap_err();
    assert_eq!(error, ConfigError::Missing("NANGO_CLIENT_ID".to_string()));
}

#[test]
fn missing_secret_key_is_named() {
    let error = load_nango_config(some("client"), None, some("url")).unwrap_err();
    assert_eq!(error, ConfigError::Missing("NANGO_SECRET_KEY".to_string()));
}

#[test]
fn missing_callback_url_is_named() {
    let error = load_nango_config(some("client"), some("secret"), None).unwrap_err();
    assert_eq!(error, ConfigError::Missing("NANGO_CALLBACK_URL".to_string()));
}

#[test]
fn the_first_missing_variable_is_reported() {
    assert_eq!(
        load_nango_config(None, None, None).unwrap_err(),
        ConfigError::Missing("NANGO_CLIENT_ID".to_string())
    );
    assert_eq!(
        load_nango_config(None, some("secret"), None).unwrap_err(),
        ConfigError::Missing("NANGO_CLIENT_ID".to_string())
    );
    assert_eq!(
        load_nango_config(some("client"), None, None).unwrap_err(),
        ConfigError::Missing("NANGO_SECRET_KEY".to_string())
    );
}

#[test]
fn a_configuration_can_be_cloned() {
    let config = load_nango_config(some("client"), some("secret"), some("url")).unwrap();
    let copy = config.clone();
    assert_eq!(copy.client_id, config.client_id);
    assert_eq!(copy.secret_key, config.secret_key);
    assert_eq!(copy.callback_url, config.callback_url);
}
