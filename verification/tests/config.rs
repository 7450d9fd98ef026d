use zeptomail::ClientConfig;
use zeptomail::REQUEST_TIMEOUT_SECS;

#[test]
fn new_config_holds_key_and_fixed_base_url() {
    let c = ClientConfig::new("SECRET-REDACTED");
    assert_eq!(c.api_key, "SECRET-REDACTED");
    assert_eq!(c.base_url, "https://api.zeptomail.eu/v1.1");
}

#[test]
fn endpoint_urls_follow_the_base() {
    let c = ClientConfig::new("k");
    assert_eq!(c.endpoint_url("email"), "https://api.zeptomail.eu/v1.1/email");
    assert_eq!(c.endpoint_url("email/batch"), "https://api.zeptomail.eu/v1.1/email/batch");
    assert_eq!(c.endpoint_url("email/template"), "https://api.zeptomail.eu/v1.1/email/template");
    assert_eq!(
        c.endpoint_url("email/template/batch"),
        "https://api.zeptomail.eu/v1.1/email/template/batch"
    );
    assert_eq!(c.endpoint_url("files"), "https://api.zeptomail.eu/v1.1/files");
}

#[test]
fn auth_header_uses_the_fixed_scheme() {
    let c = ClientConfig::new("my-key");
    assert_eq!(c.auth_header_value(), "Zoho-enczapikey my-key");
}

#[test]
fn timeout_is_thirty_seconds() {
    assert_eq!(REQUEST_TIMEOUT_SECS, 30);
}
