use reqwest::header::{HeaderMap, HeaderName, HeaderValue};
use solana_arbitrage_bot::error::{ConfiguredHeader, JupiterError};
use solana_arbitrage_bot::headers::{is_header_text, is_valid_name, read_header};
use solana_arbitrage_bot::jupiter_client::{
    IntegratorFee, JupiterApiType, JupiterClient, YellowstoneConfig, REQUEST_TIMEOUT_SECS,
};

fn fee() -> IntegratorFee {
    IntegratorFee { fee_bps: 25, fee_account: String::from("FeeAccount111") }
}

fn feed() -> YellowstoneConfig {
    YellowstoneConfig {
        grpc_endpoint: String::from("https://grpc.example.org:443"),
        x_token: String::from("feed-token"),
    }
}

fn tag(tier: JupiterApiType) -> &'static str {
    match tier {
        JupiterApiType::Public => "public",
        JupiterApiType::Pro => "pro",
        JupiterApiType::Lite => "lite",
        JupiterApiType::SelfHosted => "self-hosted",
        JupiterApiType::Ultra => "ultra",
    }
}

fn configuration_error(r: Result<JupiterClient, JupiterError>) -> ConfiguredHeader {
    match r {
        Err(JupiterError::Configuration(header)) => header,
        Err(other) => panic!("another failure: {:?}", other),
        Ok(_) => panic!("a client was made"),
    }
}

#[test]
fn header_set_follows_the_optional_configs_for_every_tier() {
    let tiers = [
        JupiterApiType::Public,
        JupiterApiType::Pro,
        JupiterApiType::Lite,
        JupiterApiType::SelfHosted,
        JupiterApiType::Ultra,
    ];
    for tier in tiers {
        for mask in 0..8u8 {
            let with_key = mask & 1 != 0;
            let with_fee = mask & 2 != 0;
            let with_feed = mask & 4 != 0;
            let client = JupiterClient::new_with_config(
                String::from("https://example.org/v6"),
                if with_key { Some(String::from("secret-key")) } else { None },
                tier,
                if with_fee { Some(fee()) } else { None },
                if with_feed { Some(feed()) } else { None },
            )
            .unwrap();
            let headers = client.headers();
            let expected = 3
                + if with_key { 1 } else { 0 }
                + if with_fee { 2 } else { 0 }
                + if with_feed { 2 } else { 0 };
            assert_eq!(headers.len(), expected);
            assert_eq!(headers.keys_len(), expected);

            assert_eq!(headers.get("x-api-type").unwrap(), tag(tier));
            assert_eq!(headers.get("content-type").unwrap(), "application/json");
            assert_eq!(headers.get("user-agent").unwrap(), "Jupiter-Arbitrage-Bot/1.0");
            assert_eq!(
                headers.get("authorization").map(|v| v.to_str().unwrap().to_string()),
                if with_key { Some(String::from("Bearer secret-key")) } else { None }
            );
            assert_eq!(
                headers.get("x-integrator-fee").map(|v| v.to_str().unwrap().to_string()),
                if with_fee { Some(String::from("25")) } else { None }
            );
            assert_eq!(
                headers.get("x-integrator-account").map(|v| v.to_str().unwrap().to_string()),
                if with_fee { Some(String::from("FeeAccount111")) } else { None }
            );
            assert_eq!(
                headers.get("x-yellowstone-endpoint").map(|v| v.to_str().unwrap().to_string()),
                if with_feed { Some(String::from("https://grpc.example.org:443")) } else { None }
            );
            assert_eq!(
                headers.get("x-yellowstone-token").map(|v| v.to_str().unwrap().to_string()),
                if with_feed { Some(String::from("feed-token")) } else { None }
            );

            assert_eq!(client.api_type(), tier);
            assert_eq!(client.base_url(), "https://example.org/v6");
            assert_eq!(client.api_key().is_some(), with_key);
            assert_eq!(client.integrator_fee().is_some(), with_fee);
            assert_eq!(client.yellowstone_config().is_some(), with_feed);
        }
    }
}

#[test]
fn header_reads_back_what_the_profile_sends() {
    let client = JupiterClient::new_with_config(
        String::from("https://example.org/v6"),
        Some(String::from("k")),
        JupiterApiType::SelfHosted,
        Some(IntegratorFee { fee_bps: 65535, fee_account: String::from("acct") }),
        Some(feed()),
    )
    .unwrap();
    assert_eq!(client.header("authorization"), Some(String::from("Bearer k")));
    assert_eq!(client.header("x-api-type"), Some(String::from("self-hosted")));
    assert_eq!(client.header("x-integrator-fee"), Some(String::from("65535")));
    assert_eq!(client.header("x-integrator-account"), Some(String::from("acct")));
    assert_eq!(
        client.header("x-yellowstone-endpoint"),
        Some(String::from("https://grpc.example.org:443"))
    );
    assert_eq!(client.header("x-yellowstone-token"), Some(String::from("feed-token")));
    assert_eq!(client.header("content-type"), Some(String::from("application/json")));
    assert_eq!(client.header("user-agent"), Some(String::from("Jupiter-Arbitrage-Bot/1.0")));
    assert_eq!(client.header("accept"), None);
    assert_eq!(client.header(""), None);
    assert_eq!(client.header("Authorization"), None);
    assert_eq!(client.header("not a name"), None);
}

#[test]
fn public_shortcut_is_the_general_constructor() {
    let client = JupiterClient::new_public();
    assert_eq!(client.base_url(), "https://quote-api.jup.ag/v6");
    assert_eq!(client.api_type(), JupiterApiType::Public);
    assert!(client.api_key().is_none());
    assert!(client.integrator_fee().is_none());
    assert!(client.yellowstone_config().is_none());
    assert!(!client.strict_validation());
    assert_eq!(client.headers().len(), 3);
    assert_eq!(client.header("x-api-type"), Some(String::from("public")));

    let general = JupiterClient::new_with_config(
        String::from("https://quote-api.jup.ag/v6"),
        None,
        JupiterApiType::Public,
        None,
        None,
    )
    .unwrap();
    assert_eq!(client.headers(), general.headers());
}

#[test]
fn new_makes_a_public_client_with_an_optional_credential() {
    let open = JupiterClient::new(String::from("https://a.example/v6"), None).unwrap();
    assert_eq!(open.api_type(), JupiterApiType::Public);
    assert_eq!(open.header("authorization"), None);
    assert_eq!(open.base_url(), "https://a.example/v6");

    let keyed =
        JupiterClient::new(String::from("https://a.example/v6"), Some(String::from("abc")))
            .unwrap();
    assert_eq!(keyed.api_type(), JupiterApiType::Public);
    assert_eq!(keyed.header("authorization"), Some(String::from("Bearer abc")));
    assert_eq!(keyed.api_key().as_deref(), Some("abc"));
}

#[test]
fn pro_shortcut_is_the_general_constructor() {
    let client = JupiterClient::new_pro(String::from("pro-key")).unwrap();
    assert_eq!(client.base_url(), "https://api.jup.ag/v6");
    assert_eq!(client.api_type(), JupiterApiType::Pro);
    assert_eq!(client.header("authorization"), Some(String::from("Bearer pro-key")));
    assert_eq!(client.header("x-api-type"), Some(String::from("pro")));
    let general = JupiterClient::new_with_config(
        String::from("https://api.jup.ag/v6"),
        Some(String::from("pro-key")),
        JupiterApiType::Pro,
        None,
        None,
    )
    .unwrap();
    assert_eq!(client.headers(), general.headers());
}

#[test]
fn lite_shortcut_is_the_general_constructor() {
    let client = JupiterClient::new_lite();
    assert_eq!(client.base_url(), "https://lite-api.jup.ag/v6");
    assert_eq!(client.api_type(), JupiterApiType::Lite);
    assert_eq!(client.header("authorization"), None);
    assert_eq!(client.header("x-api-type"), Some(String::from("lite")));
    assert_eq!(client.headers().len(), 3);
}

#[test]
fn ultra_shortcut_is_the_general_constructor() {
    let client = JupiterClient::new_ultra(String::from("ultra-key")).unwrap();
    assert_eq!(client.base_url(), "https://ultra-api.jup.ag/v6");
    assert_eq!(client.api_type(), JupiterApiType::Ultra);
    assert_eq!(client.header("authorization"), Some(String::from("Bearer ultra-key")));
    assert_eq!(client.header("x-api-type"), Some(String::from("ultra")));
    assert_eq!(client.headers().len(), 4);
}

#[test]
fn self_hosted_shortcut_is_the_general_constructor() {
    let client =
        JupiterClient::new_self_hosted(String::from("http://localhost:8080"), feed(), Some(fee()))
            .unwrap();
    assert_eq!(client.base_url(), "http://localhost:8080");
    assert_eq!(client.api_type(), JupiterApiType::SelfHosted);
    assert!(client.api_key().is_none());
    assert_eq!(client.headers().len(), 7);
    assert_eq!(client.header("x-api-type"), Some(String::from("self-hosted")));
    assert_eq!(client.header("x-yellowstone-token"), Some(String::from("feed-token")));
    assert_eq!(client.header("x-integrator-fee"), Some(String::from("25")));

    let bare =
        JupiterClient::new_self_hosted(String::from("http://localhost:8080"), feed(), None)
            .unwrap();
    assert_eq!(bare.headers().len(), 5);
    assert_eq!(bare.header("x-integrator-fee"), None);
}

#[test]
fn unfit_credential_fails_at_construction() {
    let with_newline = JupiterClient::new_pro(String::from("bad\nkey"));
    assert_eq!(configuration_error(with_newline), ConfiguredHeader::Authorization);

    let non_ascii = JupiterClient::new_ultra(String::from("clé"));
    assert_eq!(configuration_error(non_ascii), ConfiguredHeader::Authorization);

    let with_delete =
        JupiterClient::new(String::from("https://a.example"), Some(String::from("a\u{7f}b")));
    assert_eq!(configuration_error(with_delete), ConfiguredHeader::Authorization);
}

#[test]
fn first_unfit_value_is_named() {
    let bad_account = JupiterClient::new_with_config(
        String::from("https://a.example"),
        Some(String::from("fine")),
        JupiterApiType::Pro,
        Some(IntegratorFee { fee_bps: 1, fee_account: String::from("acct\r") }),
        Some(YellowstoneConfig {
            grpc_endpoint: String::from("bad\0"),
            x_token: String::from("tok"),
        }),
    );
    assert_eq!(configuration_error(bad_account), ConfiguredHeader::IntegratorAccount);

    let bad_endpoint = JupiterClient::new_self_hosted(
        String::from("https://a.example"),
        YellowstoneConfig { grpc_endpoint: String::from("bad\0"), x_token: String::from("t\n") },
        Some(fee()),
    );
    assert_eq!(configuration_error(bad_endpoint), ConfiguredHeader::YellowstoneEndpoint);

    let bad_token = JupiterClient::new_self_hosted(
        String::from("https://a.example"),
        YellowstoneConfig { grpc_endpoint: String::from("ok"), x_token: String::from("tøken") },
        None,
    );
    assert_eq!(configuration_error(bad_token), ConfiguredHeader::YellowstoneToken);

    let both = JupiterClient::new_with_config(
        String::from("https://a.example"),
        Some(String::from("ké")),
        JupiterApiType::Pro,
        Some(IntegratorFee { fee_bps: 1, fee_account: String::from("acct\r") }),
        None,
    );
    assert_eq!(configuration_error(both), ConfiguredHeader::Authorization);
}

#[test]
fn base_url_is_not_a_header_and_may_hold_anything() {
    let client = JupiterClient::new(String::from("https://exämple.org/\n"), None).unwrap();
    assert_eq!(client.base_url(), "https://exämple.org/\n");
}

#[test]
fn empty_and_tabbed_values_are_text() {
    let client = JupiterClient::new(String::from("u"), Some(String::from(""))).unwrap();
    assert_eq!(client.header("authorization"), Some(String::from("Bearer ")));
    let tabbed = JupiterClient::new(String::from("u"), Some(String::from("a\tb"))).unwrap();
    assert_eq!(tabbed.header("authorization"), Some(String::from("Bearer a\tb")));
}

#[test]
fn strict_validation_is_off_until_turned_on() {
    let client = JupiterClient::new_lite();
    assert!(!client.strict_validation());
    let strict = client.with_strict_validation(true);
    assert!(strict.strict_validation());
    assert_eq!(strict.header("x-api-type"), Some(String::from("lite")));
    assert_eq!(strict.headers().len(), 3);
    let relaxed = strict.with_strict_validation(false);
    assert!(!relaxed.strict_validation());
}

#[test]
fn a_cloned_client_has_the_same_profile() {
    let client =
        JupiterClient::new_self_hosted(String::from("http://localhost:8080"), feed(), Some(fee()))
            .unwrap()
            .with_strict_validation(true);
    let copy = client.clone();
    assert_eq!(copy.base_url(), client.base_url());
    assert_eq!(copy.api_type(), client.api_type());
    assert_eq!(copy.strict_validation(), client.strict_validation());
    assert_eq!(copy.headers(), client.headers());
    assert_eq!(copy.headers().len(), 7);
    assert_eq!(copy.integrator_fee().as_ref().unwrap().fee_bps, 25);
    assert_eq!(copy.yellowstone_config().as_ref().unwrap().x_token, "feed-token");
}

#[test]
fn requests_are_given_up_after_thirty_seconds() {
    assert_eq!(REQUEST_TIMEOUT_SECS, 30);
    assert_eq!(JupiterClient::new_public().timeout_secs(), 30);
}

#[test]
fn header_text_is_printable_ascii_and_tabs() {
    assert!(is_header_text(""));
    assert!(is_header_text("Bearer abc123"));
    assert!(is_header_text(" ~\t"));
    assert!(!is_header_text("a\nb"));
    assert!(!is_header_text("a\rb"));
    assert!(!is_header_text("\0"));
    assert!(!is_header_text("\u{7f}"));
    assert!(!is_header_text("é"));
    assert!(!is_header_text("\u{80}"));
}

#[test]
fn header_names_are_lower_case_letters_digits_and_hyphens() {
    assert!(is_valid_name("retry-after"));
    assert!(is_valid_name("x-api-type"));
    assert!(is_valid_name("a"));
    assert!(is_valid_name("x1"));
    assert!(!is_valid_name(""));
    assert!(!is_valid_name("Retry-After"));
    assert!(!is_valid_name("retry after"));
    assert!(!is_valid_name("retry_after"));
    assert!(!is_valid_name("é"));
    let long = "a".repeat(64);
    assert!(is_valid_name(&long));
    let too_long = "a".repeat(65);
    assert!(!is_valid_name(&too_long));
}

#[test]
fn read_header_gives_the_first_value_as_text() {
    let mut headers = HeaderMap::new();
    headers.insert("retry-after", HeaderValue::from_static("12"));
    headers.append("x-request-id", HeaderValue::from_static("first"));
    headers.append("x-request-id", HeaderValue::from_static("second"));
    headers.insert("x-bytes", HeaderValue::from_bytes(b"caf\xe9").unwrap());
    assert_eq!(read_header(&headers, "retry-after"), Some(String::from("12")));
    assert_eq!(read_header(&headers, "x-request-id"), Some(String::from("first")));
    assert_eq!(read_header(&headers, "x-bytes"), None);
    assert_eq!(read_header(&headers, "x-absent"), None);
    assert_eq!(read_header(&headers, "Retry-After"), None);
    assert_eq!(read_header(&headers, ""), None);
}

#[test]
fn header_values_are_made_from_any_bytes_but_controls() {
    assert!(HeaderValue::from_str("plain text").is_ok());
    assert!(HeaderValue::from_str("").is_ok());
    assert!(HeaderValue::from_str("a\tb").is_ok());
    assert!(HeaderValue::from_str("clé").is_ok());
    assert!(HeaderValue::from_str("a\nb").is_err());
    assert!(HeaderValue::from_str("a\rb").is_err());
    assert!(HeaderValue::from_str("\0").is_err());
    assert!(HeaderValue::from_str("\u{1f}").is_err());
    assert!(HeaderValue::from_str("\u{7f}").is_err());
    assert_eq!(HeaderValue::from_str("clé").unwrap().as_bytes(), "clé".as_bytes());
}

#[test]
fn header_values_come_back_as_strings_only_when_they_are_text() {
    assert_eq!(HeaderValue::from_str("a\tb ~").unwrap().to_str().unwrap(), "a\tb ~");
    assert!(HeaderValue::from_str("clé").unwrap().to_str().is_err());
    assert!(HeaderValue::from_bytes(b"\x80").unwrap().to_str().is_err());
    assert_eq!(HeaderValue::from_bytes(b"12").unwrap().to_str().unwrap(), "12");
}

#[test]
fn a_header_map_takes_a_name_as_it_is_written_here() {
    let mut map = HeaderMap::new();
    assert!(map.is_empty());
    map.insert("x-custom-name-1", HeaderValue::from_static("one"));
    map.insert("content-type", HeaderValue::from_static("two"));
    assert_eq!(map.get("x-custom-name-1").unwrap(), "one");
    assert_eq!(map.get("content-type").unwrap(), "two");
    assert!(map.get("x-custom-name-2").is_none());
    map.insert("x-custom-name-1", HeaderValue::from_static("three"));
    assert_eq!(map.get("x-custom-name-1").unwrap(), "three");
    assert_eq!(map.get("content-type").unwrap(), "two");
    assert_eq!(map.len(), 2);
    let names: Vec<&str> = map.keys().map(|k| k.as_str()).collect();
    assert!(names.contains(&"x-custom-name-1"));
    assert!(names.contains(&"content-type"));
}

#[test]
fn a_header_map_has_room_for_a_thousand_names() {
    let mut map = HeaderMap::new();
    for i in 0..1024 {
        let name = HeaderName::from_bytes(format!("x-name-{}", i).as_bytes()).unwrap();
        map.insert(name, HeaderValue::from_static("v"));
    }
    assert_eq!(map.len(), 1024);
    map.insert("one-more", HeaderValue::from_static("v"));
    assert_eq!(map.len(), 1025);
}
