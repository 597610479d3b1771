use locaray::url_parser::{
    public_origin_of, trusted_url_parts, validate_public_url, PublicUrlExtractor, UrlComponents,
};

#[test]
fn extracts_a_split_ansi_formatted_url() {
    let mut extractor = PublicUrlExtractor::new().expect("regexes should compile");
    assert!(extractor.push(b"\x1b[32mhttps://bright-").is_none());
    assert_eq!(
        extractor.push(b"field.trycloudflare.com\x1b[0m\n"),
        Some("https://bright-field.trycloudflare.com/".to_owned())
    );
}

#[test]
fn emits_only_once() {
    let mut extractor = PublicUrlExtractor::new().expect("regexes should compile");
    assert!(extractor.push(b"https://first.trycloudflare.com").is_some());
    assert!(extractor
        .push(b"https://second.trycloudflare.com")
        .is_none());
}

#[test]
fn rejects_malicious_near_matches_and_credentials() {
    for candidate in [
        "https://trycloudflare.com.attacker.example",
        "https://user@safe.trycloudflare.com",
        "https://safe.trycloudflare.com:444",
        "http://safe.trycloudflare.com",
        "https://trycloudflare.com",
        "https://nested.safe.trycloudflare.com",
        "https://-unsafe.trycloudflare.com",
        "https://unsafe-.trycloudflare.com",
        "https://unsafe_name.trycloudflare.com",
    ] {
        assert_eq!(validate_public_url(candidate), None, "{candidate}");
    }
}

#[test]
fn normalizes_a_trusted_origin_to_its_root() {
    assert_eq!(
        validate_public_url("https://safe.trycloudflare.com/path?token=secret#section"),
        Some("https://safe.trycloudflare.com/".to_owned())
    );
}

#[test]
fn accepts_upper_case_hosts_and_rejects_long_labels() {
    assert_eq!(
        validate_public_url("https://Bright-Field.TryCloudflare.com"),
        Some("https://bright-field.trycloudflare.com/".to_owned())
    );
    let long_label = "a".repeat(64);
    assert_eq!(
        validate_public_url(&format!("https://{long_label}.trycloudflare.com")),
        None
    );
    let longest_label = "a".repeat(63);
    assert_eq!(
        validate_public_url(&format!("https://{longest_label}.trycloudflare.com")),
        Some(format!("https://{longest_label}.trycloudflare.com/"))
    );
    assert_eq!(validate_public_url("not a url"), None);
    assert_eq!(validate_public_url("https://a.trycloudflare.com:443/"), Some("https://a.trycloudflare.com/".to_owned()));
}

#[test]
fn trims_trailing_punctuation_of_candidates() {
    let mut extractor = PublicUrlExtractor::new().expect("regexes should compile");
    assert_eq!(
        extractor.push(b"Visit (https://quick-one.trycloudflare.com)."),
        Some("https://quick-one.trycloudflare.com/".to_owned())
    );
}

#[test]
fn skips_untrusted_candidates_before_a_trusted_one() {
    let mut extractor = PublicUrlExtractor::new().expect("regexes should compile");
    assert_eq!(
        extractor.push(b"https://trycloudflare.com.attacker.example then https://good.trycloudflare.com"),
        Some("https://good.trycloudflare.com/".to_owned())
    );
}

#[test]
fn ignores_output_without_a_trusted_url() {
    let mut extractor = PublicUrlExtractor::new().expect("regexes should compile");
    assert!(extractor.push(b"INF Requesting new quick Tunnel").is_none());
    assert!(extractor.push(b"https://user@safe.trycloudflare.com\n").is_none());
    assert_eq!(
        extractor.push(b"https://late.trycloudflare.com\n"),
        Some("https://late.trycloudflare.com/".to_owned())
    );
}

#[test]
fn public_origin_is_the_validated_origin() {
    assert_eq!(
        public_origin_of("https://safe.trycloudflare.com/path"),
        Some("https://safe.trycloudflare.com".to_owned())
    );
    assert_eq!(public_origin_of("https://attacker.example"), None);
}

#[test]
fn long_output_is_bounded_but_still_searched() {
    let mut extractor = PublicUrlExtractor::new().expect("regexes should compile");
    let noise = vec![b'x'; 20_000];
    assert!(extractor.push(&noise).is_none());
    assert_eq!(
        extractor.push(b" https://after-noise.trycloudflare.com\n"),
        Some("https://after-noise.trycloudflare.com/".to_owned())
    );
}

fn parts(scheme: &str, username: &str, port: Option<u16>, host: Option<&str>) -> UrlComponents {
    UrlComponents {
        scheme: scheme.to_owned(),
        username: username.to_owned(),
        has_password: false,
        port,
        host: host.map(str::to_owned),
        origin: String::new(),
    }
}

#[test]
fn trusted_parts_are_https_quick_tunnel_hosts() {
    assert!(trusted_url_parts(&parts("https", "", None, Some("ok-1.trycloudflare.com"))));
    assert!(trusted_url_parts(&parts("https", "", None, Some("OK.TRYCLOUDFLARE.COM"))));
    assert!(!trusted_url_parts(&parts("http", "", None, Some("ok.trycloudflare.com"))));
    assert!(!trusted_url_parts(&parts("https", "u", None, Some("ok.trycloudflare.com"))));
    assert!(!trusted_url_parts(&parts("https", "", Some(8443), Some("ok.trycloudflare.com"))));
    assert!(!trusted_url_parts(&parts("https", "", None, None)));
    assert!(!trusted_url_parts(&parts("https", "", None, Some("a.b.trycloudflare.com"))));
    let mut with_password = parts("https", "", None, Some("ok.trycloudflare.com"));
    with_password.has_password = true;
    assert!(!trusted_url_parts(&with_password));
}

#[test]
fn a_validated_url_validates_to_itself() {
    for candidate in [
        "https://safe.trycloudflare.com/path?token=secret#section",
        "https://Bright-Field.TryCloudflare.com",
        "https://a.trycloudflare.com:443/",
    ] {
        let root = validate_public_url(candidate).expect("candidate should validate");
        assert_eq!(validate_public_url(&root), Some(root.clone()), "{candidate}");
    }
}

#[test]
fn an_origin_exists_exactly_for_validated_urls() {
    for candidate in [
        "https://safe.trycloudflare.com/path?token=secret#section",
        "https://Bright-Field.TryCloudflare.com",
        "https://trycloudflare.com.attacker.example",
        "http://safe.trycloudflare.com",
        "not a url",
    ] {
        assert_eq!(
            public_origin_of(candidate).is_some(),
            validate_public_url(candidate).is_some(),
            "{candidate}"
        );
    }
    assert_eq!(
        public_origin_of("https://Bright-Field.TryCloudflare.com/x?y#z"),
        Some("https://bright-field.trycloudflare.com".to_owned())
    );
}

#[test]
fn a_reported_url_validates_to_itself() {
    let mut extractor = PublicUrlExtractor::new().expect("regexes should compile");
    let reported = extractor
        .push(b"\x1b[1mhttps://Quick-Two.trycloudflare.com/ready?x=1\x1b[0m\n")
        .expect("a trusted URL should be reported");
    assert_eq!(reported, "https://quick-two.trycloudflare.com/");
    assert_eq!(validate_public_url(&reported), Some(reported.clone()));
}
