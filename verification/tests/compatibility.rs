use locaray::compatibility::{
    development_authority, serves_peer, translated_development_origin, PeerAddress,
};

const PUBLIC_ORIGIN: &str = "https://example.trycloudflare.com";

#[test]
fn rewrites_only_exact_validated_next_development_origins() {
    assert_eq!(
        translated_development_origin(
            "/_next/static/chunk.js",
            PUBLIC_ORIGIN,
            Some(PUBLIC_ORIGIN),
            3000,
        ),
        Some("http://localhost:3000".to_owned())
    );
    assert_eq!(
        translated_development_origin("/api/action", PUBLIC_ORIGIN, Some(PUBLIC_ORIGIN), 3000),
        None
    );
    assert_eq!(
        translated_development_origin(
            "/_next/static/chunk.js",
            "https://attacker.example",
            Some(PUBLIC_ORIGIN),
            3000,
        ),
        None
    );
    assert_eq!(
        translated_development_origin("/_next/static/chunk.js", PUBLIC_ORIGIN, None, 3000,),
        None
    );
}

#[test]
fn the_prefix_must_be_exact() {
    assert_eq!(
        translated_development_origin("/_next", PUBLIC_ORIGIN, Some(PUBLIC_ORIGIN), 80),
        None
    );
    assert_eq!(
        translated_development_origin("/_next/", PUBLIC_ORIGIN, Some(PUBLIC_ORIGIN), 65535),
        Some("http://localhost:65535".to_owned())
    );
    assert_eq!(development_authority(5173), "localhost:5173");
    assert_eq!(development_authority(0), "localhost:0");
}

#[test]
fn only_loopback_peers_are_served() {
    assert!(serves_peer(PeerAddress::V4(127, 0, 0, 1)));
    assert!(serves_peer(PeerAddress::V4(127, 1, 2, 3)));
    assert!(!serves_peer(PeerAddress::V4(10, 0, 0, 1)));
    assert!(serves_peer(PeerAddress::V6(0, 0, 0, 0, 0, 0, 0, 1)));
    assert!(!serves_peer(PeerAddress::V6(0, 0, 0, 0, 0, 0xffff, 0x7f00, 1)));
}
