use ollama_client::endpoint::{denotes_loopback, resolve, Endpoint, Scheme, INFERENCE_PORT};

#[test]
fn the_fixed_port_is_the_inference_port() {
    assert_eq!(INFERENCE_PORT, 11434);
    assert_eq!(Endpoint::local().port(), 11434);
    assert_eq!(Endpoint::remote("10.0.0.5").port(), 11434);
}

#[test]
fn local_endpoint_is_localhost_over_http() {
    let local = Endpoint::local();
    assert_eq!(local.host(), "localhost");
    assert_eq!(local.scheme(), Scheme::Http);
    assert_eq!(local.base_url(), "http://localhost");
    assert_eq!(local.url(), "http://localhost:11434");
}

#[test]
fn remote_endpoint_keeps_the_host_as_given() {
    let remote = Endpoint::remote("192.168.1.20");
    assert_eq!(remote.host(), "192.168.1.20");
    assert_eq!(remote.base_url(), "http://192.168.1.20");
    assert_eq!(remote.url(), "http://192.168.1.20:11434");
}

#[test]
fn endpoint_new_keeps_scheme_host_and_port() {
    let e = Endpoint::new(Scheme::Https, String::from("models.example"), 443);
    assert_eq!(e.scheme(), Scheme::Https);
    assert_eq!(e.host(), "models.example");
    assert_eq!(e.port(), 443);
    assert_eq!(e.url(), "https://models.example:443");
}

#[test]
fn endpoints_are_equal_when_host_and_port_match() {
    let a = Endpoint::new(Scheme::Http, String::from("box"), 11434);
    let b = Endpoint::new(Scheme::Https, String::from("box"), 11434);
    let other_port = Endpoint::new(Scheme::Http, String::from("box"), 8080);
    let other_host = Endpoint::new(Scheme::Http, String::from("bax"), 11434);
    assert!(a == b);
    assert!(a.same_server(&b));
    assert!(a != other_port);
    assert!(!a.same_server(&other_port));
    assert!(a != other_host);
    assert!(!a.same_server(&other_host));
    assert!(a.clone() == a);
}

#[test]
fn denotes_loopback_takes_the_two_names_only() {
    assert!(denotes_loopback("localhost"));
    assert!(denotes_loopback("127.0.0.1"));
    assert!(!denotes_loopback("192.168.0.7"));
    assert!(!denotes_loopback("LOCALHOST"));
    assert!(!denotes_loopback(""));
    assert!(!denotes_loopback("127.0.0.2"));
}

#[test]
fn a_host_that_only_holds_a_loopback_name_is_not_loopback() {
    assert!(!denotes_loopback("10.127.0.0.10"));
    assert!(!denotes_loopback("my.localhost.lan"));
    assert!(!denotes_loopback("127.0.0.1:8080"));
    assert!(!denotes_loopback("localhost "));
    assert!(!denotes_loopback(" 127.0.0.1"));
    assert!(!denotes_loopback("localhos"));
    assert!(!denotes_loopback("127.0.0.10"));
}

#[test]
fn resolve_prefers_a_remote_host_that_holds_a_loopback_name() {
    for host in ["10.127.0.0.10", "my.localhost.lan"] {
        let (preferred, fallback) = resolve(false, Some(host));
        assert_eq!(preferred.host(), host);
        assert_eq!(preferred.port(), 11434);
        assert_eq!(preferred.scheme(), Scheme::Http);
        assert!(!preferred.is_loopback());
        let fallback = fallback.expect("a remote host has the local server as fallback");
        assert_eq!(fallback.url(), "http://localhost:11434");
        assert!(preferred != fallback);
    }
    let (preferred, _) = resolve(false, Some("10.127.0.0.10"));
    assert_eq!(preferred.url(), "http://10.127.0.0.10:11434");
}

#[test]
fn resolve_goes_local_on_the_explicit_flag() {
    let (preferred, fallback) = resolve(true, Some("192.168.0.7"));
    assert_eq!(preferred.url(), "http://localhost:11434");
    assert!(fallback.is_none());
}

#[test]
fn resolve_goes_local_without_a_remote_host() {
    let (preferred, fallback) = resolve(false, None);
    assert_eq!(preferred.url(), "http://localhost:11434");
    assert!(fallback.is_none());
}

#[test]
fn resolve_goes_local_when_the_remote_host_is_loopback() {
    for host in ["localhost", "127.0.0.1"] {
        let (preferred, fallback) = resolve(false, Some(host));
        assert_eq!(preferred.url(), "http://localhost:11434");
        assert!(fallback.is_none());
    }
}

#[test]
fn resolve_prefers_the_remote_host_and_falls_back_to_local() {
    let (preferred, fallback) = resolve(false, Some("192.168.0.7"));
    assert_eq!(preferred.url(), "http://192.168.0.7:11434");
    assert_eq!(preferred.scheme(), Scheme::Http);
    let fallback = fallback.expect("a remote host has the local server as fallback");
    assert_eq!(fallback.url(), "http://localhost:11434");
    assert!(preferred != fallback);
}

#[test]
fn is_loopback_tells_local_from_remote() {
    assert!(Endpoint::local().is_loopback());
    assert!(Endpoint::remote("127.0.0.1").is_loopback());
    assert!(!Endpoint::remote("192.168.0.7").is_loopback());
    assert!(!Endpoint::remote("10.127.0.0.10").is_loopback());
}
