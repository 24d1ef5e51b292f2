use singboard::network::{
    dns_server_forms, dns_source, lookup_name, normalize_dns_domain, normalize_dns_server,
    parse_record_type, resolve_dns_server, system_proxy_url,
};

#[test]
fn system_proxy_is_read_from_the_setting() {
    assert_eq!(system_proxy_url(0, "127.0.0.1:7890"), None);
    assert_eq!(system_proxy_url(1, ""), None);
    assert_eq!(system_proxy_url(1, "127.0.0.1:7890"), Some("http://127.0.0.1:7890".to_owned()));
    assert_eq!(system_proxy_url(1, "https://proxy:443"), Some("https://proxy:443".to_owned()));
    assert_eq!(
        system_proxy_url(1, "https=secure:443;http=plain:80"),
        Some("http://plain:80".to_owned())
    );
    assert_eq!(
        system_proxy_url(1, "https=secure:443;socks=s:1080"),
        Some("http://https=secure:443".to_owned())
    );
    assert_eq!(system_proxy_url(1, "http=http=x:1"), Some("http://x:1".to_owned()));
    assert_eq!(system_proxy_url(1, "http=;https=x:1"), None);
}

fn resolve(server: &str, whole_is_ip: bool, host_is_ip: bool) -> Result<(String, u16), String> {
    let forms = dns_server_forms(server)?;
    resolve_dns_server(&forms, whole_is_ip, host_is_ip)
}

#[test]
fn dns_servers_are_addresses_with_an_optional_port() {
    assert_eq!(dns_server_forms("   ").err(), Some("DNS server is empty".to_owned()));
    let forms = dns_server_forms(" [::1]:5353 ").unwrap();
    assert_eq!(forms.whole, "[::1]:5353");
    assert_eq!(forms.host_port, Some(("::1".to_owned(), "5353".to_owned())));
    let forms = dns_server_forms("8.8.8.8").unwrap();
    assert_eq!(forms.host_port, None);
    assert_eq!(resolve("8.8.8.8", true, false), Ok(("8.8.8.8".to_owned(), 53)));
    assert_eq!(resolve("::1", true, true), Ok(("::1".to_owned(), 53)));
    assert_eq!(resolve("1.1.1.1:5353", false, true), Ok(("1.1.1.1".to_owned(), 5353)));
    assert_eq!(resolve("[::1]:53", false, true), Ok(("::1".to_owned(), 53)));
    assert_eq!(resolve("dns.google:53", false, false), Err("DNS server must be an IP address".to_owned()));
    assert_eq!(resolve("dns.google", false, false), Err("DNS server must be an IP address".to_owned()));
    assert_eq!(resolve("1.1.1.1:65536", false, true), Err("DNS server port is invalid".to_owned()));
    assert_eq!(resolve("1.1.1.1:+53", false, true), Ok(("1.1.1.1".to_owned(), 53)));
    assert_eq!(resolve("1.1.1.1:", false, true), Err("DNS server port is invalid".to_owned()));
}

#[test]
fn record_types_are_parsed_by_name() {
    assert_eq!(parse_record_type(" aaaa "), Ok(28));
    assert_eq!(parse_record_type("A"), Ok(1));
    assert_eq!(parse_record_type("mx"), Ok(15));
    assert_eq!(parse_record_type("txt"), Ok(16));
    assert_eq!(parse_record_type("any"), Ok(255));
    assert_eq!(parse_record_type("*"), Ok(255));
    assert_eq!(parse_record_type("https"), Ok(65));
    assert_eq!(parse_record_type("  "), Err("DNS record type is empty".to_owned()));
    assert_eq!(parse_record_type("bogus"), Err("unsupported DNS record type: BOGUS".to_owned()));
}

#[test]
fn dns_query_inputs_are_normalised() {
    assert_eq!(normalize_dns_domain(" example.com.. "), Ok("example.com".to_owned()));
    assert_eq!(normalize_dns_domain(" . "), Err("domain is empty".to_owned()));
    assert_eq!(lookup_name("example.com"), "example.com.");
    assert_eq!(normalize_dns_server(Some(" 1.1.1.1 ".to_owned())), Some("1.1.1.1".to_owned()));
    assert_eq!(normalize_dns_server(Some("  ".to_owned())), None);
    assert_eq!(normalize_dns_server(None), None);
    assert_eq!(dns_source(&Some("1.1.1.1".to_owned())), "custom");
    assert_eq!(dns_source(&None), "system");
}
