use local_runtime::destination::{
    check_url_parts, classify_destination, is_endpoint_form_valid,
    is_endpoint_form_valid_for_reachability, is_local_or_private_host, url_problem_text,
    validate_url, CustomEndpointReachability, DestinationClass, UrlHost, UrlParts, UrlProblem,
};

const REMOTE: CustomEndpointReachability = CustomEndpointReachability::RemoteServerReachable;
const LOCAL: CustomEndpointReachability = CustomEndpointReachability::LocalClientReachable;

#[test]
fn validate_url_accepts_https_with_host() {
    assert!(validate_url("https://api.example.com/v1", REMOTE).is_ok());
    assert!(validate_url("https://example.com", REMOTE).is_ok());
    assert!(validate_url("https://8.8.8.8/v1", REMOTE).is_ok());
}

#[test]
fn validate_url_rejects_http() {
    assert_eq!(
        validate_url("http://api.example.com/v1", REMOTE),
        Err("URL must use HTTPS")
    );
    assert_eq!(
        validate_url("http://example.com", REMOTE),
        Err("URL must use HTTPS")
    );
}

#[test]
fn validate_url_rejects_ftp_and_other_schemes() {
    assert_eq!(
        validate_url("ftp://files.example.com", REMOTE),
        Err("URL must use HTTPS")
    );
    assert_eq!(
        validate_url("file:///etc/passwd", REMOTE),
        Err("URL must use HTTPS")
    );
    assert_eq!(
        validate_url("ws://socket.example.com", REMOTE),
        Err("URL must use HTTPS")
    );
}

#[test]
fn validate_url_rejects_malformed_strings() {
    assert_eq!(validate_url("not a url", REMOTE), Err("Invalid URL"));
    assert_eq!(validate_url("https://", REMOTE), Err("Invalid URL"));
}

#[test]
fn validate_url_rejects_empty_host() {
    assert_eq!(validate_url("https://?query=1", REMOTE), Err("Invalid URL"));
}

#[test]
fn validate_url_allows_empty_string() {
    assert!(validate_url("", REMOTE).is_ok());
}

#[test]
fn validate_url_allows_whitespace_only() {
    assert!(validate_url("   ", REMOTE).is_ok());
}

#[test]
fn validate_url_rejects_localhost_and_private_ips() {
    let error = Err("URL must not use a local or private host");
    assert_eq!(validate_url("https://localhost:8080", REMOTE), error);
    assert_eq!(validate_url("https://127.0.0.1/v1", REMOTE), error);
    assert_eq!(validate_url("https://0.0.0.0/v1", REMOTE), error);
    assert_eq!(validate_url("https://10.0.0.1/v1", REMOTE), error);
    assert_eq!(validate_url("https://172.16.0.1/v1", REMOTE), error);
    assert_eq!(validate_url("https://192.168.0.1/v1", REMOTE), error);
    assert_eq!(validate_url("https://169.254.0.1/v1", REMOTE), error);
    assert_eq!(validate_url("https://[::1]/v1", REMOTE), error);
    assert_eq!(validate_url("https://[::]/v1", REMOTE), error);
    assert_eq!(validate_url("https://[fc00::1]/v1", REMOTE), error);
    assert_eq!(validate_url("https://[fe80::1]/v1", REMOTE), error);
    assert_eq!(
        validate_url("https://[::ffff:192.168.0.1]/v1", REMOTE),
        error
    );
}

#[test]
fn validate_url_local_mode_accepts_local_and_private_hosts() {
    assert!(validate_url("https://slacstudio.local:4443/v1", LOCAL).is_ok());
    assert!(validate_url("http://localhost:4000/v1", LOCAL).is_ok());
    assert!(validate_url("http://127.0.0.1/v1", LOCAL).is_ok());
    assert!(validate_url("https://10.0.0.1/v1", LOCAL).is_ok());
    assert!(validate_url("https://192.168.1.12/v1", LOCAL).is_ok());
    assert!(validate_url("http://[::1]/v1", LOCAL).is_ok());
}

#[test]
fn validate_url_local_mode_rejects_non_http_schemes() {
    assert_eq!(
        validate_url("ftp://localhost/v1", LOCAL),
        Err("URL must use HTTP or HTTPS")
    );
}

#[test]
fn endpoint_form_valid_rejects_invalid_current_url() {
    assert!(!is_endpoint_form_valid(
        "Endpoint",
        "http://api.example.com/v1",
        "key",
        true
    ));
}

#[test]
fn endpoint_form_valid_requires_non_empty_url() {
    assert!(!is_endpoint_form_valid("Endpoint", "", "key", true));
    assert!(!is_endpoint_form_valid("Endpoint", "   ", "key", true));
}

#[test]
fn endpoint_form_valid_accepts_complete_valid_form() {
    assert!(is_endpoint_form_valid(
        "Endpoint",
        "https://api.example.com/v1",
        "key",
        true
    ));
}

#[test]
fn endpoint_form_valid_accepts_local_mode_local_url() {
    assert!(is_endpoint_form_valid_for_reachability(
        "Endpoint",
        "http://localhost:4000/v1",
        "key",
        true,
        LOCAL
    ));
}

#[test]
fn endpoint_form_valid_accepts_local_mode_without_api_key() {
    assert!(is_endpoint_form_valid_for_reachability(
        "Ollama",
        "http://localhost:11434/v1",
        "",
        true,
        LOCAL
    ));
}

#[test]
fn endpoint_form_valid_requires_api_key_for_remote_mode() {
    assert!(!is_endpoint_form_valid_for_reachability(
        "Remote",
        "https://api.example.com/v1",
        "",
        true,
        REMOTE
    ));
}

#[test]
fn surrounding_white_space_is_trimmed() {
    assert!(validate_url("\u{a0} https://example.com\t", REMOTE).is_ok());
    assert!(validate_url("\u{3000}\u{2003}\n", REMOTE).is_ok());
    assert!(!is_endpoint_form_valid("Endpoint", "\u{3000}", "key", true));
}

#[test]
fn local_names_are_no_remote_hosts() {
    let error = Err("URL must not use a local or private host");
    assert_eq!(validate_url("https://LOCALHOST", REMOTE), error);
    assert_eq!(validate_url("https://studio.local/v1", REMOTE), error);
    assert_eq!(validate_url("https://172.31.255.255", REMOTE), error);
    assert_eq!(validate_url("https://[fdff::1]", REMOTE), error);
    assert_eq!(validate_url("https://[febf::1]", REMOTE), error);
    assert!(validate_url("https://172.32.0.1", REMOTE).is_ok());
    assert!(validate_url("https://172.15.0.1", REMOTE).is_ok());
    assert!(validate_url("https://[fec0::1]", REMOTE).is_ok());
    assert!(validate_url("https://[::2]", REMOTE).is_ok());
    assert!(validate_url("https://[::ffff:8.8.8.8]", REMOTE).is_ok());
    assert!(validate_url("https://mylocal", REMOTE).is_ok());
    assert!(validate_url("https://localhost.example.com", REMOTE).is_ok());
}

#[test]
fn local_mode_rejects_what_is_no_url() {
    assert_eq!(validate_url("not a url", LOCAL), Err("Invalid URL"));
    assert_eq!(validate_url("http://", LOCAL), Err("Invalid URL"));
    assert!(validate_url("", LOCAL).is_ok());
}

#[test]
fn what_a_server_may_call_the_device_may_call() {
    for url in ["https://api.example.com/v1", "https://8.8.8.8", "   "] {
        assert!(validate_url(url, REMOTE).is_ok());
        assert!(validate_url(url, LOCAL).is_ok());
    }
}

#[test]
fn endpoint_form_needs_a_name_and_a_model() {
    let url = "https://api.example.com/v1";
    assert!(!is_endpoint_form_valid("", url, "key", true));
    assert!(!is_endpoint_form_valid(" \t", url, "key", true));
    assert!(!is_endpoint_form_valid("Endpoint", url, "key", false));
    assert!(!is_endpoint_form_valid("Endpoint", url, "  ", true));
}

fn parts(scheme: &str, host: Option<UrlHost>) -> Option<UrlParts> {
    Some(UrlParts {
        scheme: scheme.to_string(),
        host,
    })
}

#[test]
fn url_parts_are_judged_by_scheme_and_host() {
    let public = || Some(UrlHost::Domain("example.com".to_string()));
    let private = || Some(UrlHost::Ipv4([10, 1, 2, 3]));
    assert_eq!(check_url_parts(&None, REMOTE), Some(UrlProblem::Invalid));
    assert_eq!(
        check_url_parts(&parts("http", public()), REMOTE),
        Some(UrlProblem::NotHttps)
    );
    assert_eq!(
        check_url_parts(&parts("https", None), REMOTE),
        Some(UrlProblem::Invalid)
    );
    assert_eq!(
        check_url_parts(&parts("https", private()), REMOTE),
        Some(UrlProblem::LocalHost)
    );
    assert_eq!(check_url_parts(&parts("https", public()), REMOTE), None);
    assert_eq!(check_url_parts(&parts("http", private()), LOCAL), None);
    assert_eq!(check_url_parts(&parts("http", public()), LOCAL), None);
    assert_eq!(
        check_url_parts(&parts("ws", private()), LOCAL),
        Some(UrlProblem::NotHttp)
    );
    assert_eq!(
        check_url_parts(&parts("http", None), LOCAL),
        Some(UrlProblem::Invalid)
    );
    assert_eq!(url_problem_text(UrlProblem::Invalid), "Invalid URL");
}

#[test]
fn destinations_are_local_or_remote() {
    let class = |host: Option<UrlHost>| classify_destination(&parts("http", host).unwrap());
    let domain = |name: &str| Some(UrlHost::Domain(name.to_string()));
    assert_eq!(class(domain("localhost")), DestinationClass::LocalEndpoint);
    assert_eq!(class(domain("a.local")), DestinationClass::LocalEndpoint);
    assert_eq!(class(domain("a.local.com")), DestinationClass::Remote);
    assert_eq!(
        class(Some(UrlHost::Ipv4([127, 9, 9, 9]))),
        DestinationClass::LocalEndpoint
    );
    assert_eq!(
        class(Some(UrlHost::Ipv4([1, 1, 1, 1]))),
        DestinationClass::Remote
    );
    assert!(is_local_or_private_host(&UrlHost::Ipv6([
        0, 0, 0, 0, 0, 0, 0, 1
    ])));
    assert_eq!(class(None), DestinationClass::Remote);
}
