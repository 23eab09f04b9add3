use kurl::error::{invalid_status_error, summary, unreadable_header_error};
use kurl::{classify, format_reqwest_error, ClientError, Diagnostic, DiagnosticKind, ErrorCategory,
    TransportFailure};

fn failure(timeout: bool, connect: bool, redirect: bool, builder: bool) -> TransportFailure {
    TransportFailure {
        timeout,
        connect,
        redirect,
        builder,
        url: Some("https://example.com/".to_string()),
        detail: "it broke".to_string(),
    }
}

fn diagnostic(kind: DiagnosticKind, url: Option<&str>, detail: &str) -> Diagnostic {
    Diagnostic { kind, url: url.map(|u| u.to_string()), detail: detail.to_string() }
}

#[test]
fn classify_takes_the_first_kind_that_applies() {
    assert_eq!(classify(&failure(true, true, true, true)).kind, DiagnosticKind::Timeout);
    assert_eq!(classify(&failure(true, false, false, false)).kind, DiagnosticKind::Timeout);
    assert_eq!(classify(&failure(false, true, true, true)).kind, DiagnosticKind::ConnectFailure);
    assert_eq!(classify(&failure(false, false, true, true)).kind, DiagnosticKind::RedirectLoop);
    assert_eq!(
        classify(&failure(false, false, false, true)).kind,
        DiagnosticKind::RequestBuildFailure
    );
    assert_eq!(classify(&failure(false, false, false, false)).kind, DiagnosticKind::Other);
}

#[test]
fn classify_keeps_url_and_detail() {
    let d = classify(&failure(false, true, false, false));
    assert_eq!(d.url, Some("https://example.com/".to_string()));
    assert_eq!(d.detail, "it broke");
    let mut f = failure(false, false, false, false);
    f.url = None;
    assert_eq!(classify(&f), diagnostic(DiagnosticKind::Other, None, "it broke"));
}

#[test]
fn timeout_explanation() {
    let d = diagnostic(DiagnosticKind::Timeout, Some("https://example.com/"), "timed out");
    assert_eq!(
        format_reqwest_error(&d),
        "Connection to https://example.com/ timed out.\n\
         \nSuggestions:\n\
         - Check your network connection and proxy settings.\n\
         - The server might be slow or overloaded. Try increasing the timeout with --connect-timeout.\n"
    );
}

#[test]
fn timeout_explanation_for_github() {
    let d = diagnostic(DiagnosticKind::Timeout, Some("https://api.github.com/repos"), "x");
    assert_eq!(
        format_reqwest_error(&d),
        "Connection to https://api.github.com/repos timed out.\n\
         \nSuggestions:\n\
         - Check your network connection and proxy settings.\n\
         - The server might be slow or overloaded. Try increasing the timeout with --connect-timeout.\n\
         - Accessing GitHub from some regions can be slow. Consider using a VPN or a proxy.\n"
    );
}

#[test]
fn timeout_explanation_without_url() {
    let d = diagnostic(DiagnosticKind::Timeout, None, "github.com");
    assert_eq!(
        format_reqwest_error(&d),
        "Connection to the requested URL timed out.\n\
         \nSuggestions:\n\
         - Check your network connection and proxy settings.\n\
         - The server might be slow or overloaded. Try increasing the timeout with --connect-timeout.\n"
    );
}

#[test]
fn connect_explanation() {
    let d = diagnostic(DiagnosticKind::ConnectFailure, Some("http://nowhere.test/"), "dns error");
    assert_eq!(
        format_reqwest_error(&d),
        "Failed to connect to http://nowhere.test/.\n\
         \nSuggestions:\n\
         - Ensure the domain name is correct and the server is running.\n\
         - A firewall, proxy, or network restrictions might be blocking the connection.\n"
    );
}

#[test]
fn connect_explanation_for_certificate() {
    let d = diagnostic(
        DiagnosticKind::ConnectFailure,
        Some("https://self-signed.test/"),
        "invalid peer certificate: UnknownIssuer",
    );
    assert_eq!(
        format_reqwest_error(&d),
        "Failed to connect to https://self-signed.test/.\n\
         \nSuggestions:\n\
         - Ensure the domain name is correct and the server is running.\n\
         - A firewall, proxy, or network restrictions might be blocking the connection.\n\
         - The server's SSL certificate appears to be invalid. You can use the -k/--insecure flag to bypass this check (at your own risk).\n"
    );
}

#[test]
fn certificate_hint_reads_the_detail_not_the_url() {
    let d = diagnostic(DiagnosticKind::ConnectFailure, Some("https://certificate.test/"), "refused");
    assert!(!format_reqwest_error(&d).contains("SSL certificate"));
}

#[test]
fn redirect_explanation() {
    let d = diagnostic(DiagnosticKind::RedirectLoop, Some("http://loop.test/"), "x");
    assert_eq!(
        format_reqwest_error(&d),
        "Too many redirects for http://loop.test/.\n\
         \nSuggestions:\n\
         - The server may have a misconfigured redirect loop.\n\
         - Use `-v -v -v` to trace the redirect path.\n"
    );
}

#[test]
fn builder_explanation() {
    let d = diagnostic(DiagnosticKind::RequestBuildFailure, None, "builder error");
    assert_eq!(
        format_reqwest_error(&d),
        "Internal error: Failed to build the HTTP request for the requested URL.\n\
         \nSuggestions:\n\
         - Check that the URL is complete and well formed.\n\
         - Details: builder error\n"
    );
}

#[test]
fn other_explanation() {
    let d = diagnostic(DiagnosticKind::Other, Some("http://x.test/"), "error decoding body");
    assert_eq!(
        format_reqwest_error(&d),
        "An error occurred while processing the request to http://x.test/.\n\
         \nSuggestions:\n\
         - Use -v to trace the request and the response.\n\
         - Details: error decoding body\n"
    );
}

#[test]
fn every_explanation_has_a_summary_and_two_or_three_hints() {
    let kinds = [
        DiagnosticKind::Timeout,
        DiagnosticKind::ConnectFailure,
        DiagnosticKind::RedirectLoop,
        DiagnosticKind::RequestBuildFailure,
        DiagnosticKind::Other,
    ];
    let urls = [Some("https://github.com/x"), Some("http://plain.test/"), None];
    let details = ["bad certificate", "nothing special"];
    for kind in kinds {
        for url in urls {
            for detail in details {
                let text = format_reqwest_error(&diagnostic(kind, url, detail));
                let (head, hints) = text.split_once("\n\nSuggestions:\n").unwrap();
                assert!(!head.contains('\n'));
                assert!(head.contains(url.unwrap_or("the requested URL")));
                assert!(hints.ends_with('\n'));
                let lines: Vec<&str> = hints.lines().collect();
                assert!(lines.len() == 2 || lines.len() == 3);
                assert!(lines.iter().all(|l| l.starts_with("- ")));
                assert_eq!(summary(kind, url.unwrap_or("the requested URL")), head);
                let listed = kurl::error::hints(kind, url.unwrap_or("the requested URL"), detail);
                assert_eq!(listed.len(), lines.len());
                for (hint, line) in listed.iter().zip(lines.iter()) {
                    assert_eq!(format!("- {}", hint), *line);
                }
            }
        }
    }
}

#[test]
fn summaries() {
    assert_eq!(summary(DiagnosticKind::Timeout, "U"), "Connection to U timed out.");
    assert_eq!(summary(DiagnosticKind::ConnectFailure, "U"), "Failed to connect to U.");
    assert_eq!(summary(DiagnosticKind::RedirectLoop, "U"), "Too many redirects for U.");
    assert_eq!(
        summary(DiagnosticKind::RequestBuildFailure, "U"),
        "Internal error: Failed to build the HTTP request for U."
    );
    assert_eq!(
        summary(DiagnosticKind::Other, "U"),
        "An error occurred while processing the request to U."
    );
}

#[test]
fn messages_of_every_error() {
    assert_eq!(ClientError::HeaderFormat("x".to_string()).message(), "Invalid header format: x");
    assert_eq!(ClientError::InvalidHeaderName("no name".to_string()).message(), "no name");
    assert_eq!(ClientError::InvalidHeaderValue("no value".to_string()).message(), "no value");
    assert_eq!(
        ClientError::ResolveFormat("a:b".to_string()).message(),
        "Invalid resolve format: a:b. Expected <host>:<port>:<ip>"
    );
    assert_eq!(ClientError::ResolvePort("bad port".to_string()).message(), "bad port");
    assert_eq!(ClientError::ResolveAddress("bad address".to_string()).message(), "bad address");
    assert_eq!(
        ClientError::ConflictingBody.message(),
        "Cannot use both --data and --data-raw at the same time"
    );
    assert_eq!(ClientError::InvalidMethod("no method".to_string()).message(), "no method");
    assert_eq!(ClientError::RedirectLoopExceeded.message(), "Too many redirects");
    let d = diagnostic(DiagnosticKind::Other, None, "boom");
    assert_eq!(
        ClientError::Transport(d).message(),
        "An error occurred while processing the request to the requested URL.\n\
         \nSuggestions:\n\
         - Use -v to trace the request and the response.\n\
         - Details: boom\n"
    );
}

#[test]
fn categories_of_every_error() {
    assert_eq!(ClientError::HeaderFormat("x".to_string()).category(), ErrorCategory::Configuration);
    assert_eq!(ClientError::InvalidHeaderName("x".to_string()).category(), ErrorCategory::Configuration);
    assert_eq!(ClientError::InvalidHeaderValue("x".to_string()).category(), ErrorCategory::Configuration);
    assert_eq!(ClientError::ResolveFormat("x".to_string()).category(), ErrorCategory::Configuration);
    assert_eq!(ClientError::ResolvePort("x".to_string()).category(), ErrorCategory::Configuration);
    assert_eq!(ClientError::ResolveAddress("x".to_string()).category(), ErrorCategory::Configuration);
    assert_eq!(ClientError::ConflictingBody.category(), ErrorCategory::Configuration);
    assert_eq!(ClientError::InvalidMethod("x".to_string()).category(), ErrorCategory::Configuration);
    assert_eq!(
        ClientError::Transport(diagnostic(DiagnosticKind::Timeout, None, "")).category(),
        ErrorCategory::Transport
    );
    assert_eq!(unreadable_header_error("http://u.test/").category(), ErrorCategory::Transport);
    assert_eq!(invalid_status_error("http://u.test/").category(), ErrorCategory::Transport);
    assert_eq!(
        ClientError::RedirectLoopExceeded.category(),
        ErrorCategory::RedirectLoopExceeded
    );
}

#[test]
fn response_faults_are_explained_as_transport_failures() {
    assert_eq!(
        unreadable_header_error("http://u.test/"),
        ClientError::Transport(diagnostic(
            DiagnosticKind::Other,
            Some("http://u.test/"),
            "a response header holds a value that is no visible text"
        ))
    );
    assert_eq!(
        unreadable_header_error("http://u.test/").message(),
        "An error occurred while processing the request to http://u.test/.\n\
         \nSuggestions:\n\
         - Use -v to trace the request and the response.\n\
         - Details: a response header holds a value that is no visible text\n"
    );
    assert_eq!(
        invalid_status_error("http://u.test/"),
        ClientError::Transport(diagnostic(
            DiagnosticKind::Other,
            Some("http://u.test/"),
            "the status of the response is no status code"
        ))
    );
}

#[test]
fn report_line_names_the_tool() {
    assert_eq!(
        ClientError::RedirectLoopExceeded.report_line(),
        "kurl: error: Too many redirects"
    );
    assert_eq!(
        ClientError::HeaderFormat("abc".to_string()).report_line(),
        "kurl: error: Invalid header format: abc"
    );
}
