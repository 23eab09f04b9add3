use kurl::engine::{failed_step, interrupt, redirect_target};
use kurl::error::{invalid_status_error, unreadable_header_error};
use kurl::{advance, decide, prepare, ClientError, Diagnostic, DiagnosticKind, Event, HopState,
    HttpVersion, Next, RequestConfig, ResponseHeader, ResponseSnapshot, Session, Step,
    TransportFailure, MAX_REDIRECTS};

const SEPARATOR: &str = "\n----------------------------------------\n";

fn config() -> RequestConfig {
    RequestConfig {
        url: "http://example.com/start".to_string(),
        method: "GET".to_string(),
        form_body: None,
        raw_body: None,
        headers: Vec::new(),
        cookie: None,
        follow_redirects: false,
        insecure_tls: false,
        head_only: false,
        trace: false,
        connect_timeout: None,
        resolve: Vec::new(),
        address_faults: Vec::new(),
        output_file: None,
    }
}

fn session(change: fn(&mut RequestConfig)) -> Session {
    let mut c = config();
    change(&mut c);
    prepare(&c).unwrap()
}

fn rh(name: &str, value: &[u8]) -> ResponseHeader {
    ResponseHeader { name: name.to_string(), value: value.to_vec() }
}

fn response(status: u16, headers: Vec<ResponseHeader>, body: &[u8]) -> ResponseSnapshot {
    ResponseSnapshot {
        version: HttpVersion::Http11,
        status,
        headers,
        body: body.to_vec(),
        url: "http://example.com/old/page".to_string(),
    }
}

fn redirect(location: &[u8]) -> ResponseSnapshot {
    response(302, vec![rh("location", location)], b"moved")
}

fn state(hops: u8) -> HopState {
    HopState { url: "http://example.com/old/page".to_string(), hops, method: "GET".to_string() }
}

fn step(s: &Session, hops: u8, r: ResponseSnapshot) -> Step {
    advance(s, &state(hops), &Event::Response(r))
}

#[test]
fn separator_has_forty_dashes() {
    assert_eq!(SEPARATOR.len(), 42);
    assert_eq!(MAX_REDIRECTS, 10);
}

#[test]
fn success_shows_header_block_then_body() {
    let s = session(|_| {});
    let out = step(&s, 0, response(200, vec![rh("content-type", b"text/plain")], b"hello"));
    assert_eq!(out.primary, b"HTTP/1.1 200 OK\ncontent-type: text/plain\n\nhello".to_vec());
    assert_eq!(out.file, None);
    assert_eq!(out.diagnostic, "");
    assert_eq!(out.warning, None);
    assert_eq!(out.next, Next::Done);
}

#[test]
fn body_bytes_are_kept_as_they_are() {
    let s = session(|_| {});
    let body = [0u8, 255, 10, 13, 128];
    let out = step(&s, 0, response(200, Vec::new(), &body));
    let mut expected = b"HTTP/1.1 200 OK\n\n".to_vec();
    expected.extend_from_slice(&body);
    assert_eq!(out.primary, expected);
}

#[test]
fn not_found_completes_with_body_and_warning() {
    let s = session(|_| {});
    let out = step(&s, 0, response(404, Vec::new(), b"no such page"));
    assert_eq!(out.primary, b"HTTP/1.1 404 Not Found\n\nno such page".to_vec());
    assert_eq!(out.warning, Some("Request failed with status: 404 Not Found".to_string()));
    assert_eq!(out.next, Next::Done);
}

#[test]
fn server_error_completes_even_when_following() {
    let s = session(|c| c.follow_redirects = true);
    let out = step(&s, 0, response(500, vec![rh("location", b"/elsewhere")], b"oops"));
    assert_eq!(out.next, Next::Done);
    assert_eq!(out.warning, Some("Request failed with status: 500 Internal Server Error".to_string()));
    assert_eq!(out.primary, b"HTTP/1.1 500 Internal Server Error\nlocation: /elsewhere\n\noops".to_vec());
}

#[test]
fn informational_status_warns() {
    let s = session(|_| {});
    let out = step(&s, 0, response(101, Vec::new(), b""));
    assert_eq!(out.warning, Some("Request failed with status: 101 Switching Protocols".to_string()));
    assert_eq!(out.next, Next::Done);
}

#[test]
fn unknown_status_has_stand_in_reason() {
    let s = session(|_| {});
    let out = step(&s, 0, response(299, Vec::new(), b""));
    assert_eq!(out.primary, b"HTTP/1.1 299 <unknown status code>\n\n".to_vec());
    assert_eq!(out.warning, None);
}

#[test]
fn redirect_is_not_followed_unless_asked() {
    let s = session(|_| {});
    let out = step(&s, 0, redirect(b"/new"));
    assert_eq!(out.next, Next::Done);
    assert_eq!(out.warning, None);
    assert_eq!(out.primary, b"HTTP/1.1 302 Found\nlocation: /new\n\nmoved".to_vec());
}

#[test]
fn redirect_is_followed_with_get_and_separator() {
    let s = session(|c| {
        c.follow_redirects = true;
        c.method = "POST".to_string();
    });
    let out = step(&s, 0, redirect(b"/new"));
    assert_eq!(
        out.next,
        Next::Continue(HopState {
            url: "http://example.com/new".to_string(),
            hops: 1,
            method: "GET".to_string(),
        })
    );
    let expected = format!("HTTP/1.1 302 Found\nlocation: /new\n\nmoved{}", SEPARATOR);
    assert_eq!(out.primary, expected.into_bytes());
    assert_eq!(out.warning, None);
}

#[test]
fn location_is_resolved_against_the_response_url() {
    let s = session(|c| c.follow_redirects = true);
    let target = |location: &[u8]| match step(&s, 0, redirect(location)).next {
        Next::Continue(st) => Some(st.url),
        _ => None,
    };
    assert_eq!(target(b"next"), Some("http://example.com/old/next".to_string()));
    assert_eq!(target(b"../up"), Some("http://example.com/up".to_string()));
    assert_eq!(target(b"/root?x=1"), Some("http://example.com/root?x=1".to_string()));
    assert_eq!(target(b"//other.test/p"), Some("http://other.test/p".to_string()));
    assert_eq!(target(b"https://secure.test/"), Some("https://secure.test/".to_string()));
    assert_eq!(target(b""), Some("http://example.com/old/page".to_string()));
}

#[test]
fn redirect_target_of_a_response() {
    assert_eq!(redirect_target(&redirect(b"/a")), Some("http://example.com/a".to_string()));
    assert_eq!(redirect_target(&response(200, vec![rh("location", b"/a")], b"")), None);
    assert_eq!(redirect_target(&response(301, Vec::new(), b"")), None);
    assert_eq!(redirect_target(&redirect(b"http://[broken")), None);
    assert_eq!(redirect_target(&redirect(&[0xff])), None);
    let mut odd = redirect(b"/a");
    odd.url = "not a url".to_string();
    assert_eq!(redirect_target(&odd), None);
}

#[test]
fn redirect_without_location_ends_the_run() {
    let s = session(|c| c.follow_redirects = true);
    let out = step(&s, 0, response(304, Vec::new(), b""));
    assert_eq!(out.next, Next::Done);
    assert_eq!(out.primary, b"HTTP/1.1 304 Not Modified\n\n".to_vec());
}

#[test]
fn redirect_with_location_that_makes_no_url_ends_the_run() {
    let s = session(|c| {
        c.follow_redirects = true;
        c.trace = true;
    });
    let out = step(&s, 0, redirect(b"http://[broken"));
    assert_eq!(out.next, Next::Done);
    let out = step(&s, 0, redirect(&[0xff, 0xfe]));
    assert_eq!(out.next, Next::Done);
}

#[test]
fn success_with_location_is_not_a_redirect() {
    let s = session(|c| c.follow_redirects = true);
    let out = step(&s, 0, response(201, vec![rh("location", b"/created")], b""));
    assert_eq!(out.next, Next::Done);
}

#[test]
fn tenth_redirect_is_followed() {
    let s = session(|c| c.follow_redirects = true);
    let out = step(&s, 9, redirect(b"/new"));
    assert_eq!(
        out.next,
        Next::Continue(HopState {
            url: "http://example.com/new".to_string(),
            hops: 10,
            method: "GET".to_string(),
        })
    );
}

#[test]
fn eleventh_redirect_fails_after_showing_the_hop() {
    let s = session(|c| c.follow_redirects = true);
    let out = step(&s, 10, redirect(b"/new"));
    assert_eq!(out.next, Next::Failed(ClientError::RedirectLoopExceeded));
    assert_eq!(out.primary, b"HTTP/1.1 302 Found\nlocation: /new\n\nmoved".to_vec());
}

#[test]
fn hop_limit_does_not_matter_without_redirect() {
    let s = session(|c| c.follow_redirects = true);
    assert_eq!(step(&s, 10, response(200, Vec::new(), b"")).next, Next::Done);
    let s = session(|_| {});
    assert_eq!(step(&s, 10, redirect(b"/new")).next, Next::Done);
}

#[test]
fn head_only_shows_no_body() {
    let s = session(|c| c.head_only = true);
    let out = step(&s, 0, response(200, vec![rh("content-length", b"5")], b"hello"));
    assert_eq!(out.primary, b"HTTP/1.1 200 OK\ncontent-length: 5\n\n".to_vec());
    assert_eq!(out.file, None);
}

#[test]
fn head_only_does_not_warn() {
    let s = session(|c| c.head_only = true);
    let out = step(&s, 0, response(404, Vec::new(), b"ignored"));
    assert_eq!(out.warning, None);
    assert_eq!(out.primary, b"HTTP/1.1 404 Not Found\n\n".to_vec());
    assert_eq!(out.next, Next::Done);
}

#[test]
fn head_only_with_file_writes_an_empty_file() {
    let s = session(|c| {
        c.head_only = true;
        c.output_file = Some("out".to_string());
    });
    let out = step(&s, 0, response(200, Vec::new(), b"hello"));
    assert_eq!(out.primary, b"HTTP/1.1 200 OK\n\n".to_vec());
    assert_eq!(out.file, Some(Vec::new()));
}

#[test]
fn head_only_in_trace_mode_puts_nothing_on_primary() {
    let s = session(|c| {
        c.head_only = true;
        c.trace = true;
    });
    let out = step(&s, 0, response(200, Vec::new(), b"hello"));
    assert_eq!(out.primary, Vec::<u8>::new());
    assert_eq!(out.diagnostic, "< HTTP/1.1 200 OK\n<\n");
}

#[test]
fn file_takes_the_body_and_primary_the_header_block() {
    let plain = session(|_| {});
    let filed = session(|c| c.output_file = Some("out.bin".to_string()));
    let r = response(200, vec![rh("etag", b"\"x\"")], &[1, 2, 3, 0, 255]);
    let a = step(&plain, 0, r.clone());
    let b = step(&filed, 0, r);
    assert_eq!(b.primary, b"HTTP/1.1 200 OK\netag: \"x\"\n\n".to_vec());
    assert_eq!(b.file, Some(vec![1, 2, 3, 0, 255]));
    let mut joined = b.primary.clone();
    joined.extend_from_slice(&b.file.unwrap());
    assert_eq!(a.primary, joined);
    assert_eq!(a.file, None);
}

#[test]
fn file_and_followed_redirect() {
    let s = session(|c| {
        c.output_file = Some("out.bin".to_string());
        c.follow_redirects = true;
    });
    let out = step(&s, 0, redirect(b"/new"));
    let expected = format!("HTTP/1.1 302 Found\nlocation: /new\n\n{}", SEPARATOR);
    assert_eq!(out.primary, expected.into_bytes());
    assert_eq!(out.file, Some(b"moved".to_vec()));
}

#[test]
fn trace_mode_sends_metadata_to_the_diagnostic_stream() {
    let s = session(|c| c.trace = true);
    let out = step(&s, 0, response(200, vec![rh("content-type", b"text/plain")], b"hello"));
    assert_eq!(out.diagnostic, "< HTTP/1.1 200 OK\n< content-type: text/plain\n<\n");
    assert_eq!(out.primary, b"hello".to_vec());
}

#[test]
fn trace_mode_with_file_leaves_primary_empty() {
    let s = session(|c| {
        c.trace = true;
        c.output_file = Some("out".to_string());
    });
    let out = step(&s, 0, response(200, Vec::new(), b"hello"));
    assert_eq!(out.primary, Vec::<u8>::new());
    assert_eq!(out.file, Some(b"hello".to_vec()));
}

#[test]
fn trace_mode_followed_redirect_keeps_separator_on_primary() {
    let s = session(|c| {
        c.trace = true;
        c.follow_redirects = true;
    });
    let out = step(&s, 0, redirect(b"/new"));
    assert_eq!(out.primary, format!("moved{}", SEPARATOR).into_bytes());
    assert_eq!(out.diagnostic, "< HTTP/1.1 302 Found\n< location: /new\n<\n");
}

#[test]
fn unreadable_header_fails_in_normal_mode() {
    let s = session(|_| {});
    let out = step(&s, 0, response(200, vec![rh("x-bin", &[0xff])], b"hello"));
    assert_eq!(out, failed_step(unreadable_header_error("http://example.com/old/page")));
    assert_eq!(out.primary, Vec::<u8>::new());
    assert_eq!(out.next, Next::Failed(unreadable_header_error("http://example.com/old/page")));
}

#[test]
fn unreadable_header_is_shown_in_trace_mode() {
    let s = session(|c| c.trace = true);
    let out = step(&s, 0, response(200, vec![rh("x-bin", &[0xff])], b"hello"));
    assert_eq!(out.diagnostic, "< HTTP/1.1 200 OK\n< x-bin: [non-ascii]\n<\n");
    assert_eq!(out.next, Next::Done);
    assert_eq!(out.primary, b"hello".to_vec());
}

#[test]
fn status_outside_the_codes_fails() {
    let s = session(|_| {});
    assert_eq!(step(&s, 0, response(99, Vec::new(), b"x")), failed_step(invalid_status_error("http://example.com/old/page")));
    assert_eq!(step(&s, 0, response(1000, Vec::new(), b"x")), failed_step(invalid_status_error("http://example.com/old/page")));
    assert_eq!(step(&s, 0, response(0, Vec::new(), b"x")).next, Next::Failed(invalid_status_error("http://example.com/old/page")));
}

#[test]
fn other_versions_in_status_line() {
    let s = session(|_| {});
    let mut r = response(200, Vec::new(), b"");
    r.version = HttpVersion::H2;
    assert_eq!(step(&s, 0, r).primary, b"HTTP/2.0 200 OK\n\n".to_vec());
}

#[test]
fn transport_failure_fails_the_run_classified() {
    let s = session(|_| {});
    let failure = TransportFailure {
        timeout: false,
        connect: true,
        redirect: false,
        builder: false,
        url: Some("http://example.com/start".to_string()),
        detail: "connection refused".to_string(),
    };
    let out = advance(&s, &state(0), &Event::Failure(failure));
    let expected = ClientError::Transport(Diagnostic {
        kind: DiagnosticKind::ConnectFailure,
        url: Some("http://example.com/start".to_string()),
        detail: "connection refused".to_string(),
    });
    assert_eq!(out, failed_step(expected.clone()));
    assert_eq!(out.next, Next::Failed(expected));
    assert_eq!(out.primary, Vec::<u8>::new());
    assert_eq!(out.diagnostic, "");
}

#[test]
fn decide_takes_words_and_candidate_as_given() {
    let s = session(|c| c.follow_redirects = true);
    let r = response(200, Vec::new(), b"body");
    let out = decide(&s, &state(3), &r, "200 Fine", Some("http://next.test/".to_string()));
    assert_eq!(out.primary, format!("HTTP/1.1 200 Fine\n\nbody{}", SEPARATOR).into_bytes());
    assert_eq!(
        out.next,
        Next::Continue(HopState { url: "http://next.test/".to_string(), hops: 4, method: "GET".to_string() })
    );
    let out = decide(&s, &state(3), &r, "200 Fine", None);
    assert_eq!(out.primary, b"HTTP/1.1 200 Fine\n\nbody".to_vec());
    assert_eq!(out.next, Next::Done);
}

#[test]
fn decide_warns_by_status_alone() {
    let s = session(|_| {});
    let r = response(418, Vec::new(), b"");
    let out = decide(&s, &state(0), &r, "teapot", None);
    assert_eq!(out.warning, Some("Request failed with status: teapot".to_string()));
}

fn read_failure() -> TransportFailure {
    TransportFailure {
        timeout: false,
        connect: false,
        redirect: false,
        builder: false,
        url: Some("http://example.com/old/page".to_string()),
        detail: "unexpected end of file".to_string(),
    }
}

fn read_error() -> ClientError {
    ClientError::Transport(Diagnostic {
        kind: DiagnosticKind::Other,
        url: Some("http://example.com/old/page".to_string()),
        detail: "unexpected end of file".to_string(),
    })
}

#[test]
fn truncated_response_fails_with_the_reading_and_shows_nothing() {
    let s = session(|_| {});
    let r = response(200, vec![rh("content-type", b"text/plain")], b"");
    let out = advance(&s, &state(0), &Event::Truncated(r, read_failure()));
    assert_eq!(out, failed_step(read_error()));
    assert_eq!(out.primary, Vec::<u8>::new());
    assert_eq!(out.diagnostic, "");
    assert_eq!(out.file, None);
}

#[test]
fn truncated_response_is_still_traced() {
    let s = session(|c| {
        c.trace = true;
        c.output_file = Some("out".to_string());
    });
    let r = response(200, vec![rh("content-type", b"text/plain")], b"");
    let out = advance(&s, &state(0), &Event::Truncated(r, read_failure()));
    assert_eq!(out.diagnostic, "< HTTP/1.1 200 OK\n< content-type: text/plain\n<\n");
    assert_eq!(out.primary, Vec::<u8>::new());
    assert_eq!(out.file, None);
    assert_eq!(out.warning, None);
    assert_eq!(out.next, Next::Failed(read_error()));
}

#[test]
fn truncated_eleventh_redirect_fails_with_the_reading() {
    let s = session(|c| c.follow_redirects = true);
    let out = advance(&s, &state(10), &Event::Truncated(redirect(b"/new"), read_failure()));
    assert_eq!(out.next, Next::Failed(read_error()));
    assert_eq!(out.primary, Vec::<u8>::new());
}

#[test]
fn truncated_response_with_unreadable_header_fails_on_the_header() {
    let s = session(|_| {});
    let r = response(200, vec![rh("x-bin", &[0xff])], b"");
    let out = advance(&s, &state(0), &Event::Truncated(r.clone(), read_failure()));
    assert_eq!(out, failed_step(unreadable_header_error("http://example.com/old/page")));
    let s = session(|c| c.trace = true);
    let out = advance(&s, &state(0), &Event::Truncated(r, read_failure()));
    assert_eq!(out.next, Next::Failed(read_error()));
    assert_eq!(out.diagnostic, "< HTTP/1.1 200 OK\n< x-bin: [non-ascii]\n<\n");
}

#[test]
fn truncated_response_without_status_code_fails_on_the_status() {
    let s = session(|_| {});
    let out = advance(&s, &state(0), &Event::Truncated(response(42, Vec::new(), b""), read_failure()));
    assert_eq!(out, failed_step(invalid_status_error("http://example.com/old/page")));
}

#[test]
fn interrupt_takes_the_words_as_given() {
    let s = session(|c| c.trace = true);
    let r = response(200, Vec::new(), b"");
    let out = interrupt(&s, &r, "200 Fine", &read_failure());
    assert_eq!(out.diagnostic, "< HTTP/1.1 200 Fine\n<\n");
    assert_eq!(out.next, Next::Failed(read_error()));
}
