use kurl::plan::{copy_header, headers_for, render_request_trace, trace_value};
use kurl::text::copy_text;
use kurl::{plan_request, prepare, Header, HopState, RequestConfig, Session};

fn config(url: &str) -> RequestConfig {
    RequestConfig {
        url: url.to_string(),
        method: "GET".to_string(),
        form_body: None,
        raw_body: None,
        headers: Vec::new(),
        cookie: None,
        follow_redirects: false,
        insecure_tls: false,
        head_only: false,
        trace: false,
        connect_timeout: None,
        resolve: Vec::new(),
        address_faults: Vec::new(),
        output_file: None,
    }
}

fn header(name: &str, value: &str) -> Header {
    Header { name: name.to_string(), value: value.to_string() }
}

fn session(c: &RequestConfig) -> Session {
    prepare(c).unwrap()
}

#[test]
fn plan_of_plain_get() {
    let s = session(&config("example.com"));
    let plan = plan_request(&s, &s.first_hop());
    assert_eq!(plan.method, "GET");
    assert_eq!(plan.url, "http://example.com");
    assert_eq!(plan.headers, Vec::<Header>::new());
    assert_eq!(plan.body, None);
    assert!(plan.read_body);
    assert_eq!(plan.trace, "");
}

#[test]
fn plan_form_post_adds_content_type() {
    let mut c = config("https://example.com/submit");
    c.form_body = Some("a=1".to_string());
    c.headers = vec!["Accept: */*".to_string()];
    let s = session(&c);
    let plan = plan_request(&s, &s.first_hop());
    assert_eq!(plan.method, "POST");
    assert_eq!(plan.body, Some("a=1".to_string()));
    assert_eq!(
        plan.headers,
        vec![header("accept", "*/*"), header("content-type", "application/x-www-form-urlencoded")]
    );
}

#[test]
fn plan_form_post_keeps_the_users_content_type() {
    let mut c = config("https://example.com/submit");
    c.form_body = Some("{}".to_string());
    c.headers = vec!["Content-Type: application/json".to_string()];
    let s = session(&c);
    let plan = plan_request(&s, &s.first_hop());
    assert_eq!(plan.headers, vec![header("content-type", "application/json")]);
    assert_eq!(plan.body, Some("{}".to_string()));
}

#[test]
fn plan_raw_post_adds_no_content_type() {
    let mut c = config("https://example.com/submit");
    c.raw_body = Some("raw bytes".to_string());
    let s = session(&c);
    let plan = plan_request(&s, &s.first_hop());
    assert_eq!(plan.method, "POST");
    assert_eq!(plan.headers, Vec::<Header>::new());
    assert_eq!(plan.body, Some("raw bytes".to_string()));
}

#[test]
fn plan_post_without_body() {
    let mut c = config("https://example.com/submit");
    c.method = "post".to_string();
    let s = session(&c);
    let plan = plan_request(&s, &s.first_hop());
    assert_eq!(plan.method, "POST");
    assert_eq!(plan.body, None);
    assert_eq!(plan.headers, Vec::<Header>::new());
}

#[test]
fn plan_other_method_sends_no_body() {
    let mut c = config("https://example.com/item");
    c.method = "PUT".to_string();
    c.form_body = Some("a=1".to_string());
    let s = session(&c);
    let plan = plan_request(&s, &s.first_hop());
    assert_eq!(plan.method, "PUT");
    assert_eq!(plan.body, None);
    assert_eq!(plan.headers, Vec::<Header>::new());
}

#[test]
fn plan_head_only_reads_no_body() {
    let mut c = config("https://example.com/");
    c.head_only = true;
    c.form_body = Some("a=1".to_string());
    let s = session(&c);
    let plan = plan_request(&s, &s.first_hop());
    assert_eq!(plan.method, "HEAD");
    assert_eq!(plan.body, None);
    assert!(!plan.read_body);
    assert_eq!(plan.headers, Vec::<Header>::new());
}

#[test]
fn plan_after_redirect_is_a_bare_get() {
    let mut c = config("https://example.com/submit");
    c.form_body = Some("a=1".to_string());
    c.headers = vec!["X-Token: t".to_string()];
    c.follow_redirects = true;
    let s = session(&c);
    let state = HopState { url: "https://example.com/next".to_string(), hops: 1, method: "GET".to_string() };
    let plan = plan_request(&s, &state);
    assert_eq!(plan.method, "GET");
    assert_eq!(plan.url, "https://example.com/next");
    assert_eq!(plan.body, None);
    assert_eq!(plan.headers, vec![header("x-token", "t")]);
}

#[test]
fn plan_trace_shows_request_line_host_and_headers() {
    let mut c = config("example.com/path/to?q=1#frag");
    c.trace = true;
    c.headers = vec!["Accept: */*".to_string(), "X-Two: 2".to_string()];
    let s = session(&c);
    let plan = plan_request(&s, &s.first_hop());
    assert_eq!(
        plan.trace,
        "> GET /path/to HTTP/1.1\n> Host: example.com\n> accept: */*\n> x-two: 2\n>\n"
    );
}

#[test]
fn plan_trace_of_root_path_and_port() {
    let mut c = config("https://example.com:8443");
    c.trace = true;
    c.method = "delete".to_string();
    let s = session(&c);
    let plan = plan_request(&s, &s.first_hop());
    assert_eq!(plan.trace, "> DELETE / HTTP/1.1\n> Host: example.com\n>\n");
}

#[test]
fn plan_trace_shows_added_content_type() {
    let mut c = config("http://example.com/f");
    c.trace = true;
    c.form_body = Some("a=1".to_string());
    let s = session(&c);
    let plan = plan_request(&s, &s.first_hop());
    assert_eq!(
        plan.trace,
        "> POST /f HTTP/1.1\n> Host: example.com\n> content-type: application/x-www-form-urlencoded\n>\n"
    );
}

#[test]
fn plan_trace_is_empty_for_a_url_that_does_not_parse() {
    let mut c = config("http://");
    c.trace = true;
    let s = session(&c);
    let plan = plan_request(&s, &s.first_hop());
    assert_eq!(plan.url, "http://");
    assert_eq!(plan.trace, "");
}

#[test]
fn plan_trace_is_empty_without_trace_mode() {
    let mut c = config("http://example.com/");
    c.headers = vec!["A: b".to_string()];
    let s = session(&c);
    assert_eq!(plan_request(&s, &s.first_hop()).trace, "");
}

#[test]
fn request_trace_text() {
    let headers = vec![header("a", "1"), header("b", "caf\u{e9}")];
    assert_eq!(
        render_request_trace("GET", "h.test", "/p", &headers),
        "> GET /p HTTP/1.1\n> Host: h.test\n> a: 1\n> b: [non-ascii]\n>\n"
    );
    assert_eq!(
        render_request_trace("HEAD", "h.test", "/", &Vec::new()),
        "> HEAD / HTTP/1.1\n> Host: h.test\n>\n"
    );
}

#[test]
fn traced_values() {
    assert_eq!(trace_value("plain text"), "plain text");
    assert_eq!(trace_value("tab\there"), "tab\there");
    assert_eq!(trace_value(""), "");
    assert_eq!(trace_value("caf\u{e9}"), "[non-ascii]");
    assert_eq!(trace_value("a\u{7f}"), "[non-ascii]");
    assert_eq!(trace_value("a\u{1}"), "[non-ascii]");
    assert_eq!(trace_value("~"), "~");
}

#[test]
fn headers_for_other_methods() {
    let mut c = config("http://example.com/");
    c.form_body = Some("a=1".to_string());
    let s = session(&c);
    assert_eq!(headers_for(&s, "GET"), Vec::<Header>::new());
    assert_eq!(
        headers_for(&s, "POST"),
        vec![header("content-type", "application/x-www-form-urlencoded")]
    );
}

#[test]
fn copies_are_equal() {
    let h = header("a", "b");
    assert_eq!(copy_header(&h), h);
    assert_eq!(copy_text(&Some("x".to_string())), Some("x".to_string()));
    assert_eq!(copy_text(&None), None);
}
