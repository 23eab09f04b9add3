//! What the user asks for, and the session that a run is prepared from it:
//! the headers, the first hop's method and the body, checked before any
//! request is made.

use std::str::FromStr;
use vstd::prelude::*;
use crate::error::{ClientError, ClientErrorView};
use crate::headers::{built_headers, headers_valid, is_token_char, HeaderSet, HeaderView};
use crate::resolve::{parse_resolves, parsed_resolves, ResolveTarget, ResolveView};
use crate::text::{opt_view, opt_views_of, str_eq, to_uppercase, uppercased, views_of};
use crate::url::{normalize_url, normalized};

verus! {

/// What the user asks for.
#[derive(Clone, Debug, PartialEq, Eq)]
pub struct RequestConfig {
    /// The target, with or without a scheme.
    pub url: String,
    /// The method as it was given; `GET` where none was.
    pub method: String,
    /// A body to send form-encoded.
    pub form_body: Option<String>,
    /// A body to send as it is.
    pub raw_body: Option<String>,
    /// Header strings of the form `Name: Value`, in the order given.
    pub headers: Vec<String>,
    /// A cookie string, sent as it is in a header `Cookie`.
    pub cookie: Option<String>,
    pub follow_redirects: bool,
    pub insecure_tls: bool,
    pub head_only: bool,
    pub trace: bool,
    /// The time allowed for connecting, in seconds.
    pub connect_timeout: Option<u64>,
    /// Triples `host:port:ip` that stand in for name resolution.
    pub resolve: Vec<String>,
    /// For each triple, in order, the words of the fault of its address,
    /// where whoever examined it found it to be no address. A triple that
    /// the list does not reach has no fault.
    pub address_faults: Vec<Option<String>>,
    /// The file that takes the body in place of the primary stream.
    pub output_file: Option<String>,
}

/// The mathematical value of a `RequestConfig`: the fields that decide what
/// a run does.
pub struct ConfigView {
    pub url: Seq<char>,
    pub method: Seq<char>,
    pub form_body: Option<Seq<char>>,
    pub raw_body: Option<Seq<char>>,
    pub headers: Seq<Seq<char>>,
    pub cookie: Option<Seq<char>>,
    pub follow_redirects: bool,
    pub head_only: bool,
    pub trace: bool,
    pub resolve: Seq<Seq<char>>,
    pub address_faults: Seq<Option<Seq<char>>>,
    pub to_file: bool,
}

impl View for RequestConfig {
    type V = ConfigView;

    open spec fn view(&self) -> ConfigView {
        ConfigView {
            url: self.url@,
            method: self.method@,
            form_body: opt_view(self.form_body),
            raw_body: opt_view(self.raw_body),
            headers: views_of(self.headers@),
            cookie: opt_view(self.cookie),
            follow_redirects: self.follow_redirects,
            head_only: self.head_only,
            trace: self.trace,
            resolve: views_of(self.resolve@),
            address_faults: opt_views_of(self.address_faults@),
            to_file: self.output_file is Some,
        }
    }
}

/// Whether `s` is a method: one token character or more.
pub open spec fn is_method_token(s: Seq<char>) -> bool {
    s.len() >= 1 && forall|i: int| 0 <= i < s.len() ==> is_token_char(#[trigger] s[i])
}

/// The words in which `Method::from_str` refuses a string.
pub uninterp spec fn method_fault(s: Seq<char>) -> Seq<char>;

/// `Method::from_str`: accepts exactly the methods. Where it refuses, the
/// words of its error go by the name `method_fault`.
#[verifier::external_body]
pub(crate) fn method_check(s: &str) -> (r: Option<String>)
    ensures
        r is None == is_method_token(s@),
        r matches Some(words) ==> words@ == method_fault(s@),
{
    match reqwest::Method::from_str(s) {
        Ok(_) => None,
        Err(e) => Some(e.to_string()),
    }
}

/// The method of the first hop. `upper` is the method that was given, in
/// upper case. A head-only run uses `HEAD`; a `GET` with a body to send
/// becomes `POST`; any other method stands as it is.
pub open spec fn method_for(head_only: bool, has_body: bool, upper: Seq<char>) -> Seq<char> {
    if head_only {
        "HEAD"@
    } else if has_body && upper == "GET"@ {
        "POST"@
    } else {
        upper
    }
}

/// Decides the method of the first hop from the method that was given, in
/// upper case.
pub fn initial_method(head_only: bool, has_body: bool, upper: &str) -> (m: String)
    ensures
        m@ == method_for(head_only, has_body, upper@),
{
    if head_only {
        "HEAD".to_owned()
    } else if has_body && str_eq(upper, "GET") {
        "POST".to_owned()
    } else {
        upper.to_owned()
    }
}

/// A run that is ready to start: everything in it has been checked.
#[derive(Clone, Debug, PartialEq, Eq)]
pub struct Session {
    /// The URL of the first hop, with its scheme.
    pub url: String,
    /// The method of the first hop.
    pub method: String,
    /// The headers that every hop sends.
    pub headers: HeaderSet,
    /// The body that a `POST` sends.
    pub body: Option<String>,
    /// Whether the body is form-encoded.
    pub form: bool,
    pub follow_redirects: bool,
    pub head_only: bool,
    pub trace: bool,
    /// Whether the body of a response goes to a file.
    pub to_file: bool,
    /// The resolution triples, for the transport.
    pub resolve: Vec<ResolveTarget>,
}

/// The mathematical value of a `Session`.
pub struct SessionView {
    pub url: Seq<char>,
    pub method: Seq<char>,
    pub headers: Seq<HeaderView>,
    pub body: Option<Seq<char>>,
    pub form: bool,
    pub follow_redirects: bool,
    pub head_only: bool,
    pub trace: bool,
    pub to_file: bool,
    pub resolve: Seq<ResolveView>,
}

impl View for Session {
    type V = SessionView;

    open spec fn view(&self) -> SessionView {
        SessionView {
            url: self.url@,
            method: self.method@,
            headers: self.headers@,
            body: opt_view(self.body),
            form: self.form,
            follow_redirects: self.follow_redirects,
            head_only: self.head_only,
            trace: self.trace,
            to_file: self.to_file,
            resolve: self.resolve.deep_view(),
        }
    }
}

impl SessionView {
    /// What holds of every prepared session: its headers are valid and its
    /// method is a method.
    pub open spec fn wf(self) -> bool {
        headers_valid(self.headers) && is_method_token(self.method)
    }
}

/// The body that a run sends: the form body where there is one, else the
/// raw body.
pub open spec fn body_of(c: ConfigView) -> Option<Seq<char>> {
    match c.form_body {
        Some(b) => Some(b),
        None => c.raw_body,
    }
}

/// The session that a configuration stands for, given the method in upper
/// case. The checks fail in this order: the header strings, one by one; the
/// cookie; the resolution triples, one by one, each by its form, its port
/// and its address; a form body beside a raw body; the method.
pub open spec fn session_of(c: ConfigView, upper: Seq<char>) -> Result<
    SessionView,
    ClientErrorView,
> {
    let method = method_for(c.head_only, body_of(c) is Some, upper);
    match built_headers(c.headers, c.cookie) {
        Err(e) => Err(e),
        Ok(headers) => match parsed_resolves(c.resolve, c.address_faults) {
            Err(e) => Err(e),
            Ok(resolve) => if c.form_body is Some && c.raw_body is Some {
                Err(ClientErrorView::ConflictingBody)
            } else if !is_method_token(method) {
                Err(ClientErrorView::InvalidMethod(method_fault(method)))
            } else {
                Ok(
                    SessionView {
                        url: normalized(c.url),
                        method,
                        headers,
                        body: body_of(c),
                        form: c.form_body is Some,
                        follow_redirects: c.follow_redirects,
                        head_only: c.head_only,
                        trace: c.trace,
                        to_file: c.to_file,
                        resolve,
                    },
                )
            },
        },
    }
}

/// The session that a configuration stands for.
pub open spec fn prepared(c: ConfigView) -> Result<SessionView, ClientErrorView> {
    session_of(c, uppercased(c.method))
}

/// Whether a result of preparing has the mathematical value `v`.
pub open spec fn session_result_is(
    r: Result<Session, ClientError>,
    v: Result<SessionView, ClientErrorView>,
) -> bool {
    match r {
        Ok(s) => v == Ok::<SessionView, ClientErrorView>(s@),
        Err(e) => v == Err::<SessionView, ClientErrorView>(e@),
    }
}

/// Checks a configuration and makes the session of it, given the method in
/// upper case.
pub fn prepare_with(config: &RequestConfig, upper: &str) -> (r: Result<Session, ClientError>)
    ensures
        session_result_is(r, session_of(config@, upper@)),
        r matches Ok(s) ==> s@.wf(),
{
    let headers = match HeaderSet::build(&config.headers, &config.cookie) {
        Ok(h) => h,
        Err(e) => {
            return Err(e);
        },
    };
    let resolve = match parse_resolves(&config.resolve, &config.address_faults) {
        Ok(r) => r,
        Err(e) => {
            return Err(e);
        },
    };
    if config.form_body.is_some() && config.raw_body.is_some() {
        return Err(ClientError::ConflictingBody);
    }
    let has_body = config.form_body.is_some() || config.raw_body.is_some();
    let method = initial_method(config.head_only, has_body, upper);
    if let Some(words) = method_check(method.as_str()) {
        return Err(ClientError::InvalidMethod(words));
    }
    let body = match &config.form_body {
        Some(b) => Some(b.clone()),
        None => match &config.raw_body {
            Some(b) => Some(b.clone()),
            None => None,
        },
    };
    proof {
        crate::headers::lemma_built_headers_valid(config@.headers, config@.cookie);
    }
    Ok(
        Session {
            url: normalize_url(config.url.as_str()),
            method,
            headers,
            body,
            form: config.form_body.is_some(),
            follow_redirects: config.follow_redirects,
            head_only: config.head_only,
            trace: config.trace,
            to_file: config.output_file.is_some(),
            resolve,
        },
    )
}

/// Checks a configuration and makes the session of it. Nothing is sent
/// before this has succeeded.
pub fn prepare(config: &RequestConfig) -> (r: Result<Session, ClientError>)
    ensures
        session_result_is(r, prepared(config@)),
        r matches Ok(s) ==> s@.wf(),
{
    let upper = to_uppercase(config.method.as_str());
    prepare_with(config, upper.as_str())
}

} // verus!
