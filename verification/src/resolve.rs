//! Resolution triples `host:port:ip`, which stand in for name resolution.

use vstd::prelude::*;
use crate::error::{ClientError, ClientErrorView};
use crate::text::{chars_of, copy_text, first_index_of, opt_view, opt_views_of, string_of,
    views_of};

verus! {

/// What `u16::from_str` makes of a string: the number, or the words of its
/// error.
pub uninterp spec fn parsed_port(s: Seq<char>) -> Result<u16, Seq<char>>;

/// `str::parse` to a `u16`, the error as its own words. The result goes by
/// the name `parsed_port`.
#[verifier::external_body]
pub(crate) fn parse_port(s: &str) -> (r: Result<u16, String>)
    ensures
        port_view(r) == parsed_port(s@),
{
    match s.parse::<u16>() {
        Ok(p) => Ok(p),
        Err(e) => Err(e.to_string()),
    }
}

/// One resolution triple.
#[derive(Clone, Debug, PartialEq, Eq)]
pub struct ResolveTarget {
    pub host: String,
    pub port: u16,
    /// The address, as it was written; whether it is an address is for the
    /// transport to say.
    pub address: String,
}

/// The mathematical value of a `ResolveTarget`.
pub struct ResolveView {
    pub host: Seq<char>,
    pub port: u16,
    pub address: Seq<char>,
}

impl View for ResolveTarget {
    type V = ResolveView;

    open spec fn view(&self) -> ResolveView {
        ResolveView { host: self.host@, port: self.port, address: self.address@ }
    }
}

impl DeepView for ResolveTarget {
    type V = ResolveView;

    open spec fn deep_view(&self) -> ResolveView {
        self@
    }
}

/// The three parts of a triple: what stands before its first colon, between
/// its first and its second, and behind its second; `None` where it has
/// fewer than two colons.
pub open spec fn split_triple(raw: Seq<char>) -> Option<(Seq<char>, Seq<char>, Seq<char>)> {
    match first_index_of(raw, ':') {
        None => None,
        Some(i) => {
            let rest = raw.skip(i + 1);
            match first_index_of(rest, ':') {
                None => None,
                Some(j) => Some((raw.take(i), rest.take(j), rest.skip(j + 1))),
            }
        },
    }
}

/// The views of three strings.
pub open spec fn triple_view(t: Option<(String, String, String)>) -> Option<
    (Seq<char>, Seq<char>, Seq<char>),
> {
    match t {
        Some((a, b, c)) => Some((a@, b@, c@)),
        None => None,
    }
}

/// Splits a triple at its first two colons.
pub fn split_resolve(raw: &str) -> (r: Option<(String, String, String)>)
    ensures
        triple_view(r) == split_triple(raw@),
{
    let chars = chars_of(raw);
    let mut host: Vec<char> = Vec::new();
    let mut i: usize = 0;
    while i < chars.len() && chars[i] != ':'
        invariant
            i <= chars.len(),
            host@ == chars@.take(i as int),
            forall|k: int| 0 <= k < i ==> chars@[k] != ':',
        decreases chars.len() - i,
    {
        host.push(chars[i]);
        i = i + 1;
        assert(host@ =~= chars@.take(i as int));
    }
    if i == chars.len() {
        proof {
            crate::text::lemma_first_index_none(chars@, ':');
        }
        return None;
    }
    proof {
        crate::text::lemma_first_index_is(chars@, ':', i as int);
    }
    let ghost rest = chars@.skip(i + 1);
    let start: usize = i + 1;
    let mut port: Vec<char> = Vec::new();
    let mut j: usize = start;
    while j < chars.len() && chars[j] != ':'
        invariant
            start <= j <= chars.len(),
            rest == chars@.skip(start as int),
            port@ == rest.take(j - start),
            forall|k: int| 0 <= k < j - start ==> rest[k] != ':',
        decreases chars.len() - j,
    {
        port.push(chars[j]);
        j = j + 1;
        assert(port@ =~= rest.take(j - start));
    }
    if j == chars.len() {
        proof {
            crate::text::lemma_first_index_none(rest, ':');
        }
        return None;
    }
    proof {
        crate::text::lemma_first_index_is(rest, ':', j - start);
    }
    let mut address: Vec<char> = Vec::new();
    let mut k: usize = j + 1;
    while k < chars.len()
        invariant
            j + 1 <= k <= chars.len(),
            start <= j,
            rest == chars@.skip(start as int),
            address@ == rest.skip(j - start + 1).take(k - j - 1),
        decreases chars.len() - k,
    {
        address.push(chars[k]);
        k = k + 1;
        assert(address@ =~= rest.skip(j - start + 1).take(k - j - 1));
    }
    assert(address@ =~= rest.skip(j - start + 1));
    Some((string_of(&host), string_of(&port), string_of(&address)))
}

/// The target that a host, a parsed port and an address make. `fault`
/// holds the words of the address's fault, where it was examined and found
/// to be no address. A port that did not parse fails with the parser's
/// words; then a faulty address fails with the words of its fault.
pub open spec fn target_of(
    host: Seq<char>,
    port: Result<u16, Seq<char>>,
    address: Seq<char>,
    fault: Option<Seq<char>>,
) -> Result<ResolveView, ClientErrorView> {
    match port {
        Err(words) => Err(ClientErrorView::ResolvePort(words)),
        Ok(p) => match fault {
            Some(words) => Err(ClientErrorView::ResolveAddress(words)),
            None => Ok(ResolveView { host, port: p, address }),
        },
    }
}

/// The target that a triple stands for: it has three parts, the second is
/// a port, and the third has no fault.
pub open spec fn parsed_resolve(raw: Seq<char>, fault: Option<Seq<char>>) -> Result<
    ResolveView,
    ClientErrorView,
> {
    match split_triple(raw) {
        None => Err(ClientErrorView::ResolveFormat(raw)),
        Some((host, port, address)) => target_of(host, parsed_port(port), address, fault),
    }
}

/// The fault of the address of the triple with the index `i`: what the list
/// holds there, and none where the list is shorter.
pub open spec fn fault_at(faults: Seq<Option<Seq<char>>>, i: int) -> Option<Seq<char>> {
    if 0 <= i < faults.len() {
        faults[i]
    } else {
        None
    }
}

/// The view of a parsed port.
pub open spec fn port_view(port: Result<u16, String>) -> Result<u16, Seq<char>> {
    match port {
        Ok(p) => Ok(p),
        Err(words) => Err(words@),
    }
}

/// Whether a result of parsing has the mathematical value `v`.
pub open spec fn resolve_result_is(
    r: Result<ResolveTarget, ClientError>,
    v: Result<ResolveView, ClientErrorView>,
) -> bool {
    match r {
        Ok(t) => v == Ok::<ResolveView, ClientErrorView>(t@),
        Err(e) => v == Err::<ResolveView, ClientErrorView>(e@),
    }
}

/// Makes a target of a host, a parsed port, an address and the fault of
/// the address.
pub fn make_target(
    host: String,
    port: Result<u16, String>,
    address: String,
    fault: Option<String>,
) -> (r: Result<ResolveTarget, ClientError>)
    ensures
        resolve_result_is(r, target_of(host@, port_view(port), address@, opt_view(fault))),
{
    match port {
        Err(words) => Err(ClientError::ResolvePort(words)),
        Ok(p) => match fault {
            Some(words) => Err(ClientError::ResolveAddress(words)),
            None => Ok(ResolveTarget { host, port: p, address }),
        },
    }
}

/// Parses one resolution triple, given the fault of its address.
pub fn parse_resolve(raw: &str, fault: Option<String>) -> (r: Result<ResolveTarget, ClientError>)
    ensures
        resolve_result_is(r, parsed_resolve(raw@, opt_view(fault))),
{
    match split_resolve(raw) {
        None => Err(ClientError::ResolveFormat(raw.to_owned())),
        Some((host, port, address)) => {
            let parsed = parse_port(port.as_str());
            make_target(host, parsed, address, fault)
        },
    }
}

/// The targets that a list of triples stands for, in order, given the
/// faults of their addresses; the first triple that fails decides the error.
pub open spec fn parsed_resolves(raw: Seq<Seq<char>>, faults: Seq<Option<Seq<char>>>) -> Result<
    Seq<ResolveView>,
    ClientErrorView,
>
    decreases raw.len(),
{
    if raw.len() == 0 {
        Ok(Seq::empty())
    } else {
        match parsed_resolves(raw.drop_last(), faults) {
            Err(e) => Err(e),
            Ok(ts) => match parsed_resolve(raw.last(), fault_at(faults, raw.len() - 1)) {
                Err(e) => Err(e),
                Ok(t) => Ok(ts.push(t)),
            },
        }
    }
}

/// Once a front part of the list has failed, the whole list fails the same
/// way.
pub proof fn lemma_parsed_resolves_error_from(
    raw: Seq<Seq<char>>,
    faults: Seq<Option<Seq<char>>>,
    n: int,
)
    requires
        0 <= n <= raw.len(),
        parsed_resolves(raw.take(n), faults) is Err,
    ensures
        parsed_resolves(raw, faults) == parsed_resolves(raw.take(n), faults),
    decreases raw.len() - n,
{
    if n == raw.len() {
        assert(raw.take(n) =~= raw);
    } else {
        assert(raw.take(n + 1).drop_last() =~= raw.take(n));
        lemma_parsed_resolves_error_from(raw, faults, n + 1);
    }
}

/// Whether a result of parsing a list has the mathematical value `v`.
pub open spec fn resolves_result_is(
    r: Result<Vec<ResolveTarget>, ClientError>,
    v: Result<Seq<ResolveView>, ClientErrorView>,
) -> bool {
    match r {
        Ok(ts) => v == Ok::<Seq<ResolveView>, ClientErrorView>(ts.deep_view()),
        Err(e) => v == Err::<Seq<ResolveView>, ClientErrorView>(e@),
    }
}

/// Parses the resolution triples of a run, given the faults of their
/// addresses.
pub fn parse_resolves(raw: &Vec<String>, faults: &Vec<Option<String>>) -> (r: Result<
    Vec<ResolveTarget>,
    ClientError,
>)
    ensures
        resolves_result_is(r, parsed_resolves(views_of(raw@), opt_views_of(faults@))),
{
    let mut out: Vec<ResolveTarget> = Vec::new();
    let ghost all = views_of(raw@);
    let ghost known = opt_views_of(faults@);
    assert(out.deep_view() =~= Seq::<ResolveView>::empty());
    let mut i: usize = 0;
    while i < raw.len()
        invariant
            i <= raw.len(),
            all == views_of(raw@),
            known == opt_views_of(faults@),
            parsed_resolves(all.take(i as int), known) == Ok::<Seq<ResolveView>, ClientErrorView>(
                out.deep_view(),
            ),
        decreases raw.len() - i,
    {
        proof {
            assert(all.take(i + 1).drop_last() =~= all.take(i as int));
            assert(all.take(i + 1).last() == raw@[i as int]@);
        }
        let fault = if i < faults.len() {
            copy_text(&faults[i])
        } else {
            None
        };
        assert(opt_view(fault) == fault_at(known, i as int));
        match parse_resolve(raw[i].as_str(), fault) {
            Err(e) => {
                proof {
                    lemma_parsed_resolves_error_from(all, known, i + 1);
                }
                return Err(e);
            },
            Ok(t) => {
                let ghost before = out.deep_view();
                out.push(t);
                assert(out.deep_view() =~= before.push(t@));
            },
        }
        i = i + 1;
    }
    assert(all.take(raw.len() as int) =~= all);
    Ok(out)
}

} // verus!
