//! Discovery of the system's HTTP proxy from the output of the
//! `networksetup` tool: the parsing of its reports and the order in which
//! the network services are asked.
use vstd::prelude::*;
use crate::text::{
    chars_of, contains_chars, contains_seq, first_span_with_prefix, first_with_prefix, line_spans,
    lines, nth_token, spans_text, spans_within, token_spans,
};

verus! {

/// The text that marks an enabled web proxy.
pub open spec fn enabled_marker() -> Seq<char> {
    seq!['E', 'n', 'a', 'b', 'l', 'e', 'd', ':', ' ', 'Y', 'e', 's']
}

/// The key of the line that names the proxy server.
pub open spec fn server_key() -> Seq<char> {
    seq!['S', 'e', 'r', 'v', 'e', 'r', ':']
}

/// The key of the line that names the proxy port.
pub open spec fn port_key() -> Seq<char> {
    seq!['P', 'o', 'r', 't', ':']
}

/// The scheme written before the proxy's address.
pub open spec fn http_scheme() -> Seq<char> {
    seq!['h', 't', 't', 'p', ':', '/', '/']
}

/// The value of a field of a proxy report: the second whitespace-separated
/// token of the first line that starts with `key`.
pub open spec fn proxy_field(info: Seq<char>, key: Seq<char>) -> Option<Seq<char>> {
    match first_with_prefix(lines(info), key) {
        Some(line) => nth_token(line, 1),
        None => None,
    }
}

/// The proxy URL that a `networksetup -getwebproxy` report describes:
/// present when the report says the proxy is enabled and names both a
/// server and a port.
pub open spec fn web_proxy_url(info: Seq<char>) -> Option<Seq<char>> {
    let server = proxy_field(info, server_key());
    let port = proxy_field(info, port_key());
    if contains_seq(info, enabled_marker()) && server is Some && port is Some {
        Some(http_scheme() + server->0 + seq![':'] + port->0)
    } else {
        None
    }
}

/// The network services of a `networksetup -listallnetworkservices`
/// listing: every line but the first, which is a notice.
pub open spec fn listed_services(listing: Seq<char>) -> Seq<Seq<char>> {
    if lines(listing).len() == 0 {
        seq![]
    } else {
        lines(listing).drop_first()
    }
}

/// The view of an optional string.
pub open spec fn opt_string_view(o: Option<String>) -> Option<Seq<char>> {
    match o {
        Some(s) => Some(s@),
        None => None,
    }
}

fn literal_chars_enabled() -> (v: Vec<char>)
    ensures
        v@ == enabled_marker(),
{
    let v = vec!['E', 'n', 'a', 'b', 'l', 'e', 'd', ':', ' ', 'Y', 'e', 's'];
    assert(v@ =~= enabled_marker());
    v
}

fn literal_chars_server() -> (v: Vec<char>)
    ensures
        v@ == server_key(),
{
    let v = vec!['S', 'e', 'r', 'v', 'e', 'r', ':'];
    assert(v@ =~= server_key());
    v
}

fn literal_chars_port() -> (v: Vec<char>)
    ensures
        v@ == port_key(),
{
    let v = vec!['P', 'o', 'r', 't', ':'];
    assert(v@ =~= port_key());
    v
}

/// The span of the value of the field `key` in the report `v`.
fn field_span(v: &Vec<char>, line_spans_of_v: &Vec<(usize, usize)>, key: &Vec<char>) -> (r: Option<
    (usize, usize),
>)
    requires
        spans_within(line_spans_of_v@, 0, v.len() as int),
        spans_text(v@, line_spans_of_v@) == lines(v@),
    ensures
        match r {
            Some(p) => p.0 <= p.1 <= v.len() && proxy_field(v@, key@) == Some(
                v@.subrange(p.0 as int, p.1 as int),
            ),
            None => proxy_field(v@, key@) is None,
        },
{
    match first_span_with_prefix(v, line_spans_of_v, key) {
        None => None,
        Some(k) => {
            let (a, b) = line_spans_of_v[k];
            assert(spans_text(v@, line_spans_of_v@)[k as int] == v@.subrange(a as int, b as int));
            let toks = token_spans(v, a, b);
            if toks.len() > 1 {
                assert(spans_text(v@, toks@)[1] == v@.subrange(toks@[1].0 as int, toks@[1].1 as int));
                Some(toks[1])
            } else {
                None
            }
        },
    }
}

/// Reads the proxy URL out of a `networksetup -getwebproxy` report.
pub fn parse_web_proxy(info: &str) -> (r: Option<String>)
    ensures
        opt_string_view(r) == web_proxy_url(info@),
{
    let v = chars_of(info);
    let spans = line_spans(&v);
    let enabled = contains_chars(&v, &literal_chars_enabled());
    let server = field_span(&v, &spans, &literal_chars_server());
    let port = field_span(&v, &spans, &literal_chars_port());
    if !enabled {
        return None;
    }
    match (server, port) {
        (Some((a, b)), Some((c, d))) => Some(proxy_url(info, a, b, c, d)),
        _ => None,
    }
}

/// `http://` followed by the server, a colon and the port, each taken from `info`.
fn proxy_url(info: &str, a: usize, b: usize, c: usize, d: usize) -> (url: String)
    requires
        a <= b <= info@.len(),
        c <= d <= info@.len(),
    ensures
        url@ == http_scheme() + info@.subrange(a as int, b as int) + seq![':'] + info@.subrange(
            c as int,
            d as int,
        ),
{
    let mut url = String::new();
    let scheme = "http://";
    proof {
        reveal_strlit("http://");
        assert(scheme@ =~= http_scheme());
    }
    url.append(scheme);
    url.append(info.substring_char(a, b));
    let colon = ":";
    proof {
        reveal_strlit(":");
        assert(colon@ =~= seq![':']);
    }
    url.append(colon);
    url.append(info.substring_char(c, d));
    url
}

/// What the `networksetup -getwebproxy` query of one service gave back:
/// whether the tool exited with success, and what it printed.
pub struct QueryOutput {
    pub success: bool,
    pub stdout: String,
}

/// The next thing a proxy lookup needs.
pub enum ProxyStep {
    /// Run `networksetup -getwebproxy` for this service and report its output.
    Query(String),
    /// The lookup is over, with this proxy URL if one was found.
    Finished(Option<String>),
}

/// A proxy lookup in progress: the services of the listing, asked in
/// order, and the index of the one whose answer is awaited.
pub struct ProxyLookup {
    services: Vec<String>,
    next: usize,
}

/// The proxy URL that one service's answer yields, if any.
pub open spec fn answer_url(output: QueryOutput) -> Option<Seq<char>> {
    if output.success {
        web_proxy_url(output.stdout@)
    } else {
        None
    }
}

/// A step of a lookup, as the specification sees it.
pub enum LookupStep {
    Query(Seq<char>),
    Finished(Option<Seq<char>>),
}

/// The specification's view of a step.
pub open spec fn step_view(step: ProxyStep) -> LookupStep {
    match step {
        ProxyStep::Query(s) => LookupStep::Query(s@),
        ProxyStep::Finished(r) => LookupStep::Finished(opt_string_view(r)),
    }
}

/// The step that stands when the service at `next` is awaited: its query,
/// or, past the last service, the end without a proxy.
pub open spec fn step_at(services: Seq<Seq<char>>, next: nat) -> LookupStep {
    if next < services.len() {
        LookupStep::Query(services[next as int])
    } else {
        LookupStep::Finished(None)
    }
}

/// Where a lookup stands after the service at `next` answered `output`
/// (`None`: the query could not be run): the index of the service awaited
/// then, and the step. A query that could not be run ends the lookup
/// without a proxy; an answer that names an enabled proxy ends it with that
/// proxy; any other answer moves on to the next service.
pub open spec fn after_answer(services: Seq<Seq<char>>, next: nat, output: Option<QueryOutput>) -> (
    nat,
    LookupStep,
) {
    match output {
        None => (next, LookupStep::Finished(None)),
        Some(o) => match answer_url(o) {
            Some(url) => (next, LookupStep::Finished(Some(url))),
            None => ((next + 1) as nat, step_at(services, (next + 1) as nat)),
        },
    }
}

/// The outcome of a lookup that stands at the service `next` and whose
/// services answer `answers` in turn, each step taken as `after_answer`
/// takes it.
pub open spec fn lookup_outcome(
    services: Seq<Seq<char>>,
    next: nat,
    answers: Seq<Option<QueryOutput>>,
) -> Option<Seq<char>>
    decreases answers.len(),
{
    match step_at(services, next) {
        LookupStep::Finished(r) => r,
        LookupStep::Query(_) => if answers.len() == 0 {
            None
        } else {
            let (n, step) = after_answer(services, next, answers[0]);
            match step {
                LookupStep::Finished(r) => r,
                LookupStep::Query(_) => lookup_outcome(services, n, answers.drop_first()),
            }
        },
    }
}

/// The proxy of the first answer that names one, unless an earlier query
/// could not be run.
pub open spec fn first_proxy(answers: Seq<Option<QueryOutput>>) -> Option<Seq<char>>
    decreases answers.len(),
{
    if answers.len() == 0 {
        None
    } else {
        match answers[0] {
            None => None,
            Some(o) => match answer_url(o) {
                Some(url) => Some(url),
                None => first_proxy(answers.drop_first()),
            },
        }
    }
}

/// A lookup in which every remaining service answers finds the proxy of the
/// first service, in listing order, whose answer names an enabled proxy, and
/// finds none where a query before it could not be run.
pub proof fn lemma_lookup_finds_first_proxy(
    services: Seq<Seq<char>>,
    next: nat,
    answers: Seq<Option<QueryOutput>>,
)
    requires
        next <= services.len(),
        answers.len() == services.len() - next,
    ensures
        lookup_outcome(services, next, answers) == first_proxy(answers),
    decreases answers.len(),
{
    if next < services.len() {
        match answers[0] {
            None => {},
            Some(o) => match answer_url(o) {
                Some(_) => {},
                None => {
                    lemma_lookup_finds_first_proxy(services, next + 1, answers.drop_first());
                    if next + 1 == services.len() {
                        assert(answers.drop_first().len() == 0);
                    }
                },
            },
        }
    }
}

impl ProxyLookup {
    /// The services to ask, in order.
    pub closed spec fn services(&self) -> Seq<Seq<char>> {
        self.services@.map_values(|s: String| s@)
    }

    /// The index of the service whose answer is awaited.
    pub closed spec fn next_index(&self) -> nat {
        self.next as nat
    }

    /// Starts a lookup over the services of a
    /// `networksetup -listallnetworkservices` listing.
    pub fn new(listing: &str) -> (l: Self)
        ensures
            l.services() == listed_services(listing@),
            l.next_index() == 0,
    {
        let v = chars_of(listing);
        let spans = line_spans(&v);
        let mut services: Vec<String> = Vec::new();
        let mut k: usize = 1;
        let ghost ls = lines(listing@);
        while k < spans.len()
            invariant
                v@ == listing@,
                spans_within(spans@, 0, v.len() as int),
                spans_text(v@, spans@) == ls,
                1 <= k <= spans.len() || (spans.len() == 0 && k == 1),
                services@.len() == k - 1,
                forall|j: int|
                    0 <= j < services@.len() ==> #[trigger] services@[j]@ == ls[j + 1],
            decreases spans.len() - k,
        {
            let (a, b) = spans[k];
            assert(ls[k as int] == v@.subrange(a as int, b as int));
            let line = listing.substring_char(a, b).to_owned();
            services.push(line);
            k = k + 1;
        }
        let l = ProxyLookup { services, next: 0 };
        assert(l.services() =~= listed_services(listing@));
        l
    }

    /// The step that stands next.
    pub fn current(&self) -> (step: ProxyStep)
        ensures
            step_view(step) == step_at(self.services(), self.next_index()),
    {
        if self.next < self.services.len() {
            ProxyStep::Query(self.services[self.next].clone())
        } else {
            ProxyStep::Finished(None)
        }
    }

    /// Takes the answer of the awaited service (`None` when the query could
    /// not be run) and gives the next step, as `after_answer` says.
    pub fn on_output(&mut self, output: Option<QueryOutput>) -> (step: ProxyStep)
        requires
            old(self).next_index() < old(self).services().len(),
        ensures
            final(self).services() == old(self).services(),
            (final(self).next_index(), step_view(step)) == after_answer(
                old(self).services(),
                old(self).next_index(),
                output,
            ),
    {
        match output {
            None => ProxyStep::Finished(None),
            Some(o) => {
                let found = if o.success {
                    parse_web_proxy(o.stdout.as_str())
                } else {
                    None
                };
                match found {
                    Some(url) => ProxyStep::Finished(Some(url)),
                    None => {
                        assert(self.services@.len() == self.services().len());
                        assert(self.next_index() == self.next as nat);
                        assert(self.next < self.services.len());
                        self.next = self.next + 1;
                        self.current()
                    },
                }
            },
        }
    }
}

} // verus!
