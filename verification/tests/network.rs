use gbksync::network::{parse_web_proxy, ProxyLookup, ProxyStep, QueryOutput};
use gbksync::text::{chars_of, line_spans, token_spans};

const ENABLED_REPORT: &str = "Enabled: Yes\nServer: 127.0.0.1\nPort: 7890\nAuthenticated Proxy Enabled: 0\n";
const DISABLED_REPORT: &str = "Enabled: No\nServer: \nPort: 0\nAuthenticated Proxy Enabled: 0\n";

fn query_of(step: &ProxyStep) -> Option<String> {
    match step {
        ProxyStep::Query(s) => Some(s.clone()),
        ProxyStep::Finished(_) => None,
    }
}

fn finished(step: ProxyStep) -> Option<Option<String>> {
    match step {
        ProxyStep::Query(_) => None,
        ProxyStep::Finished(r) => Some(r),
    }
}

#[test]
fn test_get_http_proxy() {
    let listing = "An asterisk (*) denotes that a network service is disabled.\nWi-Fi\nThunderbolt Bridge\n";
    let mut lookup = ProxyLookup::new(listing);
    let step = lookup.current();
    assert_eq!(query_of(&step), Some("Wi-Fi".to_string()));
    let step = lookup.on_output(Some(QueryOutput { success: true, stdout: ENABLED_REPORT.to_string() }));
    assert_eq!(finished(step), Some(Some("http://127.0.0.1:7890".to_string())));
}

#[test]
fn parses_enabled_proxy() {
    assert_eq!(parse_web_proxy(ENABLED_REPORT), Some("http://127.0.0.1:7890".to_string()));
}

#[test]
fn disabled_proxy_gives_none() {
    assert_eq!(parse_web_proxy(DISABLED_REPORT), None);
}

#[test]
fn enabled_without_port_gives_none() {
    assert_eq!(parse_web_proxy("Enabled: Yes\nServer: proxy.local\n"), None);
}

#[test]
fn server_value_is_second_token_of_first_server_line() {
    let report = "Enabled: Yes\r\nServer:   host.example   extra\r\nServer: other\r\nPort:\t8080\r\n";
    assert_eq!(parse_web_proxy(report), Some("http://host.example:8080".to_string()));
}

#[test]
fn enabled_marker_anywhere_counts() {
    let report = "Server: h\nPort: 1\nHTTPS Enabled: Yes\n";
    assert_eq!(parse_web_proxy(report), Some("http://h:1".to_string()));
}

#[test]
fn field_key_must_start_the_line() {
    let report = "Enabled: Yes\n Server: h\nPort: 1\n";
    assert_eq!(parse_web_proxy(report), None);
}

#[test]
fn lookup_moves_on_after_disabled_and_failed_answers() {
    let listing = "notice\nA\nB\nC";
    let mut lookup = ProxyLookup::new(listing);
    assert_eq!(query_of(&lookup.current()), Some("A".to_string()));
    let step = lookup.on_output(Some(QueryOutput { success: true, stdout: DISABLED_REPORT.to_string() }));
    assert_eq!(query_of(&step), Some("B".to_string()));
    let step = lookup.on_output(Some(QueryOutput { success: false, stdout: ENABLED_REPORT.to_string() }));
    assert_eq!(query_of(&step), Some("C".to_string()));
    let step = lookup.on_output(Some(QueryOutput { success: true, stdout: String::new() }));
    assert_eq!(finished(step), Some(None));
}

#[test]
fn lookup_stops_when_a_query_cannot_run() {
    let mut lookup = ProxyLookup::new("notice\nA\nB\n");
    assert_eq!(query_of(&lookup.current()), Some("A".to_string()));
    assert_eq!(finished(lookup.on_output(None)), Some(None));
}

#[test]
fn empty_listing_has_no_services() {
    let lookup = ProxyLookup::new("");
    assert_eq!(finished(lookup.current()), Some(None));
    let lookup = ProxyLookup::new("only the notice\n");
    assert_eq!(finished(lookup.current()), Some(None));
}

#[test]
fn lines_follow_str_lines() {
    for text in ["", "a", "a\n", "a\r\nb", "\n\n", "x\r", "a\nb\r\n\r\nc\n"] {
        let v = chars_of(text);
        let spans = line_spans(&v);
        let got: Vec<String> = spans.iter().map(|&(a, b)| v[a..b].iter().collect()).collect();
        let want: Vec<String> = text.lines().map(|l| l.to_string()).collect();
        assert_eq!(got, want, "lines of {:?}", text);
    }
}

#[test]
fn tokens_follow_split_whitespace() {
    for text in ["", "  ", "a", " a  b\tc ", "x\u{3000}y\u{a0}z", "Server: 1.2.3.4"] {
        let v = chars_of(text);
        let spans = token_spans(&v, 0, v.len());
        let got: Vec<String> = spans.iter().map(|&(a, b)| v[a..b].iter().collect()).collect();
        let want: Vec<String> = text.split_whitespace().map(|t| t.to_string()).collect();
        assert_eq!(got, want, "tokens of {:?}", text);
    }
}
