use mio_httpc::Header;
use mio_httpc::Headers;
use mio_httpc::RawHeader;
use mio_httpc::Response;
use mio_httpc::MAX_HEADERS;

fn response_of(head: &[u8]) -> Response {
    let mut r = Response::new();
    r.hdrs.extend_from_slice(head);
    r
}

fn collect<'a>(mut headers: Headers<'a>) -> Vec<(String, String)> {
    let mut out = Vec::new();
    while let Some(h) = headers.next() {
        out.push((h.name.to_string(), h.value.to_string()));
    }
    out
}

fn pair(name: &str, value: &str) -> (String, String) {
    (name.to_string(), value.to_string())
}

#[test]
fn new_response_is_blank() {
    let r = Response::new();
    assert!(r.hdrs.is_empty());
    assert_eq!(r.status, 0);
    assert!(!r.ws);
    let d = Response::default();
    assert!(d.hdrs.is_empty());
    assert_eq!(d.status, 0);
    assert!(!d.ws);
    assert_eq!(r.headers().len(), 0);
    assert!(r.headers().next().is_none());
}

#[test]
fn headers_come_in_wire_order() {
    let r = response_of(
        b"HTTP/1.1 200 OK\r\nContent-Type: text/html\r\nContent-Length: 5\r\nServer: t\r\n\r\n",
    );
    assert_eq!(
        collect(r.headers()),
        vec![pair("Content-Type", "text/html"), pair("Content-Length", "5"), pair("Server", "t")]
    );
}

#[test]
fn a_value_that_is_not_utf8_is_skipped() {
    let r = response_of(
        b"HTTP/1.1 200 OK\r\nContent-Type: text/html\r\nX-Bad: \xff\xfe\r\nContent-Length: 5\r\nServer: t\r\n\r\n",
    );
    let headers = r.headers();
    assert_eq!(headers.len(), 3);
    assert_eq!(
        collect(headers),
        vec![pair("Content-Type", "text/html"), pair("Content-Length", "5"), pair("Server", "t")]
    );
}

#[test]
fn a_value_that_is_utf8_beyond_ascii_is_kept() {
    let r = response_of("HTTP/1.1 200 OK\r\nX-City: Zürich\r\nX-Sign: ✓\r\n\r\n".as_bytes());
    assert_eq!(collect(r.headers()), vec![pair("X-City", "Zürich"), pair("X-Sign", "✓")]);
}

#[test]
fn forty_headers_yield_thirty_two() {
    let mut head = b"HTTP/1.1 200 OK\r\n".to_vec();
    for i in 0..40 {
        head.extend_from_slice(format!("X-H{}: v{}\r\n", i, i).as_bytes());
    }
    head.extend_from_slice(b"\r\n");
    let r = response_of(&head);
    let headers = r.headers();
    assert_eq!(headers.len(), 32);
    let all = collect(headers);
    assert_eq!(all.len(), 32);
    for i in 0..32 {
        assert_eq!(all[i], (format!("X-H{}", i), format!("v{}", i)));
    }
}

#[test]
fn thirty_two_headers_fit() {
    let mut head = b"HTTP/1.1 200 OK\r\n".to_vec();
    for i in 0..32 {
        head.extend_from_slice(format!("X-H{}: v{}\r\n", i, i).as_bytes());
    }
    head.extend_from_slice(b"\r\n");
    let all = collect(response_of(&head).headers());
    assert_eq!(all.len(), 32);
    assert_eq!(all[31], pair("X-H31", "v31"));
}

#[test]
fn only_the_first_thirty_two_received_count() {
    let mut head = b"HTTP/1.1 200 OK\r\n".to_vec();
    head.extend_from_slice(b"X-Bad: \xc3\x28\r\n");
    for i in 1..40 {
        head.extend_from_slice(format!("X-H{}: v{}\r\n", i, i).as_bytes());
    }
    head.extend_from_slice(b"\r\n");
    let all = collect(response_of(&head).headers());
    assert_eq!(all.len(), 31);
    assert_eq!(all[0], pair("X-H1", "v1"));
    assert_eq!(all[30], pair("X-H31", "v31"));
}

#[test]
fn parsing_stops_at_a_malformed_name() {
    let r = response_of(b"HTTP/1.1 200 OK\r\nA: 1\r\nB@d: 2\r\nC: 3\r\n\r\n");
    assert_eq!(collect(r.headers()), vec![pair("A", "1")]);
}

#[test]
fn parsing_stops_at_a_line_without_a_name() {
    let r = response_of(b"HTTP/1.1 200 OK\r\nA: 1\r\n: 2\r\nC: 3\r\n\r\n");
    assert_eq!(collect(r.headers()), vec![pair("A", "1")]);
}

#[test]
fn an_unfinished_head_gives_what_was_read() {
    let r = response_of(b"HTTP/1.1 200 OK\r\nA: 1\r\nB: 2\r\nC: par");
    assert_eq!(collect(r.headers()), vec![pair("A", "1"), pair("B", "2")]);
}

#[test]
fn headers_after_the_end_of_the_head_are_not_read() {
    let r = response_of(b"HTTP/1.1 200 OK\r\nA: 1\r\n\r\nB: 2\r\n\r\n");
    assert_eq!(collect(r.headers()), vec![pair("A", "1")]);
}

#[test]
fn without_a_status_line_there_are_no_headers() {
    assert!(collect(response_of(b"A: 1\r\nB: 2\r\n\r\n").headers()).is_empty());
    assert!(collect(response_of(b"").headers()).is_empty());
    assert!(collect(response_of(b"HTTP/1.1 200 OK\r\n\r\n").headers()).is_empty());
    assert!(collect(response_of(b"GET / HTTP/1.1\r\nHost: a\r\n\r\n").headers()).is_empty());
}

#[test]
fn values_are_trimmed_and_may_be_empty() {
    let r = response_of(b"HTTP/1.1 204 No Content\r\nA:   padded  \r\nB:\r\nC: x\n\n");
    assert_eq!(collect(r.headers()), vec![pair("A", "padded"), pair("B", ""), pair("C", "x")]);
}

#[test]
fn every_call_starts_over() {
    let r = response_of(b"HTTP/1.1 200 OK\r\nA: 1\r\nB: 2\r\n\r\n");
    let mut first = r.headers();
    assert_eq!(first.next().map(|h| h.name), Some("A"));
    let mut second = r.headers();
    assert_eq!(second.next().map(|h| h.name), Some("A"));
    assert_eq!(first.next().map(|h| h.name), Some("B"));
    assert!(first.next().is_none());
    assert!(first.next().is_none());
    assert_eq!(second.next().map(|h| h.value), Some("2"));
    assert!(second.next().is_none());
    assert_eq!(first.len(), 2);
}

#[test]
fn a_copy_scans_on_its_own() {
    let r = response_of(b"HTTP/1.1 200 OK\r\nA: 1\r\nB: 2\r\n\r\n");
    let mut first = r.headers();
    first.next();
    let mut copy = first;
    assert_eq!(copy.next().map(|h| h.name), Some("B"));
    assert_eq!(first.next().map(|h| h.name), Some("B"));
}

#[test]
fn names_and_values_borrow_from_the_response() {
    let r = response_of(b"HTTP/1.1 200 OK\r\nHost: example\r\n\r\n");
    let h = r.headers().next().unwrap();
    let start = r.hdrs.as_ptr() as usize;
    let end = start + r.hdrs.len();
    let name = h.name.as_ptr() as usize;
    let value = h.value.as_ptr() as usize;
    assert!(start <= name && name + h.name.len() <= end);
    assert!(start <= value && value + h.value.len() <= end);
}

#[test]
fn header_name_is_compared_without_ascii_case() {
    assert!(Header::new("Content-Type", "x").is("content-type"));
    assert!(Header::new("Content-Type", "x").is("CONTENT-TYPE"));
    assert!(Header::new("Content-Type", "x").is("Content-Type"));
    assert!(Header::new("content-type", "x").is("Content-Type"));
    assert!(!Header::new("Content-Type", "x").is("Content Type"));
    assert!(!Header::new("Content-Type", "x").is("Content-Typ"));
    assert!(!Header::new("Content-Type", "x").is("Content-Types"));
    assert!(!Header::new("Content-Type", "x").is(""));
    assert!(Header::new("", "x").is(""));
    assert!(!Header::new("Content-Type", "x").is("x"));
}

#[test]
fn only_ascii_letters_are_folded() {
    assert!(!Header::new("É", "x").is("é"));
    assert!(Header::new("É", "x").is("É"));
    assert!(Header::new("Zürich", "x").is("zÜrich") == false);
    assert!(Header::new("Zürich", "x").is("zürich"));
    assert!(!Header::new("@", "x").is("`"));
    assert!(!Header::new("[", "x").is("{"));
    assert!(Header::new("az", "x").is("AZ"));
    assert!(!Header::new("a", "x").is("é"));
}

#[test]
fn is_agrees_with_std() {
    let names = ["", "a", "A", "Host", "HOST", "hosT", "host ", "hos", "É", "é", "@", "`", "Z", "z", "[", "{"];
    for a in names.iter() {
        for b in names.iter() {
            assert_eq!(Header::new(a, "v").is(b), a.eq_ignore_ascii_case(b), "{:?} {:?}", a, b);
        }
    }
}

#[test]
fn default_header_is_empty() {
    let h = Header::default();
    assert_eq!(h.name, "");
    assert_eq!(h.value, "");
    let n = Header::new("a", "b");
    assert_eq!(n.name, "a");
    assert_eq!(n.value, "b");
    let c = n;
    assert_eq!(c.name, n.name);
}

#[test]
fn header_as_text() {
    assert_eq!(Header::new("Host", "example.com").to_string(), "[ Host: example.com ]");
    assert_eq!(Header::new("", "").to_string(), "[ :  ]");
    assert_eq!(Header::new("X-City", "Zürich").to_string(), "[ X-City: Zürich ]");
}

#[test]
fn headers_as_text() {
    let r = response_of(b"HTTP/1.1 200 OK\r\nA: 1\r\nB: two\r\n\r\n");
    let mut headers = r.headers();
    assert_eq!(headers.to_string(), "[ A: 1 ][ B: two ]");
    headers.next();
    assert_eq!(headers.to_string(), "[ A: 1 ][ B: two ]");
    assert_eq!(Headers::new().to_string(), "");
    assert_eq!(Response::new().headers().to_string(), "");
}

#[test]
fn no_headers() {
    let mut h = Headers::new();
    assert_eq!(h.len(), 0);
    assert!(h.next().is_none());
    assert!(h.next().is_none());
    let d = Headers::from_raw(&[]);
    assert_eq!(Headers::default().len(), 0);
    assert_eq!(d.len(), 0);
}

#[test]
fn raw_headers_are_taken_up_to_the_first_empty_name() {
    let raw = [
        RawHeader { name: "A", value: b"1" },
        RawHeader { name: "B", value: b"2" },
        RawHeader { name: "", value: b"" },
        RawHeader { name: "C", value: b"3" },
    ];
    assert_eq!(collect(Headers::from_raw(&raw)), vec![pair("A", "1"), pair("B", "2")]);

    let unnamed_first = [RawHeader { name: "", value: b"x" }, RawHeader { name: "A", value: b"1" }];
    assert!(collect(Headers::from_raw(&unnamed_first)).is_empty());
}

#[test]
fn raw_values_must_be_utf8() {
    let raw = [
        RawHeader { name: "A", value: b"\xff" },
        RawHeader { name: "B", value: "✓".as_bytes() },
        RawHeader { name: "C", value: b"\xe2\x9c" },
        RawHeader { name: "D", value: b"" },
        RawHeader { name: "E", value: b"\xed\xa0\x80" },
        RawHeader { name: "F", value: b"\xc0\x80" },
        RawHeader { name: "G", value: b"plain" },
    ];
    assert_eq!(
        collect(Headers::from_raw(&raw)),
        vec![pair("B", "✓"), pair("D", ""), pair("G", "plain")]
    );
}

#[test]
fn raw_headers_beyond_the_limit_are_dropped() {
    assert_eq!(MAX_HEADERS, 32);
    let names: Vec<String> = (0..40).map(|i| format!("N{}", i)).collect();
    let mut raw: Vec<RawHeader> = names.iter().map(|n| RawHeader { name: n, value: b"v" }).collect();
    assert_eq!(Headers::from_raw(&raw).len(), 32);
    assert_eq!(collect(Headers::from_raw(&raw))[31], pair("N31", "v"));

    raw[3].value = b"\xff";
    let kept = collect(Headers::from_raw(&raw));
    assert_eq!(kept.len(), 31);
    assert_eq!(kept[3], pair("N4", "v"));
    assert_eq!(kept[30], pair("N31", "v"));

    raw[10].name = "";
    assert_eq!(Headers::from_raw(&raw).len(), 9);
}
