use dnstrace::format::{
    answer_line, format_ipv4, not_authoritative_line, pretty_print, push_decimal, querying_line,
    unable_line, Ipv4, RecordData, Style,
};

#[test]
fn decimal_edges() {
    for (n, want) in [(0u8, "0"), (9, "9"), (10, "10"), (99, "99"), (100, "100"), (255, "255")] {
        let mut s = String::from("x");
        push_decimal(&mut s, n);
        assert_eq!(s, format!("x{}", want));
    }
}

#[test]
fn dotted_quad() {
    assert_eq!(format_ipv4(Ipv4 { a: 203, b: 0, c: 113, d: 5 }), "203.0.113.5");
    assert_eq!(format_ipv4(Ipv4 { a: 255, b: 255, c: 255, d: 255 }), "255.255.255.255");
    assert_eq!(format_ipv4(Ipv4 { a: 0, b: 0, c: 0, d: 0 }), "0.0.0.0");
}

#[test]
fn rdata_kinds() {
    assert_eq!(pretty_print(&RecordData::A(Ipv4 { a: 10, b: 1, c: 20, d: 3 })), "10.1.20.3");
    assert_eq!(pretty_print(&RecordData::Cname(String::from("www.example.test."))), "CNAME www.example.test.");
    assert_eq!(pretty_print(&RecordData::Ns(String::from("ns.test."))), "NS ns.test.");
    assert_eq!(pretty_print(&RecordData::Other(String::from("MX 10 mail."))), "MX 10 mail.");
}

#[test]
fn formatting_twice_gives_same_text() {
    let r = RecordData::Cname(String::from("b.test."));
    assert_eq!(pretty_print(&r), pretty_print(&r));
}

#[test]
fn status_lines() {
    let l = not_authoritative_line(8);
    assert_eq!((l.indent, l.style, l.text.as_str()), (8, Style::Progress, "This server is not authoritative"));
    let l = querying_line(4, &String::from("ns1.example.test"), Ipv4 { a: 198, b: 51, c: 100, d: 2 });
    assert_eq!(l.text, "Querying ns1.example.test (198.51.100.2)");
    let l = answer_line(0, &String::from("example.test."), &RecordData::A(Ipv4 { a: 203, b: 0, c: 113, d: 5 }));
    assert_eq!((l.style, l.text.as_str()), (Style::Answer, "example.test. -> 203.0.113.5"));
    let l = unable_line(12, &String::from("Message { }"));
    assert_eq!((l.indent, l.style, l.text.as_str()), (12, Style::Failure, "Unable to resolve. Got: Message { }"));
}
