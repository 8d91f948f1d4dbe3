use iconic::svg::parse_svg;

#[test]
fn parse_svg_reads_a_document() {
    let svg = br#"<svg xmlns="http://www.w3.org/2000/svg" width="10" height="20"><rect width="5" height="5"/></svg>"#;
    let tree = parse_svg(svg).unwrap();
    assert_eq!(tree.size().width(), 10.0);
    assert_eq!(tree.size().height(), 20.0);
}

#[test]
fn parse_svg_refuses_other_bytes() {
    assert!(parse_svg(&[0xff, 0xfe, 0x00]).is_none());
    assert!(parse_svg(b"plain text").is_none());
}

#[test]
fn parse_svg_refuses_malformed_documents() {
    assert!(parse_svg(b"<svg").is_none());
    assert!(parse_svg(b"").is_none());
}
