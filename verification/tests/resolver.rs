use nctume_ddns::error::ErrorKind;
use nctume_ddns::ipv4::Ipv4;
use nctume_ddns::resolver::resolve;

#[test]
fn resolve_reads_a_bare_address() {
    assert_eq!(resolve("93.184.216.34").unwrap(), Ipv4::new(93, 184, 216, 34));
}

#[test]
fn resolve_ignores_white_space_around_the_address() {
    assert_eq!(resolve("8.8.8.8\n").unwrap(), Ipv4::new(8, 8, 8, 8));
    assert_eq!(resolve("  8.8.4.4\r\n").unwrap(), Ipv4::new(8, 8, 4, 4));
    assert_eq!(resolve("\t\n 1.1.1.1 \t").unwrap(), Ipv4::new(1, 1, 1, 1));
    assert_eq!(resolve("\u{0b}\u{0c}1.0.0.1\u{85}").unwrap(), Ipv4::new(1, 0, 0, 1));
}

#[test]
fn resolve_ignores_unicode_white_space() {
    assert_eq!(resolve("\u{3000}10.0.0.1\u{a0}").unwrap(), Ipv4::new(10, 0, 0, 1));
    assert_eq!(resolve("\u{2003}10.0.0.2\u{2028}\u{2029}").unwrap(), Ipv4::new(10, 0, 0, 2));
    assert_eq!(resolve("\u{1680}\u{202f}\u{205f}10.0.0.3").unwrap(), Ipv4::new(10, 0, 0, 3));
}

#[test]
fn resolve_fails_on_a_malformed_body() {
    let e = resolve("not-an-ip").unwrap_err();
    assert_eq!(e.kind(), ErrorKind::Format);
    assert_eq!(e.message(), "IP address format Error");
    assert_eq!(e.source(), None);
    assert_eq!(e.to_string(), "IP address format Error");
}

#[test]
fn resolve_fails_on_an_empty_or_blank_body() {
    assert_eq!(resolve("").unwrap_err().kind(), ErrorKind::Format);
    assert_eq!(resolve(" \n\t ").unwrap_err().kind(), ErrorKind::Format);
}

#[test]
fn resolve_fails_on_white_space_inside_the_address() {
    assert_eq!(resolve("1.2. 3.4").unwrap_err().kind(), ErrorKind::Format);
    assert_eq!(resolve("1.2.3.4 5").unwrap_err().kind(), ErrorKind::Format);
    assert_eq!(resolve("1.2.3.4\n5.6.7.8").unwrap_err().kind(), ErrorKind::Format);
}

#[test]
fn resolve_does_not_trim_what_is_not_white_space() {
    assert_eq!(resolve("\u{200b}1.2.3.4").unwrap_err().kind(), ErrorKind::Format);
    assert_eq!(resolve("\u{1c}1.2.3.4").unwrap_err().kind(), ErrorKind::Format);
    assert_eq!(resolve("\"1.2.3.4\"").unwrap_err().kind(), ErrorKind::Format);
    assert_eq!(resolve("1.2.3.4\0").unwrap_err().kind(), ErrorKind::Format);
}

#[test]
fn resolve_fails_on_other_address_forms() {
    assert_eq!(resolve("2001:db8::1").unwrap_err().kind(), ErrorKind::Format);
    assert_eq!(resolve("1.2.3.4:80").unwrap_err().kind(), ErrorKind::Format);
    assert_eq!(resolve("1.2.3.4/24").unwrap_err().kind(), ErrorKind::Format);
    assert_eq!(resolve("010.1.1.1").unwrap_err().kind(), ErrorKind::Format);
    assert_eq!(resolve("<html>1.2.3.4</html>").unwrap_err().kind(), ErrorKind::Format);
}
