use veles::error::VelesError;
use veles::urls::{block_private_ip, ip_display, validate_public_http_url, IpAddress};

fn blocked(input: &str) -> String {
    match validate_public_http_url(input) {
        Err(VelesError::BlockedUrl(m)) => m,
        Err(e) => panic!("unexpected error for {}: {}", input, e.message()),
        Ok(_) => panic!("accepted {}", input),
    }
}

#[test]
fn accepts_public_urls() {
    let u = validate_public_http_url("https://Example.com").expect("public");
    assert_eq!(u.serialized, "https://example.com/");
    assert_eq!(u.scheme, "https");
    assert!(validate_public_http_url("http://8.8.8.8/x?y=1").is_ok());
    assert!(validate_public_http_url("http://[2001:db8::1]/").is_ok());
}

#[test]
fn refuses_other_schemes_and_local_hosts() {
    assert_eq!(blocked("ftp://example.com/"), "unsupported URL scheme: ftp");
    assert_eq!(blocked("file:///etc/passwd"), "unsupported URL scheme: file");
    assert_eq!(blocked("http://localhost:8080/"), "localhost domains are blocked by default");
    assert_eq!(blocked("http://api.LOCALHOST/"), "localhost domains are blocked by default");
    assert_eq!(blocked("http://10.1.2.3/"), "private or local IP address is blocked: 10.1.2.3");
    assert_eq!(blocked("http://127.1/"), "private or local IP address is blocked: 127.0.0.1");
    assert_eq!(blocked("http://172.20.0.1/"), "private or local IP address is blocked: 172.20.0.1");
    assert_eq!(blocked("http://169.254.169.254/"), "private or local IP address is blocked: 169.254.169.254");
    assert_eq!(blocked("http://0.0.0.0/"), "private or local IP address is blocked: 0.0.0.0");
    assert_eq!(blocked("http://[::1]/"), "private or local IP address is blocked: ::1");
    assert_eq!(blocked("http://[fe80::1:2]/"), "private or local IP address is blocked: fe80::1:2");
    assert_eq!(blocked("http://[fd00:0:0:1::5]/"), "private or local IP address is blocked: fd00:0:0:1::5");
    assert_eq!(blocked("http://[::ffff:127.0.0.1]/"), "private or local IP address is blocked: ::ffff:127.0.0.1");
    assert_eq!(blocked("http://[::ffff:10.0.0.1]/"), "private or local IP address is blocked: ::ffff:10.0.0.1");
    assert!(validate_public_http_url("http://[::ffff:8.8.8.8]/").is_ok());
}

#[test]
fn refuses_unparsable_urls() {
    match validate_public_http_url("not a url") {
        Err(VelesError::InvalidUrl(m)) => assert_eq!(m, "relative URL without a base"),
        _ => panic!("expected an invalid URL"),
    }
    let e = validate_public_http_url("not a url").err().unwrap();
    assert!(e.is_invalid_params());
    assert_eq!(e.message(), "invalid URL: relative URL without a base");
}

#[test]
fn ip_text_matches_std() {
    let cases: [([u16; 8], &str); 6] = [
        ([0, 0, 0, 0, 0, 0, 0, 0], "::"),
        ([0, 0, 0, 0, 0, 0, 0, 1], "::1"),
        ([0xfe80, 0, 0, 0, 0, 0, 1, 2], "fe80::1:2"),
        ([0x2001, 0xdb8, 0, 0, 1, 0, 0, 1], "2001:db8::1:0:0:1"),
        ([0, 0, 0, 0, 0, 0xffff, 0xc000, 0x0280], "::ffff:192.0.2.128"),
        ([1, 0, 2, 0, 3, 0, 4, 0], "1:0:2:0:3:0:4:0"),
    ];
    for (seg, text) in cases {
        assert_eq!(ip_display(IpAddress::V6(seg)), text);
    }
    assert_eq!(ip_display(IpAddress::V4([192, 168, 0, 10])), "192.168.0.10");
    assert!(block_private_ip(IpAddress::V4([8, 8, 8, 8])).is_ok());
    assert!(block_private_ip(IpAddress::V4([203, 0, 113, 9])).is_err());
    assert!(block_private_ip(IpAddress::V4([255, 255, 255, 255])).is_err());
    assert!(block_private_ip(IpAddress::V6([0xfc00, 0, 0, 0, 0, 0, 0, 1])).is_err());
}
