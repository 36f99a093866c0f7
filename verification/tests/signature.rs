use ahagon::gateway::Server;
use ahagon::http::{Method, Request};
use ahagon::sig::ct_eq;
use hmac::{Hmac, KeyInit, Mac};
use sha1::Sha1;

fn sign(key: &[u8], msg: &[u8]) -> String {
    let mut mac = <Hmac<Sha1> as KeyInit>::new_from_slice(key).unwrap();
    mac.update(msg);
    let tag = mac.finalize().into_bytes();
    let mut s = String::from("sha1=");
    for b in tag.as_slice() {
        s.push_str(&format!("{:02x}", b));
    }
    s
}

fn request(method: Method, path: &str, headers: &[(String, String)], body: &[u8]) -> Request {
    Request {
        method,
        path: path.to_string(),
        headers: headers.to_vec(),
        body: body.to_vec(),
    }
}

fn secured_server() -> Server {
    Server {
        github_secret: Some(b"github shared secret".to_vec()),
        travis_secret: Some(b"travis shared secret".to_vec()),
        index_page: None,
        favicon: None,
    }
}

#[test]
fn github_with_good_signature_gets_200() {
    let s = secured_server();
    let body = b"{\"ref\":\"main\"}";
    let headers = vec![
        ("x-github-event".to_string(), "push".to_string()),
        ("user-agent".to_string(), "GitHub-Hookshot/abc".to_string()),
        (
            "x-hub-signature".to_string(),
            sign(b"github shared secret", body),
        ),
    ];
    let resp = s.handle(&request(Method::Post, "/github", &headers, body));
    assert_eq!(resp.status, 200);
}

#[test]
fn github_with_uppercase_hex_signature_gets_200() {
    let s = secured_server();
    let body = b"{\"ref\":\"main\"}";
    let upper = sign(b"github shared secret", body)
        .replace("sha1=", "")
        .to_uppercase();
    let headers = vec![
        ("x-github-event".to_string(), "push".to_string()),
        ("user-agent".to_string(), "GitHub-Hookshot/abc".to_string()),
        ("x-hub-signature".to_string(), format!("sha1={}", upper)),
    ];
    let resp = s.handle(&request(Method::Post, "/github", &headers, body));
    assert_eq!(resp.status, 200);
}

#[test]
fn github_with_wrong_signature_gets_400() {
    let s = secured_server();
    let body = b"{\"ref\":\"main\"}";
    let headers = vec![
        ("x-github-event".to_string(), "push".to_string()),
        ("user-agent".to_string(), "GitHub-Hookshot/abc".to_string()),
        (
            "x-hub-signature".to_string(),
            sign(b"github shared secret", b"{\"ref\":\"tampered\"}"),
        ),
    ];
    let resp = s.handle(&request(Method::Post, "/github", &headers, body));
    assert_eq!(resp.status, 400);
}

#[test]
fn github_without_signature_header_gets_400_when_secret_set() {
    let s = secured_server();
    let body = b"{\"ref\":\"main\"}";
    let headers = vec![
        ("x-github-event".to_string(), "push".to_string()),
        ("user-agent".to_string(), "GitHub-Hookshot/abc".to_string()),
    ];
    let resp = s.handle(&request(Method::Post, "/github", &headers, body));
    assert_eq!(resp.status, 400);
}

#[test]
fn github_with_malformed_signature_header_gets_400() {
    let s = secured_server();
    let body = b"{\"ref\":\"main\"}";
    for bad in ["", "sha1=", "sha1=zz", "sha1=abc", "md5=00", "00ff"] {
        let headers = vec![
            ("x-github-event".to_string(), "push".to_string()),
            ("user-agent".to_string(), "GitHub-Hookshot/abc".to_string()),
            ("x-hub-signature".to_string(), bad.to_string()),
        ];
        let resp = s.handle(&request(Method::Post, "/github", &headers, body));
        assert_eq!(resp.status, 400);
    }
}

#[test]
fn travis_with_good_signature_gets_200() {
    let s = secured_server();
    let payload = b"{\"status\":\"passed\"}";
    let body = b"payload=%7B%22status%22%3A%22passed%22%7D";
    let headers = vec![(
        "signature".to_string(),
        sign(b"travis shared secret", payload),
    )];
    let resp = s.handle(&request(Method::Post, "/travis", &headers, body));
    assert_eq!(resp.status, 200);
}

#[test]
fn travis_with_wrong_signature_gets_400() {
    let s = secured_server();
    let body = b"payload=%7B%22status%22%3A%22passed%22%7D";
    let headers = vec![(
        "signature".to_string(),
        sign(b"travis shared secret", b"{\"status\":\"failed\"}"),
    )];
    let resp = s.handle(&request(Method::Post, "/travis", &headers, body));
    assert_eq!(resp.status, 400);
}

#[test]
fn travis_without_signature_header_gets_400_when_secret_set() {
    let s = secured_server();
    let body = b"payload=%7B%22status%22%3A%22passed%22%7D";
    let resp = s.handle(&request(Method::Post, "/travis", &[], body));
    assert_eq!(resp.status, 400);
}

#[test]
fn ct_eq_decides_byte_equality() {
    assert!(ct_eq(b"", b""));
    assert!(ct_eq(b"abc", b"abc"));
    assert!(!ct_eq(b"abc", b"abd"));
    assert!(!ct_eq(b"abc", b"abcd"));
    assert!(!ct_eq(b"", b"x"));
}
