use ahagon::form::{find_byte, form_decode, form_first_value};
use ahagon::hex::hex_decode;

#[test]
fn hex_decode_pairs_of_digits() {
    assert_eq!(hex_decode(""), Some(vec![]));
    assert_eq!(hex_decode("00"), Some(vec![0]));
    assert_eq!(hex_decode("00ff"), Some(vec![0, 255]));
    assert_eq!(hex_decode("DEADbeef"), Some(vec![0xde, 0xad, 0xbe, 0xef]));
    assert_eq!(hex_decode("0"), None);
    assert_eq!(hex_decode("0g"), None);
    assert_eq!(hex_decode("123"), None);
    assert_eq!(hex_decode("sha1"), None);
}

#[test]
fn form_decode_escapes() {
    assert_eq!(form_decode(b""), b"".to_vec());
    assert_eq!(form_decode(b"plain"), b"plain".to_vec());
    assert_eq!(form_decode(b"a+b"), b"a b".to_vec());
    assert_eq!(form_decode(b"a%20b"), b"a b".to_vec());
    assert_eq!(form_decode(b"%7B%22x%22%3A1%7D"), b"{\"x\":1}".to_vec());
    // a percent without two hex digits after it stands for itself
    assert_eq!(form_decode(b"100%"), b"100%".to_vec());
    assert_eq!(form_decode(b"%zz"), b"%zz".to_vec());
    assert_eq!(form_decode(b"%2"), b"%2".to_vec());
}

#[test]
fn form_first_value_finds_the_first_binding() {
    assert_eq!(
        form_first_value(b"payload=%7B%7D", b"payload"),
        Some(b"{}".to_vec())
    );
    assert_eq!(
        form_first_value(b"a=1&payload=x&b=2", b"payload"),
        Some(b"x".to_vec())
    );
    assert_eq!(
        form_first_value(b"payload=first&payload=second", b"payload"),
        Some(b"first".to_vec())
    );
    assert_eq!(form_first_value(b"payload", b"payload"), Some(b"".to_vec()));
    assert_eq!(form_first_value(b"payload=", b"payload"), Some(b"".to_vec()));
    assert_eq!(form_first_value(b"", b"payload"), None);
    assert_eq!(form_first_value(b"a=1&b=2", b"payload"), None);
    assert_eq!(form_first_value(b"payloads=1", b"payload"), None);
    // the name is percent-decoded before it is compared
    assert_eq!(
        form_first_value(b"pay%6Coad=yes", b"payload"),
        Some(b"yes".to_vec())
    );
}

#[test]
fn find_byte_returns_first_hit_or_length() {
    assert_eq!(find_byte(b"a&b&c", b'&'), 1);
    assert_eq!(find_byte(b"abc", b'&'), 3);
    assert_eq!(find_byte(b"", b'&'), 0);
    assert_eq!(find_byte(b"&", b'&'), 0);
}
