use duo_hotp_export::secret::encode_secret;

fn reference(secret: &str) -> String {
    base32::encode(base32::Alphabet::RFC4648 { padding: false }, secret.as_bytes())
}

#[test]
fn encodes_hello() {
    assert_eq!(encode_secret("hello"), "NBSWY3DP");
}

#[test]
fn encodes_secret_without_padding() {
    assert_eq!(encode_secret("secret"), "ONSWG4TFOQ");
    assert_eq!(encode_secret("secreta"), "ONSWG4TFORQQ");
}

#[test]
fn encodes_nothing_as_nothing() {
    assert_eq!(encode_secret(""), "");
}

#[test]
fn encodes_every_tail_length() {
    assert_eq!(encode_secret("f"), "MY");
    assert_eq!(encode_secret("fo"), "MZXQ");
    assert_eq!(encode_secret("foo"), "MZXW6");
    assert_eq!(encode_secret("foob"), "MZXW6YQ");
    assert_eq!(encode_secret("fooba"), "MZXW6YTB");
    assert_eq!(encode_secret("foobar"), "MZXW6YTBOI");
}

#[test]
fn encodes_bytes_beyond_ascii() {
    assert_eq!(encode_secret("\u{fc}"), "YO6A");
    assert_eq!(encode_secret("\u{7f}\u{0}"), "P4AA");
}

#[test]
fn encoding_is_the_same_every_time() {
    let secret = "0123456789abcdef0123456789abcdef";
    assert_eq!(encode_secret(secret), encode_secret(secret));
    assert_eq!(encode_secret(secret), "GAYTEMZUGU3DOOBZMFRGGZDFMYYDCMRTGQ2TMNZYHFQWEY3EMVTA");
}

#[test]
fn never_pads() {
    let mut secret = String::new();
    for _ in 0..40 {
        assert!(!encode_secret(&secret).contains('='));
        secret.push('s');
    }
}

#[test]
fn length_is_one_symbol_per_five_bits_begun() {
    let mut secret = String::new();
    for bytes in 0..40usize {
        assert_eq!(encode_secret(&secret).len(), (8 * bytes + 4) / 5);
        secret.push('x');
    }
}

#[test]
fn uses_the_alphabet_only() {
    let encoded = encode_secret("The quick brown fox jumps over the lazy dog \u{1f600}\u{0}\u{7f}");
    assert!(encoded.chars().all(|symbol| "ABCDEFGHIJKLMNOPQRSTUVWXYZ234567".contains(symbol)));
}

#[test]
fn agrees_with_the_base32_crate() {
    let secrets = [
        "",
        "a",
        "hello",
        "secret",
        "0123456789abcdef0123456789abcdef",
        "\u{0}\u{1}\u{2}\u{7f}",
        "b\u{fc}cher \u{4f8b}\u{3048} \u{1f600}",
        "~~~~~~~~~~~~~~~~~~~~~~~~~~~~~~~~~",
    ];
    for secret in secrets {
        assert_eq!(encode_secret(secret), reference(secret));
    }
    let mut grown = String::new();
    for step in 0..300u32 {
        grown.push(char::from_u32(1 + (step * 37) % 0x2ff).unwrap());
        assert_eq!(encode_secret(&grown), reference(&grown));
    }
}
