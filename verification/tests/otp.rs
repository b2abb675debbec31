use duo_hotp_export::otp::{push_decimal, OtpCredential, DEFAULT_COUNTER, PROVIDER};

fn decimal(n: u32) -> String {
    let mut text = String::new();
    push_decimal(&mut text, n);
    text
}

#[test]
fn uri_for_first_counter() {
    let credential = OtpCredential::new(String::from("ABCD1234"), 1);
    assert_eq!(credential.uri(), "otpauth://hotp/Duo?secret=ABCD1234&issuer=Duo&counter=1");
}

#[test]
fn uri_for_seventh_counter() {
    let credential = OtpCredential::new(String::from("ABCD1234"), 7);
    assert_eq!(credential.uri(), "otpauth://hotp/Duo?secret=ABCD1234&issuer=Duo&counter=7");
}

#[test]
fn only_the_counter_segment_changes() {
    let head = "otpauth://hotp/Duo?secret=ABCD1234&issuer=Duo&counter=";
    for counter in [0u32, 1, 7, 9, 10, 99, 100, 65535, 4294967295] {
        let uri = OtpCredential::new(String::from("ABCD1234"), counter).uri();
        assert_eq!(uri, format!("{}{}", head, counter));
    }
}

#[test]
fn uri_for_empty_secret() {
    let credential = OtpCredential::new(String::new(), 1);
    assert_eq!(credential.uri(), "otpauth://hotp/Duo?secret=&issuer=Duo&counter=1");
}

#[test]
fn uri_spells_label_and_issuer() {
    let credential = OtpCredential {
        secret_base32: String::from("MZXW6"),
        issuer: String::from("Issuer"),
        label: String::from("Label"),
        counter: 42,
    };
    assert_eq!(credential.uri(), "otpauth://hotp/Label?secret=MZXW6&issuer=Issuer&counter=42");
}

#[test]
fn new_credential_is_the_providers() {
    let credential = OtpCredential::new(String::from("MZXW6"), 3);
    assert_eq!(credential.secret_base32, "MZXW6");
    assert_eq!(credential.issuer, "Duo");
    assert_eq!(credential.label, "Duo");
    assert_eq!(credential.counter, 3);
    assert_eq!(PROVIDER, "Duo");
}

#[test]
fn default_counter_is_one() {
    assert_eq!(DEFAULT_COUNTER, 1);
}

#[test]
fn decimal_of_single_digits() {
    assert_eq!(decimal(0), "0");
    assert_eq!(decimal(7), "7");
    assert_eq!(decimal(9), "9");
}

#[test]
fn decimal_of_longer_numbers() {
    assert_eq!(decimal(10), "10");
    assert_eq!(decimal(101), "101");
    assert_eq!(decimal(1000000), "1000000");
    assert_eq!(decimal(4294967295), "4294967295");
}

#[test]
fn decimal_appends() {
    let mut text = String::from("counter=");
    push_decimal(&mut text, 2021);
    assert_eq!(text, "counter=2021");
}

#[test]
fn decimal_agrees_with_formatting() {
    let mut n: u32 = 0;
    for step in 0..2000u32 {
        assert_eq!(decimal(n), format!("{}", n));
        n = n.wrapping_mul(31).wrapping_add(step * 7919 + 1);
    }
}
