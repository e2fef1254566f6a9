use ptr_tg_backend::client::Client;
use ptr_tg_backend::numeral::{i64_to_dec, u64_to_dec};

#[test]
fn get_updates_url_without_cursor() {
    let client = Client::new(String::from("abc123"), 60);
    assert_eq!(
        client.get_updates_url(None),
        "https://api.telegram.org/botabc123/getUpdates?timeout=60"
    );
}

#[test]
fn get_updates_url_with_cursor() {
    let client = Client::new(String::from("abc123"), 60);
    assert_eq!(
        client.get_updates_url(Some(8)),
        "https://api.telegram.org/botabc123/getUpdates?timeout=60&offset=8"
    );
}

#[test]
fn get_updates_url_with_negative_cursor() {
    let client = Client::new(String::from("t"), 90);
    assert_eq!(
        client.get_updates_url(Some(-3)),
        "https://api.telegram.org/bott/getUpdates?timeout=90&offset=-3"
    );
}

#[test]
fn get_me_url_shape() {
    let client = Client::new(String::from("abc123"), 60);
    assert_eq!(client.get_me_url(), "https://api.telegram.org/botabc123/getMe");
}

#[test]
fn unsigned_decimal_rendering() {
    assert_eq!(u64_to_dec(0), "0");
    assert_eq!(u64_to_dec(7), "7");
    assert_eq!(u64_to_dec(10), "10");
    assert_eq!(u64_to_dec(12345), "12345");
    assert_eq!(u64_to_dec(u64::MAX), "18446744073709551615");
}

#[test]
fn signed_decimal_rendering() {
    assert_eq!(i64_to_dec(0), "0");
    assert_eq!(i64_to_dec(151), "151");
    assert_eq!(i64_to_dec(-42), "-42");
    assert_eq!(i64_to_dec(i64::MAX), "9223372036854775807");
    assert_eq!(i64_to_dec(i64::MIN), "-9223372036854775808");
}
