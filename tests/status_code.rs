use reqores::{HttpStatusCode, HttpStatusCodeParseError};

#[test]
fn test_reflexivity() {
    for i in 100..=999 {
        let status_code = match HttpStatusCode::try_from(i) {
            Ok(status_code) => status_code,
            Err(_) => continue,
        };
        let status_code_u16 = u16::from(status_code);
        assert_eq!(i, status_code_u16);
    }
}

fn in_table(n: u16) -> bool {
    matches!(n, 100..=103 | 200..=208 | 226 | 300..=304 | 307 | 308 | 400..=417 | 421..=426
        | 428 | 429 | 431 | 451 | 500..=508 | 510 | 511)
}

#[test]
fn every_number_converts_exactly_when_in_table() {
    let mut accepted = 0;
    for n in 0..=u16::MAX {
        match HttpStatusCode::try_from(n) {
            Ok(code) => {
                assert!(in_table(n), "{} accepted", n);
                assert_eq!(u16::from(code), n);
                accepted += 1;
            }
            Err(e) => {
                assert!(!in_table(n), "{} rejected", n);
                assert_eq!(e, HttpStatusCodeParseError { value: n });
            }
        }
    }
    assert_eq!(accepted, 60);
}

#[test]
fn known_numbers_give_their_variants() {
    assert_eq!(HttpStatusCode::try_from(200), Ok(HttpStatusCode::Okay));
    assert_eq!(HttpStatusCode::try_from(404), Ok(HttpStatusCode::Notfound));
    assert_eq!(HttpStatusCode::try_from(226), Ok(HttpStatusCode::ImUsed));
    assert_eq!(HttpStatusCode::try_from(511), Ok(HttpStatusCode::NetworkAuthenticationRequired));
    assert_eq!(u16::from(HttpStatusCode::Continue), 100);
    assert_eq!(u16::from(HttpStatusCode::PermanentRedirect), 308);
}

#[test]
fn numbers_outside_the_table_are_rejected() {
    for n in [0u16, 99, 104, 209, 225, 305, 418, 420, 509, 512, 600, 999] {
        assert_eq!(HttpStatusCode::try_from(n), Err(HttpStatusCodeParseError { value: n }));
    }
}

#[test]
fn parse_error_message_names_the_number() {
    assert_eq!(HttpStatusCodeParseError { value: 600 }.to_string(), "Invalid Status Code: 600");
    assert_eq!(HttpStatusCodeParseError { value: 7 }.to_string(), "Invalid Status Code: 7");
    assert_eq!(HttpStatusCodeParseError { value: 0 }.to_string(), "Invalid Status Code: 0");
}
