use private_jar::jar::{Cookie, CookieJar};
use private_jar::private::{ConfigError, Private};
use private_jar::seal::{seal, seal_then_unseal, unseal, UnsealError, KEY_LEN};
use ring::aead::{Aad, LessSafeKey, Nonce, UnboundKey, AES_256_GCM};
use rustc_serialize::base64::{ToBase64, STANDARD};

#[test]
fn simple() {
    let key: Vec<u8> = (0..KEY_LEN as u8).collect();
    let mut jar = CookieJar::new();
    let private = jar.private(&key).unwrap();
    private.add(&mut jar, Cookie::new("name", "value")).unwrap();
    assert_eq!(private.get(&jar, "name").unwrap().value(), "value");
    private.remove(&mut jar, Cookie::named("name"));
    assert!(private.get(&jar, "name").is_none());
    assert!(jar.get("name").is_none());
}

#[test]
fn private() {
    let key: Vec<u8> = (0..KEY_LEN as u8).collect();
    let mut jar = CookieJar::new();
    let private = jar.private(&key).unwrap();
    private.add(&mut jar, Cookie::new("secure", "secure")).unwrap();
    assert!(jar.get("secure").unwrap().value() != "secure");
    let tampered = format!("{}l", jar.get("secure").unwrap().value());
    jar.add(Cookie::new("secure", &tampered));
    assert!(private.get(&jar, "secure").is_none());
    assert!(jar.get("secure").is_some());
}

#[test]
fn round_trip_various_plaintexts() {
    let key = vec![42u8; 32];
    let long = "x".repeat(1000);
    let plaintexts = ["", "a", "value", "hello, world", "gr\u{00fc}n \u{2713} \u{1f36a}", &long];
    for p in plaintexts {
        let sealed = seal(p, &key).expect("seal");
        assert_eq!(unseal(&sealed, &key).expect("unseal"), p);
        assert_eq!(seal_then_unseal(p, &key).expect("round trip"), p);
    }
}

#[test]
fn sealed_output_length() {
    // payload is 12 nonce bytes + 5 plaintext bytes + 16 tag bytes = 33 bytes,
    // which base64 encodes to 44 characters.
    let key = vec![1u8; 32];
    let sealed = seal("value", &key).unwrap();
    assert_eq!(sealed.len(), 44);
}

#[test]
fn tamper_any_single_character() {
    let key = vec![9u8; 32];
    let sealed = seal("tamper me", &key).unwrap();
    let chars: Vec<char> = sealed.chars().collect();
    for i in 0..chars.len() {
        let mut copy = chars.clone();
        copy[i] = if copy[i] == 'Q' { 'A' } else { 'Q' };
        let corrupted: String = copy.iter().collect();
        assert!(unseal(&corrupted, &key).is_err(), "position {} survived tampering", i);
    }
}

#[test]
fn truncated_and_extended_values_fail() {
    let key = vec![9u8; 32];
    let sealed = seal("tamper me", &key).unwrap();
    let truncated = &sealed[..sealed.len() - 4];
    assert!(unseal(truncated, &key).is_err());
    let extended = format!("{}AAAA", sealed);
    assert!(unseal(&extended, &key).is_err());
}

#[test]
fn wrong_key_fails() {
    let k1: Vec<u8> = (0..32u8).collect();
    let mut k2 = k1.clone();
    k2[31] ^= 1;
    let k3 = vec![0u8; 32];
    let sealed = seal("secret", &k1).unwrap();
    assert_eq!(unseal(&sealed, &k2).unwrap_err(), UnsealError::AuthenticationFailed);
    assert_eq!(unseal(&sealed, &k3).unwrap_err(), UnsealError::AuthenticationFailed);
    assert_eq!(unseal(&sealed, &k1).unwrap(), "secret");
}

#[test]
fn nonce_freshness() {
    let key = vec![7u8; 32];
    let first = seal("same plaintext", &key).unwrap();
    let second = seal("same plaintext", &key).unwrap();
    assert_ne!(first, second);
    assert_eq!(unseal(&first, &key).unwrap(), "same plaintext");
    assert_eq!(unseal(&second, &key).unwrap(), "same plaintext");
}

#[test]
fn key_length_validation() {
    let jar = CookieJar::new();
    for n in [0usize, 16, 31, 33, 64] {
        let key = vec![7u8; n];
        assert!(matches!(jar.private(&key), Err(ConfigError::InvalidKeyLength)), "length {}", n);
    }
    let key = vec![7u8; 32];
    assert!(jar.private(&key).is_ok());
}

#[test]
fn facade_concrete_behaviour() {
    let key: Vec<u8> = (0..=31u8).collect();
    let mut jar = CookieJar::new();
    let private = jar.private(&key).unwrap();

    private.add(&mut jar, Cookie::new("n", "text")).unwrap();
    assert_ne!(jar.get("n").unwrap().value(), "text");
    assert_eq!(private.get(&jar, "n").unwrap().value(), "text");

    let corrupted = format!("{}!", jar.get("n").unwrap().value());
    jar.add(Cookie::new("n", &corrupted));
    assert!(private.get(&jar, "n").is_none());
    assert_eq!(jar.get("n").unwrap().value(), corrupted);

    private.remove(&mut jar, Cookie::named("n"));
    assert!(private.get(&jar, "n").is_none());
    assert!(jar.get("n").is_none());
}

#[test]
fn error_bad_encoding() {
    let key = vec![3u8; 32];
    assert_eq!(unseal("not base64 !!", &key).unwrap_err(), UnsealError::BadEncoding);
    assert_eq!(unseal("Zm9v~", &key).unwrap_err(), UnsealError::BadEncoding);
}

#[test]
fn error_malformed() {
    let key = vec![3u8; 32];
    // the empty text decodes to zero bytes
    assert_eq!(unseal("", &key).unwrap_err(), UnsealError::Malformed);
    // "AAAA" decodes to three bytes
    assert_eq!(unseal("AAAA", &key).unwrap_err(), UnsealError::Malformed);
    // sixteen characters decode to exactly twelve bytes, a bare nonce
    assert_eq!(unseal("AAAAAAAAAAAAAAAA", &key).unwrap_err(), UnsealError::Malformed);
}

#[test]
fn error_authentication_failed() {
    let key = vec![3u8; 32];
    // forty characters decode to thirty bytes that were never sealed
    let forged = "A".repeat(40);
    assert_eq!(unseal(&forged, &key).unwrap_err(), UnsealError::AuthenticationFailed);
}

#[test]
fn error_invalid_utf8() {
    // Seal bytes that are not UTF-8 text directly with the AEAD primitive;
    // unsealing authenticates but must reject the decrypted bytes.
    let key = vec![5u8; 32];
    let unbound = UnboundKey::new(&AES_256_GCM, &key).unwrap();
    let sealing = LessSafeKey::new(unbound);
    let nonce_bytes = [0u8; 12];
    let nonce = Nonce::assume_unique_for_key(nonce_bytes);
    let mut buf = vec![0xffu8, 0xfe, 0xfd];
    sealing.seal_in_place_append_tag(nonce, Aad::empty(), &mut buf).unwrap();
    let mut payload = nonce_bytes.to_vec();
    payload.extend_from_slice(&buf);
    let encoded = payload.to_base64(STANDARD);
    assert_eq!(unseal(&encoded, &key).unwrap_err(), UnsealError::InvalidUtf8);
}

#[test]
fn jar_add_replaces_same_name() {
    let mut jar = CookieJar::new();
    jar.add(Cookie::new("a", "1"));
    jar.add(Cookie::new("b", "2"));
    jar.add(Cookie::new("a", "3"));
    assert_eq!(jar.get("a").unwrap().value(), "3");
    assert_eq!(jar.get("b").unwrap().value(), "2");
}

#[test]
fn jar_remove_absent_is_no_op() {
    let mut jar = CookieJar::new();
    jar.add(Cookie::new("a", "1"));
    jar.remove(Cookie::named("missing"));
    assert_eq!(jar.get("a").unwrap().value(), "1");
    assert!(jar.get("missing").is_none());
}

#[test]
fn facade_overwrites_previous_sealing() {
    let key = vec![11u8; 32];
    let mut jar = CookieJar::new();
    let private = jar.private(&key).unwrap();
    private.add(&mut jar, Cookie::new("n", "first")).unwrap();
    private.add(&mut jar, Cookie::new("n", "second")).unwrap();
    assert_eq!(private.get(&jar, "n").unwrap().value(), "second");
}

#[test]
fn cookie_accessors() {
    let mut cookie = Cookie::new("name", "value");
    assert_eq!(cookie.name(), "name");
    assert_eq!(cookie.value(), "value");
    cookie.set_value(String::from("other"));
    assert_eq!(cookie.name(), "name");
    assert_eq!(cookie.value(), "other");
    let named = Cookie::named("n");
    assert_eq!(named.name(), "n");
    assert_eq!(named.value(), "");
}
