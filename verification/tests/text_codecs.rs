use sentinel::codec::{html_escape, html_escape_simple, urlencoding_decode, urlencoding_lite};
use sentinel::storage::{decrypt_record, encrypt_record, encrypt_record_fresh, new_salt_text, storage_key};

#[test]
fn escaping() {
    assert_eq!(html_escape("<a href=\"x\">&</a>"), "&lt;a href=&quot;x&quot;&gt;&amp;&lt;/a&gt;");
    assert_eq!(html_escape_simple("<\"&\">"), "&lt;\"&amp;\"&gt;");
}

#[test]
fn url_codecs() {
    assert_eq!(urlencoding_lite("a b/é"), "a+b%2F%C3%A9");
    assert_eq!(urlencoding_decode("a+b%2Fc%zz%4"), "a b/c%zz%4");
    assert_eq!(urlencoding_decode("%C3%A9"), "é");
    assert_eq!(urlencoding_decode("%FF"), "\u{FFFD}");
}

#[test]
fn storage_records_round_trip() {
    let key = [3u8; 32];
    let nonce = [5u8; 12];
    let sealed = encrypt_record(Some(&key), &nonce, "test_value").unwrap();
    assert_eq!(&sealed[..12], &nonce);
    assert_eq!(decrypt_record(Some(&key), &sealed), Ok("test_value".to_string()));
    assert_eq!(encrypt_record(None, &nonce, "x"), Err("Storage is locked".to_string()));
    assert_eq!(decrypt_record(None, &sealed), Err("Storage is locked".to_string()));
    assert_eq!(decrypt_record(Some(&key), &[0u8; 5]), Err("Invalid encrypted data".to_string()));
    assert_eq!(decrypt_record(Some(&[4u8; 32]), &sealed), Err("Decryption error: aead::Error".to_string()));
}

#[test]
fn storage_keys_are_reproducible() {
    let salt = new_salt_text();
    assert_eq!(salt.len(), 32);
    assert!(salt.chars().all(|c| c.is_ascii_digit() || (c >= 'a' && c <= 'f')));
    let k1 = storage_key(b"super-secret-password", &salt).unwrap();
    let k2 = storage_key(b"super-secret-password", &salt).unwrap();
    assert_eq!(k1, k2);
    let other = storage_key(b"another", &salt).unwrap();
    assert_ne!(k1, other);
    assert!(storage_key(b"x", "!").unwrap_err().starts_with("Salt error: "));
}

#[test]
fn encoded_queries_decode_back() {
    for s in ["a b/ü?&=+%", "", "tor mail", "100% ~ok~", "日本語"] {
        assert_eq!(urlencoding_decode(&urlencoding_lite(s)), s);
    }
}

#[test]
fn test_storage_salt_persistence() {
    let secret = b"super-secret-password";
    // The salt is created once and stored in plain text.
    let salt = new_salt_text();

    // 1. Unlock with the secret and the new salt, store a value
    let stored = {
        let key = storage_key(secret, &salt).unwrap();
        encrypt_record_fresh(Some(&key), "test_value").unwrap()
    };

    // 2. Unlock again with the same secret and the persisted salt
    let key = storage_key(secret, &salt).expect("Should unlock with same secret and persisted salt");
    let val = decrypt_record(Some(&key), &stored).unwrap();
    assert_eq!(val, "test_value");
    assert_eq!(encrypt_record_fresh(None, "x"), Err("Storage is locked".to_string()));
}

#[test]
fn escaped_text_holds_no_markup() {
    for s in ["<script>alert(\"x\")</script>", "a&b>c<d\"e'f", "", "plain"] {
        let attr = html_escape(s);
        assert!(!attr.contains('<') && !attr.contains('>') && !attr.contains('"'), "{}", attr);
        let text = html_escape_simple(s);
        assert!(!text.contains('<') && !text.contains('>'), "{}", text);
    }
    assert_eq!(html_escape("<a href=\"x\">&</a>"), "&lt;a href=&quot;x&quot;&gt;&amp;&lt;/a&gt;");
}
