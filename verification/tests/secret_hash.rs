use todo_api::secret::{can_hash, generate_secret_hash, hash_message, MAX_HASH_INPUT};

#[test]
fn hash_message_joins_user_name_and_client_id() {
    assert_eq!(hash_message("alice", "client-1"), b"aliceclient-1".to_vec());
    assert_eq!(hash_message("", "client-1"), b"client-1".to_vec());
    assert_eq!(hash_message("alice", ""), b"alice".to_vec());
    assert_eq!(hash_message("", ""), Vec::<u8>::new());
}

#[test]
fn hash_message_keeps_every_byte_of_both() {
    assert_eq!(hash_message("zoë", "é"), "zoëé".as_bytes().to_vec());
}

#[test]
fn secret_hash_of_a_known_input() {
    assert_eq!(
        generate_secret_hash("s3cr3t", "alice", "client-1"),
        "StOPOzvJOvhNGK8k21eT0BuouuKO8uiz8BXaHdKV744="
    );
}

#[test]
fn secret_hash_of_empty_inputs() {
    assert_eq!(
        generate_secret_hash("", "", ""),
        "thNnmggU2ex3L5XXeMNfxf8Wl8STcVZTxscSFEKSxa0="
    );
}

#[test]
fn secret_hash_of_a_key_longer_than_a_block() {
    let secret = "k".repeat(100);
    assert_eq!(
        generate_secret_hash(&secret, "alice", "client-1"),
        "TiwY0nvBDUV/fLytNUFa/xEhcWmr6esKLybhQQT7YdA="
    );
}

#[test]
fn secret_hash_of_text_beyond_ascii() {
    assert_eq!(
        generate_secret_hash("clé", "zoë", "cliënt"),
        "DR6wFo+/HC6M3hqzzOc9ICqdE9tgoLwCu+722xnH+1c="
    );
}

#[test]
fn secret_hash_sees_only_the_joined_message() {
    let expected = "NC5RnOCtbAOja5jus/HRMNtIE7nfTRFg7aSI1xLceO4=";
    assert_eq!(generate_secret_hash("k", "ab", "c"), expected);
    assert_eq!(generate_secret_hash("k", "a", "bc"), expected);
}

#[test]
fn secret_hash_depends_on_the_secret() {
    assert_ne!(
        generate_secret_hash("s3cr3t", "alice", "client-1"),
        generate_secret_hash("s3cr3u", "alice", "client-1")
    );
}

#[test]
fn secret_hash_is_neither_the_tag_nor_the_message() {
    let hash = generate_secret_hash("s3cr3t", "alice", "client-1");
    assert_eq!(hash.len(), 44);
    assert!(hash.ends_with('='));
    assert_ne!(hash.as_bytes(), b"aliceclient-1");
}

#[test]
fn ordinary_inputs_can_be_hashed() {
    assert!(can_hash("s3cr3t", "alice", "client-1"));
    assert!(can_hash("", "", ""));
    assert!(can_hash(&"k".repeat(100_000), &"u".repeat(100_000), "client-1"));
    assert_eq!(MAX_HASH_INPUT, 1 << 60);
}
