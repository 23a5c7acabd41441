use wormhole_native::{is_valid_code, WormholeClient, WormholeError};

#[test]
fn accepts_wordlist_codes() {
    assert!(is_valid_code("4-aardvark-adroitness"));
    assert!(is_valid_code("1-adroitness"));
    assert!(is_valid_code("17-aardvark-adroitness-aardvark"));
}

#[test]
fn rejects_words_off_the_list() {
    assert!(!is_valid_code("7-wrong-words"));
}

#[test]
fn rejects_empty_and_dashless_input() {
    assert!(!is_valid_code(""));
    assert!(!is_valid_code("justwords"));
    assert!(!is_valid_code("4 aardvark"));
}

#[test]
fn rejects_bad_nameplates() {
    assert!(!is_valid_code("x4-aardvark"));
    assert!(!is_valid_code("0-aardvark"));
    assert!(!is_valid_code("00-aardvark"));
    assert!(!is_valid_code("-aardvark"));
}

#[test]
fn rejects_empty_words() {
    assert!(!is_valid_code("4-"));
    assert!(!is_valid_code("4-aardvark-"));
    assert!(!is_valid_code("4--aardvark"));
}

#[test]
fn rejects_non_ascii_codes() {
    assert!(!is_valid_code("4-ärdvärk"));
}

#[test]
fn connect_receive_rejects_invalid_code() {
    let client = WormholeClient::new();
    let err = client
        .connect_receive_begin("7-wrong-words".to_string())
        .unwrap_err();
    match err {
        WormholeError::InvalidCode(raw) => assert_eq!(raw, "7-wrong-words"),
        other => panic!("expected InvalidCode, got {:?}", other),
    }
}

#[test]
fn connect_receive_accepts_valid_code() {
    let client = WormholeClient::new();
    let (code, hints) = client
        .connect_receive_begin("4-aardvark-adroitness".to_string())
        .unwrap();
    assert_eq!(code, "4-aardvark-adroitness");
    assert_eq!(hints.len(), 1);
}
