use glb_to_ss::text::{build_request, is_agreement, read_reply};

#[test]
fn request_names_the_token() {
    assert_eq!(build_request("abc123"), b"put model abc123 stub".to_vec());
}

#[test]
fn request_with_an_empty_token_keeps_both_spaces() {
    assert_eq!(build_request(""), b"put model  stub".to_vec());
}

#[test]
fn request_takes_the_token_as_it_is() {
    assert_eq!(
        build_request("two words"),
        b"put model two words stub".to_vec()
    );
    assert_eq!(
        build_request("schl\u{fc}ssel"),
        "put model schl\u{fc}ssel stub".as_bytes().to_vec()
    );
}

#[test]
fn reply_is_read_as_utf8() {
    assert_eq!(read_reply(b"OK"), "OK");
    assert_eq!(read_reply(b"DENIED"), "DENIED");
    assert_eq!(read_reply(b""), "");
    assert_eq!(read_reply("gr\u{fc}n \u{2713}".as_bytes()), "gr\u{fc}n \u{2713}");
}

#[test]
fn reply_that_is_no_text_reads_as_the_stand_in() {
    assert_eq!(read_reply(&[0xff, 0xfe]), "Error Parsing Response");
    assert_eq!(read_reply(&[b'O', b'K', 0x80]), "Error Parsing Response");
    assert_eq!(read_reply(&[0xc0, 0xaf]), "Error Parsing Response");
    assert_eq!(read_reply(&[0xed, 0xa0, 0x80]), "Error Parsing Response");
}

#[test]
fn only_the_two_letters_agree() {
    assert!(is_agreement(&"OK".to_string()));
    for other in ["", "ok", "Ok", "OK ", " OK", "OK\n", "OKAY", "O", "K", "DENIED", "Error Parsing Response"] {
        assert!(!is_agreement(&other.to_string()));
    }
}
