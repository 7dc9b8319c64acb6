use vigenere::cipher::vigenere_encode;
use vigenere::mode::{Buffer, Mode};
use vigenere::sync::{Event, Session};

#[test]
fn new_session_is_empty_and_encoding() {
    let s = Session::new();
    assert_eq!(s.mode, Mode::Encode);
    assert_eq!(s.key, "");
    assert_eq!(s.plaintext, "");
    assert_eq!(s.ciphertext, "");
}

#[test]
fn key_edit_recomputes_derived_from_editable() {
    let mut s = Session::new();
    s.handle(Event::KeyChanged("ab".to_string()));
    let u = s.handle(Event::EditableChanged("abc".to_string())).unwrap();
    assert_eq!(u.target, Buffer::Ciphertext);
    assert_eq!(u.content, "acc");
    assert_eq!(s.ciphertext, "acc");

    let u = s.handle(Event::KeyChanged("ba".to_string())).unwrap();
    assert_eq!(u.target, Buffer::Ciphertext);
    assert_eq!(u.content, vigenere_encode("abc", "ba"));
    assert_eq!(s.ciphertext, "bbd");
    assert_eq!(s.plaintext, "abc");
    assert_eq!(s.key, "ba");
}

#[test]
fn key_edit_normalizes_raw_input() {
    let mut s = Session::new();
    s.handle(Event::EditableChanged("Hello".to_string()));
    assert_eq!(s.ciphertext, "Hello");
    let u = s.handle(Event::KeyChanged("K-E-Y 1".to_string())).unwrap();
    assert_eq!(s.key, "key");
    assert_eq!(u.content, "Rijvs");
    assert_eq!(s.ciphertext, "Rijvs");
}

#[test]
fn writes_never_target_the_edited_buffer() {
    let mut s = Session::new();
    let u = s.handle(Event::EditableChanged("abc".to_string())).unwrap();
    assert_eq!(u.target, Buffer::Ciphertext);
    assert_ne!(u.target, Mode::Encode.editable());

    s.handle(Event::ModeToggled);
    let u = s.handle(Event::EditableChanged("Rijvs".to_string())).unwrap();
    assert_eq!(u.target, Buffer::Plaintext);
    assert_ne!(u.target, Mode::Decode.editable());
}

#[test]
fn mode_toggle_swaps_roles_without_recompute() {
    let mut s = Session::new();
    s.handle(Event::KeyChanged("key".to_string()));
    s.handle(Event::EditableChanged("Hello".to_string()));
    assert_eq!(s.ciphertext, "Rijvs");

    assert!(s.handle(Event::ModeToggled).is_none());
    assert_eq!(s.mode, Mode::Decode);
    assert_eq!(s.plaintext, "Hello");
    assert_eq!(s.ciphertext, "Rijvs");

    let u = s.handle(Event::EditableChanged("Rijvs!".to_string())).unwrap();
    assert_eq!(u.target, Buffer::Plaintext);
    assert_eq!(s.plaintext, "Hello!");
    assert_eq!(s.ciphertext, "Rijvs!");

    s.handle(Event::KeyChanged("".to_string()));
    assert_eq!(s.plaintext, "Rijvs!");
    assert_eq!(s.ciphertext, "Rijvs!");

    assert!(s.handle(Event::ModeToggled).is_none());
    assert_eq!(s.mode, Mode::Encode);
}

#[test]
fn content_of_reads_each_buffer() {
    let mut s = Session::new();
    s.handle(Event::KeyChanged("b".to_string()));
    s.handle(Event::EditableChanged("az".to_string()));
    assert_eq!(s.content_of(Buffer::Plaintext), "az");
    assert_eq!(s.content_of(Buffer::Ciphertext), "ba");
}

#[test]
fn mode_roles_and_labels() {
    assert_eq!(Mode::Encode.editable(), Buffer::Plaintext);
    assert_eq!(Mode::Encode.derived(), Buffer::Ciphertext);
    assert_eq!(Mode::Decode.editable(), Buffer::Ciphertext);
    assert_eq!(Mode::Decode.derived(), Buffer::Plaintext);
    assert_eq!(Mode::Encode.toggled(), Mode::Decode);
    assert_eq!(Mode::Decode.toggled(), Mode::Encode);
    assert_eq!(Buffer::Plaintext.other(), Buffer::Ciphertext);
    assert_eq!(Mode::Encode.labels(), ("Text to Encode:", "Encoded Output:"));
    assert_eq!(Mode::Decode.labels(), ("Text to Decode:", "Decoded Output:"));
    assert_eq!(Mode::Encode.label_of(Buffer::Ciphertext), "Encoded Output:");
    assert_eq!(Mode::Decode.label_of(Buffer::Plaintext), "Decoded Output:");
    assert_eq!(Mode::Decode.label_of(Buffer::Ciphertext), "Text to Decode:");
}
