use fasttext::dictionary::{Dictionary, MAX_WORD_LEN};
use fasttext::fasttext::{model_file, path, vectors_file};
use fasttext::string::{fit, from_native, is_portable, to_native};

use fasttext::FastText;

fn ready() -> FastText {
    let mut model = FastText::default();
    assert!(model.load_model(0).is_ok());
    assert!(model.load_vectors(0).is_ok());
    model
}

#[test]
fn text_gets_one_terminator() {
    assert_eq!(to_native(b"abc"), b"abc\0".to_vec());
    assert_eq!(to_native(b""), vec![0u8]);
    assert_eq!(to_native("златом".as_bytes()), "златом\0".as_bytes().to_vec());
}

#[test]
fn text_with_a_terminator_inside_goes_out_empty() {
    assert_eq!(to_native(b"ab\0cd"), vec![0u8]);
    assert_eq!(to_native(b"\0"), vec![0u8]);
    assert_eq!(to_native(b"abc\0"), vec![0u8]);
    assert!(is_portable(b"abc"));
    assert!(is_portable(b""));
    assert!(!is_portable(b"a\0"));
}

#[test]
fn paths_are_laid_out_like_text() {
    assert_eq!(path("./test-data/unsupervised_model.bin"), b"./test-data/unsupervised_model.bin\0".to_vec());
    assert_eq!(path("unknown path"), b"unknown path\0".to_vec());
    assert_eq!(path("a\0b"), vec![0u8]);
    assert_eq!(path(""), vec![0u8]);
}

#[test]
fn query_lays_the_text_out() {
    let model = ready();
    assert_eq!(model.query("Куда сходить вечером").unwrap(), "Куда сходить вечером\0".as_bytes().to_vec());
    assert_eq!(model.query("a\0b").unwrap(), vec![0u8]);
}

#[test]
fn bytes_that_are_text_are_read_as_they_are() {
    assert_eq!(from_native(b"hello"), "hello");
    assert_eq!(from_native("златом".as_bytes()), "златом");
    assert_eq!(from_native("a\0b".as_bytes()), "a\0b");
    assert_eq!(from_native("𝄞".as_bytes()), "𝄞");
    assert_eq!(from_native(b""), "");
}

#[test]
fn bytes_that_are_no_text_read_as_nothing() {
    assert_eq!(from_native(&[0xff]), "");
    assert_eq!(from_native(&[b'a', 0x80]), "");
    assert_eq!(from_native(&[0xd0]), "");
    assert_eq!(from_native(&[0xc0, 0x80]), "");
    assert_eq!(from_native(&[0xed, 0xa0, 0x80]), "");
    assert_eq!(from_native(&[0xf4, 0x90, 0x80, 0x80]), "");
}

#[test]
fn reading_does_not_copy() {
    let bytes: Vec<u8> = "вечером".as_bytes().to_vec();
    let text: &str = from_native(&bytes);
    assert!(std::ptr::eq(text.as_ptr(), bytes.as_ptr()));
}

#[test]
fn buffer_is_fitted_to_the_reported_length() {
    assert_eq!(fit(vec![1u8, 2, 3, 4], 2), vec![1u8, 2]);
    assert_eq!(fit(vec![1u8, 2, 3, 4], 4), vec![1u8, 2, 3, 4]);
    assert_eq!(fit(vec![1u8, 2, 3, 4], 0), Vec::<u8>::new());
    assert_eq!(fit(vec![1u8, 2], 5), vec![1u8, 2, 0, 0, 0]);
    assert_eq!(fit(Vec::new(), 1), vec![0u8]);
}

#[test]
fn word_buffer_has_room_for_one_word() {
    assert_eq!(MAX_WORD_LEN, 256);
    assert_eq!(Dictionary::word_buffer(), vec![0u8; 256]);
}

#[test]
fn text_comes_back_as_it_went_out() {
    let model = ready();
    let dict = model.get_dictionary(30).unwrap();
    for word in ["златом", "a", "naïve", "日本語", "𝄞"] {
        let sent: Vec<u8> = to_native(word.as_bytes());
        let mut buf: Vec<u8> = Dictionary::word_buffer();
        let len: usize = sent.len() - 1;
        buf[..len].copy_from_slice(&sent[..len]);
        assert_eq!(dict.get_word(7, buf, len as u32).as_deref(), Some(word));
        assert_eq!(dict.word_index(word, 7), Some(7));
    }
}

#[test]
fn only_the_reported_length_ends_a_word() {
    let model = ready();
    let dict = model.get_dictionary(3).unwrap();

    let mut buf: Vec<u8> = Dictionary::word_buffer();
    buf[..5].copy_from_slice(b"ab\0cd");
    assert_eq!(dict.get_word(0, buf, 5).as_deref(), Some("ab\0cd"));

    let mut buf: Vec<u8> = Dictionary::word_buffer();
    buf[..5].copy_from_slice(b"abcde");
    assert_eq!(dict.get_word(1, buf, 3).as_deref(), Some("abc"));

    let mut buf: Vec<u8> = Dictionary::word_buffer();
    buf[..5].copy_from_slice(b"abcde");
    assert_eq!(dict.get_word(2, buf, 0), None);

    let mut buf: Vec<u8> = Dictionary::word_buffer();
    buf[..4].copy_from_slice("да".as_bytes());
    assert_eq!(dict.get_word(2, buf, 3), None);

    let buf: Vec<u8> = vec![b'x'; 256];
    let longer: String = dict.get_word(0, buf, 258).unwrap();
    assert_eq!(longer.len(), 258);
    assert!(longer.starts_with("xxxx"));
    assert!(longer.ends_with("x\0\0"));
}

#[test]
fn positions_are_held_to_the_vocabulary() {
    let model = ready();
    let dict = model.get_dictionary(23).unwrap();
    assert_eq!(dict.word_index("златом", 22), Some(22));
    assert_eq!(dict.word_index("златом", 0), Some(0));
    assert_eq!(dict.word_index("златом", -1), None);
    assert_eq!(dict.word_index("златом", i32::MIN), None);
    assert_eq!(dict.word_index("златом", 23), None);
    assert_eq!(dict.word_index("зла\0том", 22), None);

    assert_eq!(dict.position(0), Some(0));
    assert_eq!(dict.position(22), Some(22));
    assert_eq!(dict.position(23), None);
    assert_eq!(dict.position(-1), None);
    assert_eq!(dict.position(i64::MIN), None);
    assert_eq!(dict.position((1i64 << 32) + 22), None);

    let mut buf: Vec<u8> = Dictionary::word_buffer();
    buf[..3].copy_from_slice(b"abc");
    assert_eq!(dict.get_word(23, buf.clone(), 3), None);
    assert_eq!(dict.get_word(-1, buf.clone(), 3), None);
    assert_eq!(dict.get_word((1i64 << 32) + 22, buf.clone(), 3), None);
    assert_eq!(dict.get_word(22, buf, 3).as_deref(), Some("abc"));
}

#[test]
fn files_of_a_model() {
    assert_eq!(model_file("./test-data/unsupervised_model"), "./test-data/unsupervised_model.bin");
    assert_eq!(vectors_file("./test-data/unsupervised_model"), "./test-data/unsupervised_model.vec");
    assert_eq!(model_file(""), ".bin");
    assert_eq!(vectors_file(""), ".vec");
}
