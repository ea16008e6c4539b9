use base64::Engine;
use bookmeta::cache::{cache_file_name, cache_key, key_of_digest};
use bookmeta::encoding::{data_uri, encode_base64, CHUNK};
use std::collections::HashSet;

#[test]
fn base64_of_the_standard_examples() {
    assert_eq!(encode_base64(b""), "");
    assert_eq!(encode_base64(b"f"), "Zg==");
    assert_eq!(encode_base64(b"fo"), "Zm8=");
    assert_eq!(encode_base64(b"foo"), "Zm9v");
    assert_eq!(encode_base64(b"foob"), "Zm9vYg==");
    assert_eq!(encode_base64(b"fooba"), "Zm9vYmE=");
    assert_eq!(encode_base64(b"foobar"), "Zm9vYmFy");
}

#[test]
fn base64_uses_the_standard_alphabet() {
    assert_eq!(encode_base64(&[0xFB, 0xFF, 0xBF]), "+/+/");
    assert_eq!(encode_base64(&[0x00, 0x10, 0x83, 0x10, 0x51, 0x87]), "ABCDEFGH");
    assert_eq!(encode_base64(&[0xFF]), "/w==");
    assert_eq!(encode_base64(&[0xFF, 0xD8, 0xFF]), "/9j/");
}

#[test]
fn base64_of_more_than_one_chunk() {
    for extra in [0usize, 1, 2, 3, 5] {
        let bytes: Vec<u8> = (0..CHUNK + extra).map(|i| (i * 31 % 251) as u8).collect();
        let expected = base64::engine::general_purpose::STANDARD.encode(&bytes);
        assert_eq!(encode_base64(&bytes), expected);
    }
    let bytes: Vec<u8> = (0..2 * CHUNK + 4).map(|i| (i % 256) as u8).collect();
    let expected = base64::engine::general_purpose::STANDARD.encode(&bytes);
    assert_eq!(encode_base64(&bytes), expected);
}

#[test]
fn chunk_is_a_whole_number_of_groups() {
    assert_eq!(CHUNK % 3, 0);
    assert_eq!(CHUNK, 3 * 1024 * 1024);
}

#[test]
fn data_uri_names_type_and_payload() {
    assert_eq!(data_uri("image/jpeg", &[0xFF, 0xD8, 0xFF]), "data:image/jpeg;base64,/9j/");
    assert_eq!(data_uri("image/png", b"foob"), "data:image/png;base64,Zm9vYg==");
    assert_eq!(data_uri("", b""), "data:;base64,");
}

#[test]
fn cache_key_is_the_digest_in_hexadecimal() {
    assert_eq!(
        cache_key("hello world"),
        "b94d27b9934d3e08a52e52d7da7dabfac484efe37a5380ee9088f7ace2efcde9"
    );
    assert_eq!(
        cache_key(""),
        "e3b0c44298fc1c149afbf4c8996fb92427ae41e4649b934ca495991b7852b855"
    );
    assert_eq!(
        cache_key("abc"),
        "ba7816bf8f01cfea414140de5dae2223b00361a396177a9cb410ff61f20015ad"
    );
}

#[test]
fn cache_key_reads_the_path_as_utf8() {
    let path = "/books/Les Misérables.epub";
    let expected = hex::encode(<sha2::Sha256 as sha2::Digest>::digest(path.as_bytes()));
    assert_eq!(cache_key(path), expected);
}

#[test]
fn cache_key_is_64_lower_case_digits() {
    for path in ["", "/a", "/home/reader/books/Moby Dick.pdf", "C:\\Books\\x.epub", "人.pdf"] {
        let key = cache_key(path);
        assert_eq!(key.len(), 64);
        assert!(key.chars().all(|c| c.is_ascii_digit() || ('a'..='f').contains(&c)));
    }
}

#[test]
fn same_path_gives_same_key() {
    let path = String::from("/books/moby.pdf");
    let copy = format!("/books/{}.pdf", "moby");
    assert_eq!(cache_key(&path), cache_key(&path));
    assert_eq!(cache_key(&path), cache_key(&copy));
    assert_eq!(cache_file_name(&path), cache_file_name(&copy));
}

#[test]
fn different_paths_give_different_keys() {
    let mut keys = HashSet::new();
    let mut count = 0;
    for shelf in 0..40 {
        for book in 0..50 {
            for extension in ["pdf", "epub", "PDF"] {
                keys.insert(cache_key(&format!("/shelf{}/book{}.{}", shelf, book, extension)));
                count += 1;
            }
        }
    }
    assert_eq!(keys.len(), count);
    assert_ne!(cache_key("/a/b.pdf"), cache_key("/a/b.pdf "));
    assert_ne!(cache_key("/a/b.pdf"), cache_key("/A/b.pdf"));
}

#[test]
fn cache_file_is_the_key_with_jpg() {
    assert_eq!(
        cache_file_name("hello world"),
        "b94d27b9934d3e08a52e52d7da7dabfac484efe37a5380ee9088f7ace2efcde9.jpg"
    );
    assert_eq!(cache_file_name("/x.epub"), format!("{}.jpg", cache_key("/x.epub")));
}

#[test]
fn digest_is_written_in_lower_case_hexadecimal() {
    assert_eq!(key_of_digest(&[]), "");
    assert_eq!(key_of_digest(&[0x00, 0xFF, 0x0A, 0xA0, 0x9F, 0x10]), "00ff0aa09f10");
    assert_eq!(key_of_digest(&[1, 2, 3, 15, 16]), "0102030f10");
    assert_eq!(key_of_digest(b"Hello world!"), "48656c6c6f20776f726c6421");
    let all: Vec<u8> = (0u8..=255).collect();
    assert_eq!(key_of_digest(&all), hex::encode(&all));
}
