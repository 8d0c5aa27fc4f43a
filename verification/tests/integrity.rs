use minelaunch::fetch::FileCheck;
use minelaunch::integrity::{check_file, size_matches};

const EMPTY: &str = "da39a3ee5e6b4b0d3255bfef95601890afd80709";
const ABC: &str = "a9993e364706816aba3e25717850c26c9cd0d89d";
const HELLO_WORLD: &str = "2ef7bde608ce5404e97d5f042f95f89f1c232871";

#[test]
fn a_missing_file_is_invalid() {
    assert!(!check_file(None, EMPTY, 0));
    assert!(!check_file(None, ABC, 3));
}

#[test]
fn a_file_of_the_right_size_and_digest_is_valid() {
    assert!(check_file(Some(b"abc"), ABC, 3));
    assert!(check_file(Some(b""), EMPTY, 0));
    assert!(check_file(Some(b"Hello World!"), HELLO_WORLD, 12));
}

#[test]
fn a_wrong_size_is_invalid_even_with_the_right_digest() {
    assert!(!check_file(Some(b"abc"), ABC, 4));
    assert!(!check_file(Some(b"abc"), ABC, 2));
    assert!(!check_file(Some(b""), EMPTY, 1));
}

#[test]
fn a_wrong_digest_is_invalid_even_with_the_right_size() {
    assert!(!check_file(Some(b"abd"), ABC, 3));
    assert!(!check_file(Some(b"abc"), EMPTY, 3));
    assert!(!check_file(Some(b"abc"), "", 3));
}

#[test]
fn the_digest_is_not_the_content_itself() {
    assert!(!check_file(Some(b"abc"), "abc", 3));
    assert!(!check_file(Some(ABC.as_bytes()), ABC, 40));
}

#[test]
fn the_digest_is_compared_in_lower_case() {
    assert!(!check_file(Some(b"abc"), "A9993E364706816ABA3E25717850C26C9CD0D89D", 3));
}

#[test]
fn every_byte_counts() {
    let mut data = vec![7u8; 200_000];
    let digest = sha1::Sha1::from(&data).hexdigest();
    assert_eq!(digest.len(), 40);
    assert!(check_file(Some(&data), &digest, 200_000));
    data[199_999] = 8;
    assert!(!check_file(Some(&data), &digest, 200_000));
    data[199_999] = 7;
    data[0] = 8;
    assert!(!check_file(Some(&data), &digest, 200_000));
}

#[test]
fn writing_the_expected_bytes_makes_the_file_valid() {
    let expected = b"Hello World!".to_vec();
    let mut on_disk: Option<Vec<u8>> = None;
    assert!(!check_file(on_disk.as_deref(), HELLO_WORLD, 12));
    on_disk = Some(b"Hello".to_vec());
    assert!(!check_file(on_disk.as_deref(), HELLO_WORLD, 12));
    on_disk = Some(expected);
    assert!(check_file(on_disk.as_deref(), HELLO_WORLD, 12));
}

#[test]
fn the_size_alone_can_rule_a_file_out() {
    assert!(size_matches(Some(12), 12));
    assert!(!size_matches(Some(11), 12));
    assert!(!size_matches(None, 12));
    assert!(!size_matches(None, 0));
    assert!(size_matches(Some(0), 0));
}

#[test]
fn a_check_asks_for_a_fetch_only_when_the_file_is_invalid() {
    let check = FileCheck {
        path: "/mc/libraries/a.jar".to_string(),
        sha1: ABC.to_string(),
        size: 3,
        url: "https://libraries.example/a.jar".to_string(),
        label: "Library a".to_string(),
    };
    assert!(check.is_valid(Some(b"abc")));
    assert!(check.fetch_unless_valid(Some(b"abc")).is_none());
    let fetch = check.fetch_unless_valid(None).unwrap();
    assert_eq!(fetch.destination, "/mc/libraries/a.jar");
    assert_eq!(fetch.url, "https://libraries.example/a.jar");
    assert_eq!(fetch.label, "Library a");
    assert!(check.fetch_unless_valid(Some(b"abcd")).is_some());
    assert!(check.fetch_unless_valid(Some(b"xyz")).is_some());
}
