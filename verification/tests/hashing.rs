use hashpool::hashing::{hash_all, hash_line_trimmed, hash_me};
use sha1::Digest;

#[test]
fn hash_me_known_value() {
    assert_eq!(
        hash_me("hello"),
        "aaf4c61ddcc5e8a2dabede0f3b482cd9aea9434d,hello,"
    );
}

#[test]
fn hash_me_empty_line() {
    assert_eq!(hash_me(""), "da39a3ee5e6b4b0d3255bfef95601890afd80709,,");
}

#[test]
fn hash_me_matches_direct_composition() {
    for line in ["password", "darkweb", "a longer line with spaces"] {
        let direct = hex::encode(sha1::Sha1::digest(line.as_bytes())) + "," + line + ",";
        assert_eq!(hash_me(line), direct);
    }
}

#[test]
fn hash_line_trimmed_strips_whitespace() {
    assert_eq!(
        hash_line_trimmed("  hello \n"),
        "aaf4c61ddcc5e8a2dabede0f3b482cd9aea9434d\n"
    );
    assert_eq!(
        hash_line_trimmed("hello"),
        "aaf4c61ddcc5e8a2dabede0f3b482cd9aea9434d\n"
    );
}

#[test]
fn hash_all_keeps_order() {
    let lines: Vec<String> = vec!["one".to_string(), "two".to_string(), "three".to_string()];
    let records = hash_all(&lines);
    assert_eq!(records.len(), 3);
    for (line, record) in lines.iter().zip(records.iter()) {
        assert_eq!(record, &hash_me(line));
    }
}
