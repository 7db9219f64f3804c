//! Hashing one line into the record the workers write: the lowercase hex
//! SHA-1 digest of the line, the line itself, and separating commas.

use vstd::prelude::*;
use vstd::string::StringExecFns;

use sha1::Digest;

verus! {

/// One lowercase hex digit: `0..=9` then `a..=f`.
pub open spec fn hex_digit(n: u8) -> char
    recommends
        n < 16,
{
    if n < 10 {
        ((n + 48) as u8) as char
    } else {
        ((n + 87) as u8) as char
    }
}

/// The lowercase hex encoding of a byte string: two digits per byte, high
/// nibble first.
pub open spec fn hex_of(bytes: Seq<u8>) -> Seq<char> {
    Seq::new(
        bytes.len() * 2,
        |i: int|
            if i % 2 == 0 {
                hex_digit((bytes[i / 2] as int / 16) as u8)
            } else {
                hex_digit((bytes[i / 2] as int % 16) as u8)
            },
    )
}

/// The SHA-1 digest of a line, as a function of its characters alone.
pub uninterp spec fn sha1_of(text: Seq<char>) -> Seq<u8>;

/// The characters left once whitespace is stripped from both ends, as a
/// function of the characters alone.
pub uninterp spec fn trim_of(text: Seq<char>) -> Seq<char>;

/// Relies on sha1::Sha1::digest: the 20-byte SHA-1 digest of the line's
/// bytes, a function of the characters alone.
#[verifier::external_body]
fn sha1_digest_str(line: &str) -> (r: Vec<u8>)
    ensures
        r@ == sha1_of(line@),
        r@.len() == 20,
{
    sha1::Sha1::digest(line.as_bytes()).to_vec()
}

/// Relies on hex::encode: lowercase hex, two digits per byte, high nibble
/// first.
#[verifier::external_body]
fn hex_encode(bytes: &Vec<u8>) -> (r: String)
    ensures
        r@ == hex_of(bytes@),
{
    hex::encode(bytes.as_slice())
}

/// Relies on str::trim: whitespace stripped from both ends, a function of the
/// characters alone.
#[verifier::external_body]
fn trim_str(line: &str) -> (r: String)
    ensures
        r@ == trim_of(line@),
{
    line.trim().to_string()
}

/// The record written for one line: the hex digest, the line, and a trailing
/// comma after each.
pub open spec fn hash_record_of(line: Seq<char>) -> Seq<char> {
    hex_of(sha1_of(line)) + ","@ + line + ","@
}

/// Hash one line into its output record.
pub fn hash_me(line: &str) -> (r: String)
    ensures
        r@ == hash_record_of(line@),
{
    let digest = sha1_digest_str(line);
    let mut out = hex_encode(&digest);
    out.append(",");
    out.append(line);
    out.append(",");
    out
}

/// The line written by the sequential pass: the hex digest of the trimmed
/// line, then a newline.
pub open spec fn trimmed_digest_line_of(line: Seq<char>) -> Seq<char> {
    hex_of(sha1_of(trim_of(line))) + "\n"@
}

/// Trim one line and hash it into the digest-per-line output form.
pub fn hash_line_trimmed(line: &str) -> (r: String)
    ensures
        r@ == trimmed_digest_line_of(line@),
{
    let trimmed = trim_str(line);
    let digest = sha1_digest_str(trimmed.as_str());
    let mut out = hex_encode(&digest);
    out.append("\n");
    out
}

/// Hash every line of a batch, keeping order: record `i` is the record of
/// line `i`.
pub fn hash_all(lines: &Vec<String>) -> (r: Vec<String>)
    ensures
        r@.len() == lines@.len(),
        forall|i: int| 0 <= i < lines@.len() ==> r@[i]@ == hash_record_of(lines@[i]@),
{
    let mut out: Vec<String> = Vec::new();
    let mut i: usize = 0;
    while i < lines.len()
        invariant
            i <= lines@.len(),
            out@.len() == i,
            forall|j: int| 0 <= j < i ==> out@[j]@ == hash_record_of(lines@[j]@),
        decreases lines@.len() - i,
    {
        let record = hash_me(lines[i].as_str());
        out.push(record);
        i += 1;
    }
    out
}

} // verus!
