//! Fanning a batch of lines out to a fixed set of four hashing threads: each
//! line goes to a bucket chosen by its position in the batch, order kept
//! within each bucket.

use vstd::prelude::*;

verus! {

/// The bucket line `i` is sent to: lines 1 through 2500 to bucket 0, 2501
/// through 5000 to 1, 5001 through 7500 to 2, and every other line — the
/// very first and everything past 7500 — to 3.
pub open spec fn bucket_of(i: int) -> int {
    if 1 <= i <= 2500 {
        0
    } else if 2501 <= i <= 5000 {
        1
    } else if 5001 <= i <= 7500 {
        2
    } else {
        3
    }
}

/// The lines among the first `n`, in order, whose position falls in bucket
/// `b`.
pub open spec fn bucket_lines(lines: Seq<Seq<char>>, b: int, n: int) -> Seq<Seq<char>>
    decreases n,
{
    if n <= 0 {
        Seq::empty()
    } else {
        bucket_lines(lines, b, n - 1) + (if bucket_of(n - 1) == b {
            seq![lines[n - 1]]
        } else {
            Seq::<Seq<char>>::empty()
        })
    }
}

/// The bucket for one line position.
pub fn bucket_index(i: usize) -> (b: usize)
    ensures
        b == bucket_of(i as int),
{
    if 1 <= i && i <= 2500 {
        0
    } else if 2501 <= i && i <= 5000 {
        1
    } else if 5001 <= i && i <= 7500 {
        2
    } else {
        3
    }
}

/// Split a batch of lines into the four buckets, each keeping submission
/// order.
pub fn partition_lines(lines: &Vec<String>) -> (r: (Vec<String>, Vec<String>, Vec<String>, Vec<
    String,
>))
    ensures
        r.0.deep_view() == bucket_lines(lines.deep_view(), 0, lines@.len() as int),
        r.1.deep_view() == bucket_lines(lines.deep_view(), 1, lines@.len() as int),
        r.2.deep_view() == bucket_lines(lines.deep_view(), 2, lines@.len() as int),
        r.3.deep_view() == bucket_lines(lines.deep_view(), 3, lines@.len() as int),
{
    let mut b0: Vec<String> = Vec::new();
    let mut b1: Vec<String> = Vec::new();
    let mut b2: Vec<String> = Vec::new();
    let mut b3: Vec<String> = Vec::new();
    let mut i: usize = 0;
    while i < lines.len()
        invariant
            i <= lines@.len(),
            b0.deep_view() == bucket_lines(lines.deep_view(), 0, i as int),
            b1.deep_view() == bucket_lines(lines.deep_view(), 1, i as int),
            b2.deep_view() == bucket_lines(lines.deep_view(), 2, i as int),
            b3.deep_view() == bucket_lines(lines.deep_view(), 3, i as int),
        decreases lines@.len() - i,
    {
        let line = lines[i].clone();
        proof {
            assert(line@ == lines.deep_view()[i as int]);
        }
        let b = bucket_index(i);
        if b == 0 {
            b0.push(line);
        } else if b == 1 {
            b1.push(line);
        } else if b == 2 {
            b2.push(line);
        } else {
            b3.push(line);
        }
        proof {
            assert(b0.deep_view() =~= bucket_lines(lines.deep_view(), 0, i as int + 1));
            assert(b1.deep_view() =~= bucket_lines(lines.deep_view(), 1, i as int + 1));
            assert(b2.deep_view() =~= bucket_lines(lines.deep_view(), 2, i as int + 1));
            assert(b3.deep_view() =~= bucket_lines(lines.deep_view(), 3, i as int + 1));
        }
        i += 1;
    }
    (b0, b1, b2, b3)
}

} // verus!
