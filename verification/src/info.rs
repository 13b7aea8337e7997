//! Extracting the availability-zone field from an introspection reply.
//!
//! The introspection command answers with a text payload of lines, each
//! `key:value`, ended by a line feed and optionally a carriage return
//! before it. The handshake needs exactly one field of it: the first line
//! whose key is `availability_zone`.

use vstd::prelude::*;
use crate::bytes::bytes_eq;
use crate::bytes::subvec;

verus! {

/// "availability_zone": the introspection field naming the server's zone.
pub open spec fn az_key() -> Seq<u8> {
    seq![97u8, 118u8, 97u8, 105u8, 108u8, 97u8, 98u8, 105u8, 108u8, 105u8, 116u8, 121u8, 95u8, 122u8, 111u8, 110u8, 101u8]
}

/// Builds "availability_zone".
pub fn az_key_vec() -> (r: Vec<u8>)
    ensures
        r@ == az_key(),
{
    let r = vec![97u8, 118u8, 97u8, 105u8, 108u8, 97u8, 98u8, 105u8, 108u8, 105u8, 116u8, 121u8, 95u8, 122u8, 111u8, 110u8, 101u8];
    proof {
        assert(r@ =~= az_key());
    }
    r
}

/// The position of the first line feed at or after `i`, or the payload's
/// length if there is none.
pub open spec fn line_end(s: Seq<u8>, i: int) -> int
    decreases s.len() - i when 0 <= i
{
    if i >= s.len() {
        s.len() as int
    } else if s[i] == 10 {
        i
    } else {
        line_end(s, i + 1)
    }
}

/// `line_end` stays within the payload and never moves backward.
pub proof fn lemma_line_end_bounds(s: Seq<u8>, i: int)
    requires
        0 <= i <= s.len(),
    ensures
        i <= line_end(s, i) <= s.len(),
    decreases s.len() - i,
{
    if i < s.len() && s[i] != 10 {
        lemma_line_end_bounds(s, i + 1);
    }
}

/// The position of the first colon at or after `j`, or the line's length
/// if there is none.
pub open spec fn colon_pos(line: Seq<u8>, j: int) -> int
    decreases line.len() - j when 0 <= j
{
    if j >= line.len() {
        line.len() as int
    } else if line[j] == 58 {
        j
    } else {
        colon_pos(line, j + 1)
    }
}

/// `colon_pos` stays within the line and never moves backward.
pub proof fn lemma_colon_pos_bounds(line: Seq<u8>, j: int)
    requires
        0 <= j <= line.len(),
    ensures
        j <= colon_pos(line, j) <= line.len(),
    decreases line.len() - j,
{
    if j < line.len() && line[j] != 58 {
        lemma_colon_pos_bounds(line, j + 1);
    }
}

/// A line as parsed: without the carriage return a line feed may carry.
pub open spec fn strip_cr(line: Seq<u8>) -> Seq<u8> {
    if line.len() > 0 && line.last() == 13 {
        line.drop_last()
    } else {
        line
    }
}

/// The value of the first line at or after position `i` whose key — the
/// bytes before the first colon — is the availability-zone key; `None`
/// when no such line exists. A line without a colon carries no value.
pub open spec fn find_az(s: Seq<u8>, i: int) -> Option<Seq<u8>>
    decreases s.len() - i when 0 <= i <= s.len() via find_az_decreases
{
    if i >= s.len() {
        None
    } else {
        let j = line_end(s, i);
        let line = strip_cr(s.subrange(i, j));
        let c = colon_pos(line, 0);
        if c < line.len() && line.subrange(0, c) == az_key() {
            Some(line.subrange(c + 1, line.len() as int))
        } else if j + 1 >= s.len() {
            None
        } else {
            find_az(s, j + 1)
        }
    }
}

#[via_fn]
proof fn find_az_decreases(s: Seq<u8>, i: int) {
    if i < s.len() {
        lemma_line_end_bounds(s, i);
    }
}

/// The availability zone named in the payload `s`, if any.
pub open spec fn spec_info_az(s: Seq<u8>) -> Option<Seq<u8>> {
    find_az(s, 0)
}

/// The position of the first line feed at or after `i`.
fn line_end_at(s: &Vec<u8>, i: usize) -> (r: usize)
    requires
        i <= s@.len(),
    ensures
        r == line_end(s@, i as int),
        i <= r <= s@.len(),
        r < s@.len() ==> s@[r as int] == 10,
{
    let mut j: usize = i;
    while j < s.len()
        invariant
            i <= j <= s@.len(),
            line_end(s@, i as int) == line_end(s@, j as int),
        decreases s@.len() - j,
    {
        if s[j] == 10 {
            return j;
        }
        j += 1;
    }
    j
}

/// The position of the first colon at or after `j`.
fn colon_at(line: &Vec<u8>, j: usize) -> (r: usize)
    requires
        j <= line@.len(),
    ensures
        r == colon_pos(line@, j as int),
        j <= r <= line@.len(),
{
    let mut k: usize = j;
    while k < line.len()
        invariant
            j <= k <= line@.len(),
            colon_pos(line@, j as int) == colon_pos(line@, k as int),
        decreases line@.len() - k,
    {
        if line[k] == 58 {
            return k;
        }
        k += 1;
    }
    k
}

/// Scans the payload from position `i` for the availability-zone line.
fn find_az_from(s: &Vec<u8>, i: usize) -> (r: Option<Vec<u8>>)
    requires
        i <= s@.len(),
    ensures
        r matches Some(v) ==> find_az(s@, i as int) == Some(v@),
        r is None ==> find_az(s@, i as int) is None,
    decreases s@.len() - i,
{
    if i >= s.len() {
        return None;
    }
    let j: usize = line_end_at(s, i);
    let mut endl: usize = j;
    if endl > i && s[endl - 1] == 13 {
        endl = endl - 1;
    }
    let line = subvec(s, i, endl);
    proof {
        assert(line@ =~= strip_cr(s@.subrange(i as int, j as int)));
    }
    let c: usize = colon_at(&line, 0);
    if c < line.len() {
        let key = subvec(&line, 0, c);
        let azk = az_key_vec();
        if bytes_eq(&key, &azk) {
            let val = subvec(&line, c + 1, line.len());
            return Some(val);
        }
    }
    if s.len() - j <= 1 {
        return None;
    }
    find_az_from(s, j + 1)
}

/// The availability zone named in the introspection payload `s`: the value
/// of the first `availability_zone` line, or `None` when the field is
/// absent.
pub fn info_az(s: &Vec<u8>) -> (r: Option<Vec<u8>>)
    ensures
        r matches Some(v) ==> spec_info_az(s@) == Some(v@),
        r is None ==> spec_info_az(s@) is None,
{
    find_az_from(s, 0)
}

} // verus!
