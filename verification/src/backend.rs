//! Interpretation of captured version-control backend output.
//!
//! Every backend primitive is one external process invocation whose exit
//! signal and captured standard output are handed to the library as plain
//! values; the functions here turn that pair into the typed answer the
//! engines consume. Payloads are trimmed of surrounding whitespace before
//! interpretation.

use vstd::prelude::*;

use crate::text::{
    decimal_value, find_char, find_char_spec, is_digit_seq, parse_decimal, trim, trim_spec,
};

verus! {

/// The current branch reported for a checkout: the trimmed payload.
pub open spec fn current_branch_spec(out: Seq<char>) -> Seq<char> {
    trim_spec(out)
}

/// Interpret the output of the current-branch query.
pub fn get_current_branch(out: &str) -> (r: String)
    ensures
        r@ == current_branch_spec(out@),
{
    trim(out).to_owned()
}

/// The local head commit for a branch: the trimmed payload when the
/// query succeeded, absent when the branch does not exist locally.
pub open spec fn local_head_spec(success: bool, out: Seq<char>) -> Option<Seq<char>> {
    if success {
        Some(trim_spec(out))
    } else {
        None
    }
}

/// Interpret the output of the local-head query.
pub fn get_local_head(success: bool, out: &str) -> (r: Option<String>)
    ensures
        match r {
            Some(h) => local_head_spec(success, out@) == Some(h@),
            None => local_head_spec(success, out@) is None,
        },
{
    if success {
        Some(trim(out).to_owned())
    } else {
        None
    }
}

/// The remote head commit for a branch: the first tab-separated field of
/// the trimmed payload, itself trimmed; absent when the query failed, when
/// the payload has no tab-separated field, or when the field is empty (the
/// remote has no such branch).
pub open spec fn remote_head_spec(success: bool, out: Seq<char>) -> Option<Seq<char>> {
    if !success {
        None
    } else {
        let t = trim_spec(out);
        match find_char_spec(t, '\t') {
            Some(k) => {
                let h = trim_spec(t.subrange(0, k));
                if h.len() == 0 {
                    None
                } else {
                    Some(h)
                }
            },
            None => None,
        }
    }
}

/// Interpret the output of the remote-head query.
pub fn get_remote_head(success: bool, out: &str) -> (r: Option<String>)
    ensures
        match r {
            Some(h) => remote_head_spec(success, out@) == Some(h@),
            None => remote_head_spec(success, out@) is None,
        },
{
    if !success {
        return None;
    }
    let t = trim(out);
    match find_char(t, '\t') {
        Some(k) => {
            let field = t.substring_char(0, k);
            let h = trim(field);
            if h.unicode_len() == 0 {
                None
            } else {
                Some(h.to_owned())
            }
        },
        None => None,
    }
}

/// Whether the local branch is ahead of its remote counterpart: the
/// payload is the decimal count of commits reachable locally but not
/// remotely, and the answer is whether that count is nonzero; absent when
/// the query failed.
pub open spec fn local_ahead_spec(success: bool, out: Seq<char>) -> Option<bool> {
    if success {
        Some(decimal_value(trim_spec(out)) > 0)
    } else {
        None
    }
}

/// Interpret the output of the divergence-count query. A successful query
/// yields a decimal count; anything else from the backend is outside this
/// function's domain.
pub fn is_local_ahead(success: bool, out: &str) -> (r: Option<bool>)
    requires
        success ==> trim_spec(out@).len() > 0 && is_digit_seq(trim_spec(out@)) && decimal_value(
            trim_spec(out@),
        ) <= u64::MAX,
    ensures
        r == local_ahead_spec(success, out@),
{
    if !success {
        return None;
    }
    let t = trim(out);
    match parse_decimal(t) {
        Some(count) => Some(count > 0),
        None => {
            assert(false);
            None
        },
    }
}

/// The divergence count itself: the decimal payload of a successful
/// query; absent when the query failed.
pub open spec fn divergence_count_spec(success: bool, out: Seq<char>) -> Option<int> {
    if success {
        Some(decimal_value(trim_spec(out)))
    } else {
        None
    }
}

/// Interpret the output of the divergence-count query as the count, for
/// a caller that consumes the count rather than the comparison.
pub fn get_divergence_count(success: bool, out: &str) -> (r: Option<u64>)
    requires
        success ==> trim_spec(out@).len() > 0 && is_digit_seq(trim_spec(out@)) && decimal_value(
            trim_spec(out@),
        ) <= u64::MAX,
    ensures
        match r {
            Some(c) => divergence_count_spec(success, out@) == Some(c as int),
            None => divergence_count_spec(success, out@) is None,
        },
{
    if !success {
        return None;
    }
    let t = trim(out);
    match parse_decimal(t) {
        Some(count) => Some(count),
        None => {
            assert(false);
            None
        },
    }
}

/// Whether the working tree has uncommitted modifications: a successful
/// status query reports them as a non-empty payload; absent when the
/// query failed.
pub open spec fn pending_changes_spec(success: bool, out: Seq<char>) -> Option<bool> {
    if success {
        Some(trim_spec(out).len() > 0)
    } else {
        None
    }
}

/// Interpret the output of the working-tree status query.
pub fn has_pending_changes(success: bool, out: &str) -> (r: Option<bool>)
    ensures
        r == pending_changes_spec(success, out@),
{
    if success {
        let t = trim(out);
        Some(t.unicode_len() > 0)
    } else {
        None
    }
}

} // verus!
