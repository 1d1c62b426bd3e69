//! Audit logging: which address a request is attributed to.
use vstd::prelude::*;
use crate::text::{chars_of, find_from, slice_to_vec, string_of, trim, trim_chars, trim_str};

verus! {

/// The text of `s` before its first comma (all of it when it has none).
pub open spec fn before_comma(s: Seq<char>) -> Seq<char> {
    match find_from(s, ',', 0) {
        Some(i) => s.take(i),
        None => s,
    }
}

/// The address a request is attributed to: the first (trimmed) entry of
/// `X-Forwarded-For` when non-empty, else the trimmed `X-Real-IP` when
/// non-empty, else the address of the connection.
pub open spec fn spec_client_ip(
    forwarded_for: Option<Seq<char>>,
    real_ip: Option<Seq<char>>,
    connection_ip: Option<Seq<char>>,
) -> Option<Seq<char>> {
    let fwd = match forwarded_for {
        Some(f) => trim(before_comma(f)),
        None => seq![],
    };
    let direct = match real_ip {
        Some(r) => trim(r),
        None => seq![],
    };
    if fwd.len() > 0 {
        Some(fwd)
    } else if direct.len() > 0 {
        Some(direct)
    } else {
        connection_ip
    }
}

fn first_entry(s: &str) -> (r: Vec<char>)
    ensures
        r@ == trim(before_comma(s@)),
{
    let v = chars_of(s);
    let mut i: usize = 0;
    while i < v.len() && v[i] != ','
        invariant
            v@ == s@,
            i <= v@.len(),
            find_from(s@, ',', i as int) == find_from(s@, ',', 0),
        decreases v.len() - i,
    {
        i = i + 1;
    }
    proof {
        crate::text::lemma_find_from(s@, ',', 0);
    }
    let head = slice_to_vec(v.as_slice(), 0, i);
    assert(head@ =~= before_comma(s@));
    trim_chars(head.as_slice())
}

/// Extract the client IP address from the `X-Forwarded-For` and
/// `X-Real-IP` header values (for reverse proxy scenarios), falling back
/// to the address of the connection.
pub fn extract_client_ip(forwarded_for: Option<&str>, real_ip: Option<&str>, connection_ip: Option<String>) -> (r:
    Option<String>)
    ensures
        match spec_client_ip(
            match forwarded_for {
                Some(f) => Some(f@),
                None => None,
            },
            match real_ip {
                Some(x) => Some(x@),
                None => None,
            },
            match connection_ip {
                Some(c) => Some(c@),
                None => None,
            },
        ) {
            Some(ip) => r matches Some(x) && x@ == ip,
            None => r is None,
        },
{
    if let Some(f) = forwarded_for {
        let e = first_entry(f);
        if e.len() > 0 {
            return Some(string_of(e.as_slice()));
        }
    }
    if let Some(x) = real_ip {
        let t = trim_str(x);
        if t.len() > 0 {
            return Some(string_of(t.as_slice()));
        }
    }
    connection_ip
}

} // verus!
