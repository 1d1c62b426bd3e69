//! Checking that a custom domain resolves to this server.
use vstd::prelude::*;
use crate::text::{owned, str_eq, string_of, trim, trim_str, strings_view};
use crate::unicode::{lowercase, to_lowercase};

verus! {

/// Query parameters for the DNS check endpoint.
pub struct DnsCheckQuery {
    pub domain: String,
}

/// Response for the DNS check endpoint.
pub struct DnsCheckResponse {
    /// The domain that was checked
    pub domain: String,
    /// Whether the domain resolved to any IP address at all
    pub resolves: bool,
    /// Whether at least one resolved IP matches the configured server IP
    pub points_to_server: bool,
    /// All IP addresses the domain resolved to
    pub resolved_ips: Vec<String>,
    /// The server's configured public IP (or empty string if not configured)
    pub server_ip: String,
}

/// The domain actually checked: trimmed and lower-cased.
pub fn checked_domain(query: &DnsCheckQuery) -> (r: String)
    ensures
        r@ == lowercase(trim(query.domain@)),
{
    let t = string_of(trim_str(query.domain.as_str()).as_slice());
    to_lowercase(t.as_str())
}

/// The server address a domain should point to when no instance domain
/// resolves: the configured host, unless it is a wildcard address or empty.
pub fn fallback_server_ip(host: &str) -> (r: String)
    ensures
        r@ == if host@ != "0.0.0.0"@ && host@ != "::"@ && host@.len() > 0 {
            host@
        } else {
            seq![]
        },
{
    if !str_eq(host, "0.0.0.0") && !str_eq(host, "::") && !host.is_empty() {
        owned(host)
    } else {
        String::new()
    }
}

proof fn lemma_push_contains(s: Seq<Seq<char>>, x: Seq<char>, a: Seq<char>)
    ensures
        s.push(x).contains(a) <==> (s.contains(a) || a == x),
{
    if s.push(x).contains(a) {
        let k = choose|k: int| 0 <= k < s.push(x).len() && s.push(x)[k] == a;
        if k < s.len() {
            assert(s[k] == a);
        }
    }
    if s.contains(a) {
        let k = choose|k: int| 0 <= k < s.len() && s[k] == a;
        assert(s.push(x)[k] == a);
    }
    if a == x {
        assert(s.push(x)[s.len() as int] == a);
    }
}

/// The answer to a DNS check of `domain` (already normalized), given the
/// addresses it resolved to (`None` when it did not resolve or is empty):
/// each address once, whether there is any, and whether one is the
/// server's.
pub fn dns_check_response(domain: String, server_ip: String, resolved: Option<Vec<String>>) -> (r:
    DnsCheckResponse)
    ensures
        r.domain == domain,
        r.server_ip == server_ip,
        match resolved {
            Some(ips) if domain@.len() > 0 => {
                &&& forall|a: Seq<char>|
                    strings_view(r.resolved_ips@).contains(a) <==> strings_view(ips@).contains(a)
                &&& strings_view(r.resolved_ips@).no_duplicates()
                &&& r.resolves == (ips@.len() > 0)
                &&& r.points_to_server == (server_ip@.len() > 0 && strings_view(ips@).contains(
                    server_ip@,
                ))
            },
            _ => !r.resolves && !r.points_to_server && r.resolved_ips@.len() == 0,
        },
{
    let ips = match resolved {
        Some(v) => {
            if domain.as_str().is_empty() {
                return DnsCheckResponse {
                    domain,
                    resolves: false,
                    points_to_server: false,
                    resolved_ips: Vec::new(),
                    server_ip,
                };
            }
            v
        },
        None => {
            return DnsCheckResponse {
                domain,
                resolves: false,
                points_to_server: false,
                resolved_ips: Vec::new(),
                server_ip,
            };
        },
    };
    let ghost src = strings_view(ips@);
    let mut unique: Vec<String> = Vec::new();
    let mut points = false;
    let mut i: usize = 0;
    while i < ips.len()
        invariant
            i <= ips@.len(),
            src == strings_view(ips@),
            forall|a: Seq<char>|
                strings_view(unique@).contains(a) <==> src.take(i as int).contains(a),
            strings_view(unique@).no_duplicates(),
            points == (server_ip@.len() > 0 && src.take(i as int).contains(server_ip@)),
        decreases ips.len() - i,
    {
        let ip = &ips[i];
        let mut seen = false;
        let mut j: usize = 0;
        while j < unique.len()
            invariant
                j <= unique@.len(),
                seen == exists|k: int| 0 <= k < j && unique@[k]@ == ip@,
            decreases unique.len() - j,
        {
            if str_eq(unique[j].as_str(), ip.as_str()) {
                seen = true;
            }
            j = j + 1;
        }
        proof {
            assert(src.take(i + 1) =~= src.take(i as int).push(ip@));
            if seen {
                let k = choose|k: int| 0 <= k < unique@.len() && unique@[k]@ == ip@;
                assert(strings_view(unique@)[k] == ip@);
            } else {
                assert forall|k: int| 0 <= k < unique@.len() implies strings_view(unique@)[k] != ip@ by {
                    assert(strings_view(unique@)[k] == unique@[k]@);
                }
            }
        }
        let ghost before = strings_view(unique@);
        if !seen {
            unique.push(ip.clone());
            proof {
                assert(strings_view(unique@) =~= before.push(ip@));
            }
        }
        proof {
            assert forall|a: Seq<char>| strings_view(unique@).contains(a) <==> src.take(i + 1).contains(a) by {
                lemma_push_contains(src.take(i as int), ip@, a);
                lemma_push_contains(before, ip@, a);
            }
            lemma_push_contains(src.take(i as int), ip@, server_ip@);
        }
        if !server_ip.as_str().is_empty() && str_eq(ip.as_str(), server_ip.as_str()) {
            points = true;
        }
        i = i + 1;
    }
    assert(src.take(src.len() as int) =~= src);
    DnsCheckResponse {
        domain,
        resolves: ips.len() > 0,
        points_to_server: points,
        resolved_ips: unique,
        server_ip,
    }
}

} // verus!
