//! Remote build servers: how the output of a health probe is read, and
//! the status a probe leaves a server in.
use vstd::prelude::*;
use crate::numbers::{parse_i64, parse_i64_chars};
use crate::text::{
    chars_of, has_prefix, lines, lines_of, owned, seq_eq, slice_to_vec, starts_with, string_of,
    trim, trim_chars,
};

verus! {

/// Query parameters for listing build servers.
pub struct ListBuildServersQuery {
    pub team_id: Option<String>,
}

/// What a health probe learnt of a build server.
pub struct BuildServerHealthStats {
    pub docker_version: Option<String>,
    pub cpu_count: Option<i64>,
    pub memory_bytes: Option<i64>,
}

/// The facts a probe reports: `(docker version, cpu count, memory bytes)`.
pub type HealthFacts = (Option<Seq<char>>, Option<i64>, Option<i64>);

/// What one line of probe output adds to the facts read so far: a
/// `DOCKER:` line gives a non-empty Docker version, and `CPU:` and
/// `MEM:` lines give a number unless they read `N/A` or do not parse.
pub open spec fn apply_health_line(f: HealthFacts, line: Seq<char>) -> HealthFacts {
    let t = trim(line);
    if has_prefix(t, "DOCKER:"@) {
        let v = trim(t.skip(7));
        if v.len() > 0 {
            (Some(v), f.1, f.2)
        } else {
            f
        }
    } else if has_prefix(t, "CPU:"@) {
        let v = trim(t.skip(4));
        if v != "N/A"@ && parse_i64(v) is Some {
            (f.0, parse_i64(v), f.2)
        } else {
            f
        }
    } else if has_prefix(t, "MEM:"@) {
        let v = trim(t.skip(4));
        if v != "N/A"@ && parse_i64(v) is Some {
            (f.0, f.1, parse_i64(v))
        } else {
            f
        }
    } else {
        f
    }
}

/// The facts read from the lines of a probe's output, first to last.
pub open spec fn health_facts(ls: Seq<Seq<char>>) -> HealthFacts
    decreases ls.len(),
{
    if ls.len() == 0 {
        (None, None, None)
    } else {
        apply_health_line(health_facts(ls.drop_last()), ls.last())
    }
}

/// The facts a probe's output reports.
pub open spec fn spec_health_output(output: Seq<char>) -> HealthFacts {
    health_facts(lines(output))
}

fn value_after(t: &[char], n: usize) -> (r: Vec<char>)
    requires
        n <= t.len(),
    ensures
        r@ == trim(t@.skip(n as int)),
{
    let rest = slice_to_vec(t, n, t.len());
    assert(rest@ =~= t@.skip(n as int));
    trim_chars(rest.as_slice())
}

fn number_value(v: &[char]) -> (r: Option<i64>)
    ensures
        r == if v@ != "N/A"@ && parse_i64(v@) is Some {
            parse_i64(v@)
        } else {
            None
        },
{
    let na = chars_of("N/A");
    if seq_eq(v, na.as_slice()) {
        None
    } else {
        parse_i64_chars(v)
    }
}

/// Reads the output of a build server health probe: lines `DOCKER:<version>`,
/// `CPU:<count>` and `MEM:<bytes>`, later lines overriding earlier ones.
pub fn parse_build_server_health_output(output: &str) -> (r: BuildServerHealthStats)
    ensures
        ({
            let f = spec_health_output(output@);
            &&& match r.docker_version {
                Some(d) => f.0 == Some(d@),
                None => f.0 is None,
            }
            &&& r.cpu_count == f.1
            &&& r.memory_bytes == f.2
        }),
{
    let docker_p = chars_of("DOCKER:");
    let cpu_p = chars_of("CPU:");
    let mem_p = chars_of("MEM:");
    proof {
        reveal_strlit("DOCKER:");
        reveal_strlit("CPU:");
        reveal_strlit("MEM:");
    }
    let out = chars_of(output);
    let ls = lines_of(out.as_slice());
    let ghost lv = ls@.map_values(|v: Vec<char>| v@);
    let mut docker_version: Option<String> = None;
    let mut cpu_count: Option<i64> = None;
    let mut memory_bytes: Option<i64> = None;
    let mut i: usize = 0;
    assert(lv.take(0) =~= Seq::<Seq<char>>::empty());
    while i < ls.len()
        invariant
            lv == ls@.map_values(|v: Vec<char>| v@),
            lv == lines(output@),
            docker_p@ == "DOCKER:"@ && docker_p@.len() == 7,
            cpu_p@ == "CPU:"@ && cpu_p@.len() == 4,
            mem_p@ == "MEM:"@ && mem_p@.len() == 4,
            i <= ls@.len(),
            ({
                let f = health_facts(lv.take(i as int));
                &&& match docker_version {
                    Some(d) => f.0 == Some(d@),
                    None => f.0 is None,
                }
                &&& cpu_count == f.1
                &&& memory_bytes == f.2
            }),
        decreases ls.len() - i,
    {
        let t = trim_chars(ls[i].as_slice());
        proof {
            assert(lv.take(i + 1).drop_last() =~= lv.take(i as int));
            assert(lv.take(i + 1).last() == ls@[i as int]@);
        }
        if starts_with(t.as_slice(), docker_p.as_slice()) {
            let v = value_after(t.as_slice(), 7);
            if v.len() > 0 {
                docker_version = Some(string_of(v.as_slice()));
            }
        } else if starts_with(t.as_slice(), cpu_p.as_slice()) {
            let v = value_after(t.as_slice(), 4);
            match number_value(v.as_slice()) {
                Some(n) => {
                    cpu_count = Some(n);
                },
                None => {},
            }
        } else if starts_with(t.as_slice(), mem_p.as_slice()) {
            let v = value_after(t.as_slice(), 4);
            match number_value(v.as_slice()) {
                Some(n) => {
                    memory_bytes = Some(n);
                },
                None => {},
            }
        }
        i = i + 1;
    }
    assert(lv.take(lv.len() as int) =~= lv);
    BuildServerHealthStats { docker_version, cpu_count, memory_bytes }
}

/// The status a build server is left in by a probe: `online` with what
/// the probe learnt when it answered, else `offline`.
pub fn health_status(probe: &Option<BuildServerHealthStats>) -> (r: String)
    ensures
        r@ == if probe is Some {
            "online"@
        } else {
            "offline"@
        },
{
    match probe {
        Some(_) => owned("online"),
        None => owned("offline"),
    }
}

} // verus!
