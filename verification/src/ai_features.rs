//! AI-assisted features: the shapes of their answers, the recovery of
//! structured answers from free-form model output, and the rule-based
//! security scan that works without any model.
use vstd::prelude::*;
use crate::matching::{regex_is_match, regex_match};
use crate::text::{chars_of, contains_seq, contains_str, has_prefix, has_suffix, lines, lines_of, owned, push_str, slice_to_vec, starts_with, string_of, trim, trim_start, opt_view};
use crate::unicode::{lowercase, to_lowercase};

verus! {

// -- Shared response types ---------------------------------------------------

/// The answer when no AI provider is configured.
pub struct AiUnavailable {
    pub error: String,
}

/// The message of an unavailable AI provider.
pub open spec fn ai_unavailable_message() -> Seq<char> {
    "AI provider not configured. Add [ai] section to rivetr.toml."@
}

/// The status and body answered when no AI provider is configured:
/// 404 with an explanation.
pub fn ai_unavailable() -> (r: (u16, AiUnavailable))
    ensures
        r.0 == 404,
        r.1.error@ == ai_unavailable_message(),
{
    (404, AiUnavailable { error: owned("AI provider not configured. Add [ai] section to rivetr.toml.") })
}

// -- 1. Deployment Error Diagnosis -------------------------------------------

/// A diagnosis of a failed deployment.
pub struct DiagnosisResponse {
    pub diagnosis: String,
    pub suggestions: Vec<String>,
}

/// The lines after the first one that starts (after leading white space)
/// with `{`, that one included.
pub open spec fn from_first_brace(ls: Seq<Seq<char>>) -> Seq<Seq<char>>
    decreases ls.len(),
{
    if ls.len() == 0 {
        ls
    } else if has_prefix(trim_start(ls[0]), seq!['{']) {
        ls
    } else {
        from_first_brace(ls.drop_first())
    }
}

/// A line that can belong to a JSON object spread over lines.
pub open spec fn json_line(l: Seq<char>) -> bool {
    trim(l).len() > 0 || has_prefix(trim_start(l), seq!['{']) || has_prefix(trim_start(l), seq!['"'])
        || has_prefix(trim_start(l), seq!['}'])
}

/// The leading lines of `ls` that can belong to a JSON object.
pub open spec fn json_run(ls: Seq<Seq<char>>) -> Seq<Seq<char>>
    decreases ls.len(),
{
    if ls.len() == 0 || !json_line(ls[0]) {
        seq![]
    } else {
        seq![ls[0]] + json_run(ls.drop_first())
    }
}

/// The lines of `ls` joined with line feeds.
pub open spec fn join_lines(ls: Seq<Seq<char>>) -> Seq<char>
    decreases ls.len(),
{
    if ls.len() == 0 {
        seq![]
    } else if ls.len() == 1 {
        ls[0]
    } else {
        join_lines(ls.drop_last()) + seq!['\n'] + ls.last()
    }
}

/// The JSON object that a model answer holds when it wraps it in other
/// text such as code fences: the run of lines from the first one that
/// starts with `{`, while lines can belong to the object.
pub open spec fn spec_fenced_json(raw: Seq<char>) -> Seq<char> {
    join_lines(json_run(from_first_brace(lines(raw))))
}

fn trimmed_starts_with(l: &Vec<char>, c: char) -> (r: bool)
    ensures
        r == has_prefix(trim_start(l@), seq![c]),
{
    let t = crate::text::trim_chars(l.as_slice());
    let mut a: usize = 0;
    while a < l.len() && crate::text::char_is_whitespace(l[a])
        invariant
            a <= l.len(),
            forall|j: int| 0 <= j < a ==> crate::text::is_whitespace(#[trigger] l@[j]),
        decreases l.len() - a,
    {
        a = a + 1;
    }
    proof {
        lemma_trim_start_at(l@, a as int);
    }
    let r = a < l.len() && l[a] == c;
    proof {
        let ts = trim_start(l@);
        assert(ts == l@.skip(a as int));
        if r {
            assert(ts.take(1) =~= seq![c]);
        } else if ts.len() >= 1 {
            assert(ts.take(1)[0] != c);
        }
    }
    r
}

proof fn lemma_trim_start_at(s: Seq<char>, a: int)
    requires
        0 <= a <= s.len(),
        forall|j: int| 0 <= j < a ==> crate::text::is_whitespace(#[trigger] s[j]),
        a == s.len() || !crate::text::is_whitespace(s[a]),
    ensures
        trim_start(s) == s.skip(a),
    decreases a,
{
    if a > 0 {
        assert(s.drop_first().skip(a - 1) =~= s.skip(a));
        lemma_trim_start_at(s.drop_first(), a - 1);
    } else {
        assert(s.skip(0) =~= s);
    }
}

fn skip_to_brace(ls: &Vec<Vec<char>>) -> (i: usize)
    ensures
        i <= ls.len(),
        from_first_brace(ls@.map_values(|v: Vec<char>| v@)) == ls@.map_values(|v: Vec<char>| v@).skip(
            i as int,
        ),
{
    let ghost lv = ls@.map_values(|v: Vec<char>| v@);
    let mut i: usize = 0;
    assert(lv.skip(0) =~= lv);
    while i < ls.len() && !trimmed_starts_with(&ls[i], '{')
        invariant
            i <= ls.len(),
            lv.len() == ls@.len(),
            lv == ls@.map_values(|v: Vec<char>| v@),
            from_first_brace(lv) == from_first_brace(lv.skip(i as int)),
        decreases ls.len() - i,
    {
        proof {
            let t = lv.skip(i as int);
            assert(t[0] == ls@[i as int]@);
            assert(t.drop_first() =~= lv.skip(i + 1));
        }
        i = i + 1;
    }
    proof {
        let t = lv.skip(i as int);
        if i < ls.len() {
            assert(t[0] == ls@[i as int]@);
        }
        assert(from_first_brace(t) == t);
    }
    i
}

proof fn lemma_join_push(sub: Seq<Seq<char>>, x: Seq<char>)
    ensures
        join_lines(sub.push(x)) == if sub.len() == 0 {
            x
        } else {
            join_lines(sub) + seq!['\n'] + x
        },
{
    assert(sub.push(x).drop_last() =~= sub);
    if sub.len() == 0 {
        assert(sub.push(x).len() == 1);
    }
}

fn join_json_run(ls: &Vec<Vec<char>>, start: usize) -> (out: String)
    requires
        start <= ls.len(),
    ensures
        out@ == join_lines(json_run(ls@.map_values(|v: Vec<char>| v@).skip(start as int))),
{
    let ghost lv = ls@.map_values(|v: Vec<char>| v@);
    let mut out = String::new();
    let mut k: usize = start;
    let ghost run: Seq<Seq<char>> = seq![];
    assert(run + json_run(lv.skip(start as int)) =~= json_run(lv.skip(start as int)));
    while k < ls.len() && json_line_exec(&ls[k])
        invariant
            start <= k <= ls.len(),
            lv.len() == ls@.len(),
            lv == ls@.map_values(|v: Vec<char>| v@),
            run.len() == k - start,
            json_run(lv.skip(start as int)) == run + json_run(lv.skip(k as int)),
            out@ == join_lines(run),
        decreases ls.len() - k,
    {
        let line = string_of(ls[k].as_slice());
        proof {
            let t = lv.skip(k as int);
            assert(t[0] == lv[k as int]);
            assert(t.drop_first() =~= lv.skip(k + 1));
            assert(json_run(t) == seq![lv[k as int]] + json_run(lv.skip(k + 1)));
            assert(run + (seq![lv[k as int]] + json_run(lv.skip(k + 1))) =~= run.push(lv[k as int])
                + json_run(lv.skip(k + 1)));
            lemma_join_push(run, lv[k as int]);
        }
        if k > start {
            crate::text::push_char(&mut out, '\n');
        }
        push_str(&mut out, &line);
        proof {
            if k == start {
                assert(out@ =~= line@);
            }
            run = run.push(lv[k as int]);
        }
        k = k + 1;
    }
    proof {
        let t = lv.skip(k as int);
        if k < ls.len() {
            assert(t[0] == lv[k as int]);
        }
        assert(json_run(t) =~= Seq::<Seq<char>>::empty());
        assert(run + json_run(t) =~= run);
    }
    out
}

/// Extracts a JSON object wrapped in other text from a model answer.
pub fn fenced_json(raw: &str) -> (r: String)
    ensures
        r@ == spec_fenced_json(raw@),
{
    let rv = chars_of(raw);
    let ls = lines_of(rv.as_slice());
    let i = skip_to_brace(&ls);
    join_json_run(&ls, i)
}

fn json_line_exec(l: &Vec<char>) -> (r: bool)
    ensures
        r == json_line(l@),
{
    let t = crate::text::trim_chars(l.as_slice());
    t.len() > 0 || trimmed_starts_with(l, '{') || trimmed_starts_with(l, '"') || trimmed_starts_with(
        l,
        '}',
    )
}

/// The first line of a model answer, or a placeholder when it has none.
pub open spec fn spec_diagnosis_line(raw: Seq<char>) -> Seq<char> {
    if lines(raw).len() > 0 {
        lines(raw)[0]
    } else {
        "Unable to parse diagnosis"@
    }
}

/// The non-empty lines of `ls`, in order.
pub open spec fn non_empty_lines(ls: Seq<Seq<char>>) -> Seq<Seq<char>> {
    ls.filter(|l: Seq<char>| l.len() > 0)
}

/// The suggestions read from a model answer that is not JSON: up to four
/// non-empty lines after the first line.
pub open spec fn spec_suggestion_lines(raw: Seq<char>) -> Seq<Seq<char>> {
    let rest = if lines(raw).len() > 1 {
        non_empty_lines(lines(raw).skip(1))
    } else {
        seq![]
    };
    if rest.len() <= 4 {
        rest
    } else {
        rest.take(4)
    }
}

/// The diagnosis read from a model answer that holds no JSON object: its
/// first line, and up to four non-empty lines after it as suggestions.
pub fn fallback_diagnosis(raw: &str) -> (r: DiagnosisResponse)
    ensures
        r.diagnosis@ == spec_diagnosis_line(raw@),
        r.suggestions@.map_values(|s: String| s@) == spec_suggestion_lines(raw@),
{
    let rv = chars_of(raw);
    let ls = lines_of(rv.as_slice());
    let ghost lv = ls@.map_values(|v: Vec<char>| v@);
    let diagnosis = if ls.len() > 0 {
        string_of(ls[0].as_slice())
    } else {
        owned("Unable to parse diagnosis")
    };
    let mut suggestions: Vec<String> = Vec::new();
    if ls.len() > 1 {
        let mut i: usize = 1;
        while i < ls.len() && suggestions.len() < 4
            invariant
                1 <= i <= ls.len(),
                lv == ls@.map_values(|v: Vec<char>| v@),
                suggestions@.len() <= 4,
                suggestions@.map_values(|s: String| s@) == non_empty_lines(lv.subrange(1, i as int)),
            decreases ls.len() - i,
        {
            let ghost before = lv.subrange(1, i as int);
            proof {
                assert(lv.subrange(1, i + 1) =~= before.push(lv[i as int]));
                lemma_filter_push(before, lv[i as int]);
            }
            if ls[i].len() > 0 {
                let ghost sv = suggestions@.map_values(|s: String| s@);
                let line = string_of(ls[i].as_slice());
                suggestions.push(line);
                proof {
                    assert(suggestions@.map_values(|s: String| s@) =~= sv.push(lv[i as int]));
                }
            }
            i = i + 1;
        }
        proof {
            let rest = non_empty_lines(lv.skip(1));
            lemma_filter_prefix(lv.skip(1), (i - 1) as int);
            assert(lv.skip(1).take(i - 1) =~= lv.subrange(1, i as int));
            if i < ls.len() {
                // stopped because four suggestions were found
                assert(suggestions@.len() == 4);
                assert(rest.take(4) =~= suggestions@.map_values(|s: String| s@));
            } else {
                assert(lv.skip(1).take(i - 1) =~= lv.skip(1));
            }
        }
    } else {
        proof {
            assert(suggestions@.map_values(|s: String| s@) =~= Seq::<Seq<char>>::empty());
        }
    }
    DiagnosisResponse { diagnosis, suggestions }
}

proof fn lemma_filter_push(s: Seq<Seq<char>>, x: Seq<char>)
    ensures
        non_empty_lines(s.push(x)) == if x.len() > 0 {
            non_empty_lines(s).push(x)
        } else {
            non_empty_lines(s)
        },
{
    reveal(Seq::filter);
    assert(s.push(x).drop_last() =~= s);
}

proof fn lemma_filter_prefix(s: Seq<Seq<char>>, k: int)
    requires
        0 <= k <= s.len(),
    ensures
        non_empty_lines(s.take(k)).len() <= non_empty_lines(s).len(),
        non_empty_lines(s).take(non_empty_lines(s.take(k)).len() as int) == non_empty_lines(s.take(k)),
    decreases s.len() - k,
{
    if k < s.len() {
        lemma_filter_prefix(s, k + 1);
        assert(s.take(k + 1) =~= s.take(k).push(s[k]));
        lemma_filter_push(s.take(k), s[k]);
        let a = non_empty_lines(s.take(k));
        let b = non_empty_lines(s.take(k + 1));
        let f = non_empty_lines(s);
        if s[k].len() > 0 {
            assert(b == a.push(s[k]));
            assert(f.take(b.len() as int).take(a.len() as int) =~= f.take(a.len() as int));
            assert(b.take(a.len() as int) =~= a);
        }
    } else {
        assert(s.take(k) =~= s);
        assert(non_empty_lines(s).take(non_empty_lines(s).len() as int) =~= non_empty_lines(s));
    }
}

// -- 3. Cost Optimization ----------------------------------------------------

/// One cost-saving suggestion.
pub struct CostSuggestion {
    pub title: String,
    pub description: String,
    pub action: String,
}

/// The cost-saving suggestions for an app.
pub struct CostSuggestionsResponse {
    pub suggestions: Vec<CostSuggestion>,
}

/// The index of the first `c` in `s`, if any.
pub open spec fn first_index(s: Seq<char>, c: char) -> Option<int> {
    if s.contains(c) {
        Some(choose|i: int| 0 <= i < s.len() && s[i] == c && forall|j: int| 0 <= j < i ==> s[j] != c)
    } else {
        None
    }
}

/// The index of the last `c` in `s`, if any.
pub open spec fn last_index(s: Seq<char>, c: char) -> Option<int> {
    if s.contains(c) {
        Some(
            choose|i: int| 0 <= i < s.len() && s[i] == c && forall|j: int| i < j < s.len() ==> s[j] != c,
        )
    } else {
        None
    }
}

/// Where the span from the first `open` to the last `close` starts: at the
/// first `open`, or at the beginning when there is none.
pub open spec fn span_start(s: Seq<char>, open: char) -> int {
    match first_index(s, open) {
        Some(i) => i,
        None => 0,
    }
}

/// Where that span ends: just after the last `close`, or at the end when
/// there is none.
pub open spec fn span_end(s: Seq<char>, close: char) -> int {
    match last_index(s, close) {
        Some(i) => i + 1,
        None => s.len() as int,
    }
}

fn find_first(s: &[char], c: char) -> (r: Option<usize>)
    ensures
        match r {
            Some(i) => i < s.len() && first_index(s@, c) == Some(i as int),
            None => first_index(s@, c) is None,
        },
{
    let mut i: usize = 0;
    while i < s.len()
        invariant
            i <= s.len(),
            forall|j: int| 0 <= j < i ==> s@[j] != c,
        decreases s.len() - i,
    {
        if s[i] == c {
            proof {
                let k = choose|k: int| 0 <= k < s@.len() && s@[k] == c && forall|j: int|
                    0 <= j < k ==> s@[j] != c;
                assert(s@.contains(c));
                if k < i {
                } else if k > i {
                    assert(s@[i as int] == c);
                }
            }
            return Some(i);
        }
        i = i + 1;
    }
    None
}

fn find_last(s: &[char], c: char) -> (r: Option<usize>)
    ensures
        match r {
            Some(i) => i < s.len() && last_index(s@, c) == Some(i as int),
            None => last_index(s@, c) is None,
        },
{
    let mut i: usize = s.len();
    while i > 0
        invariant
            i <= s.len(),
            forall|j: int| i <= j < s.len() ==> s@[j] != c,
        decreases i,
    {
        if s[i - 1] == c {
            proof {
                assert(s@.contains(c));
                let k = choose|k: int| 0 <= k < s@.len() && s@[k] == c && forall|j: int|
                    k < j < s@.len() ==> s@[j] != c;
                if k < i - 1 {
                    assert(s@[i - 1] == c);
                }
            }
            return Some(i - 1);
        }
        i = i - 1;
    }
    None
}

/// The part of a model answer from the first `open` to the last `close`
/// (both kept); the beginning or end of the answer stands in for a
/// missing `open` or `close`. Defined when the span is not reversed.
pub fn json_span(raw: &str, open: char, close: char) -> (r: String)
    requires
        span_start(raw@, open) <= span_end(raw@, close),
    ensures
        r@ == raw@.subrange(span_start(raw@, open), span_end(raw@, close)),
{
    let rv = chars_of(raw);
    let start = match find_first(rv.as_slice(), open) {
        Some(i) => i,
        None => 0,
    };
    let end = match find_last(rv.as_slice(), close) {
        Some(i) => i + 1,
        None => rv.len(),
    };
    let part = slice_to_vec(rv.as_slice(), start, end);
    string_of(part.as_slice())
}

// -- 4. Dockerfile Optimizer -------------------------------------------------

/// A suggested rewrite of an app's Dockerfile.
pub struct DockerfileOptimization {
    pub original: String,
    pub suggested: String,
    pub improvements: Vec<String>,
}

// -- 5. Security & Compliance Advisor ----------------------------------------

/// How serious a security finding is.
pub enum Severity {
    Critical,
    High,
    Medium,
    Low,
}

/// One finding of the security scan.
pub struct SecurityFinding {
    pub severity: Severity,
    pub category: String,
    pub title: String,
    pub description: String,
    pub recommendation: String,
}

/// The result of a security scan of one app.
pub struct SecurityScanResponse {
    pub app_id: String,
    pub app_name: String,
    pub findings: Vec<SecurityFinding>,
    pub critical: usize,
    pub high: usize,
    pub medium: usize,
    pub low: usize,
    pub ai_summary: Option<String>,
}

/// A finding as plain values: severity, category, title, description,
/// recommendation.
pub type FindingView = (Severity, Seq<char>, Seq<char>, Seq<char>, Seq<char>);

/// A finding as plain values.
pub open spec fn finding_view(f: SecurityFinding) -> FindingView {
    (f.severity, f.category@, f.title@, f.description@, f.recommendation@)
}

/// Findings as plain values.
pub open spec fn findings_view(fs: Seq<SecurityFinding>) -> Seq<FindingView> {
    fs.map_values(|f: SecurityFinding| finding_view(f))
}

/// The image-pinning finding: the image has no tag or uses `:latest`.
pub open spec fn image_finding(img: Seq<char>) -> Option<FindingView> {
    if crate::text::has_suffix(img, ":latest"@) || !img.contains(':') {
        Some(
            (
                Severity::Medium,
                "image_pinning"@,
                "Docker image uses :latest tag"@,
                "Image '"@ + img + "' uses :latest which is mutable and can change unexpectedly."@,
                "Pin to a specific version tag (e.g. :1.2.3) for reproducible deployments."@,
            ),
        )
    } else {
        None
    }
}

/// The finding for an app without a health check.
pub open spec fn healthcheck_finding() -> FindingView {
    (
        Severity::Low,
        "availability"@,
        "No health check configured"@,
        "App has no health check URL. Unhealthy containers may receive traffic."@,
        "Set a health check path (e.g. /health or /up) in app Settings."@,
    )
}

/// The finding for a custom domain configured with plain HTTP.
pub open spec fn http_domain_finding(d: Seq<char>) -> FindingView {
    (
        Severity::High,
        "transport_security"@,
        "Custom domain uses HTTP"@,
        "Domain '"@ + d + "' is configured with plain HTTP."@,
        "Use an HTTPS domain and enable TLS/SSL termination."@,
    )
}

/// The credential patterns searched for in deployment logs, with their
/// labels.
pub open spec fn secret_patterns() -> Seq<(Seq<char>, Seq<char>)> {
    seq![
        ("AWS"@, "AKIA[0-9A-Z]{16}"@),
        ("Private key"@, "-----BEGIN .{0,20}PRIVATE KEY-----"@),
        ("Generic secret"@, "(?i)(password|secret|token|api_key)\\s*[=:]\\s*['\\x22]?[A-Za-z0-9+/]{16,}"@),
    ]
}

/// Some log line matches `pattern`.
pub open spec fn logs_match(pattern: Seq<char>, logs: Seq<Seq<char>>) -> bool {
    exists|i: int| 0 <= i < logs.len() && regex_match(pattern, logs[i]) == Some(true)
}

/// The finding for a credential pattern found in deployment logs.
pub open spec fn exposed_secret_finding(label: Seq<char>) -> FindingView {
    (
        Severity::Critical,
        "exposed_secret"@,
        label + " pattern found in deployment logs"@,
        "A "@ + label
            + " credential pattern was detected in deployment logs. Credentials in logs can be harvested from log storage."@,
        "Rotate the credential immediately. Use environment variables, not inline config, for secrets. Ensure logs are redacted before storage."@,
    )
}

/// The first credential pattern (from index `k` on) that some log line
/// matches, if any.
pub open spec fn first_secret_hit(logs: Seq<Seq<char>>, k: int) -> Option<int>
    decreases 3 - k,
{
    if k < 0 || k >= 3 {
        None
    } else if logs_match(secret_patterns()[k].1, logs) {
        Some(k)
    } else {
        first_secret_hit(logs, k + 1)
    }
}

/// Words that mark an environment variable as a secret.
pub open spec fn secret_key_words() -> Seq<Seq<char>> {
    seq!["password"@, "secret"@, "token"@, "api_key"@, "private_key"@, "access_key"@]
}

/// A variable that looks like a secret but is empty.
pub open spec fn empty_secret(key: Seq<char>, value: Seq<char>) -> bool {
    value.len() == 0 && exists|i: int|
        0 <= i < 6 && contains_seq(lowercase(key), #[trigger] secret_key_words()[i])
}

/// The finding for a secret-looking variable without a value.
pub open spec fn empty_secret_finding(key: Seq<char>) -> FindingView {
    (
        Severity::Medium,
        "missing_secret"@,
        "Secret env var '"@ + key + "' is empty"@,
        "The env var '"@ + key + "' appears to be a secret but has no value set."@,
        "Set a value for this secret or remove it if unused."@,
    )
}

/// The first empty secret-looking variable, if any.
pub open spec fn first_empty_secret(vars: Seq<(Seq<char>, Seq<char>)>) -> Option<int> {
    if exists|i: int| 0 <= i < vars.len() && empty_secret(vars[i].0, vars[i].1) {
        Some(
            choose|i: int|
                0 <= i < vars.len() && empty_secret(vars[i].0, vars[i].1) && forall|j: int|
                    0 <= j < i ==> !empty_secret(vars[j].0, vars[j].1),
        )
    } else {
        None
    }
}

/// What the rule-based scan finds, in order: image pinning, health check,
/// plain-HTTP domain, the first credential pattern in the logs, the first
/// empty secret variable.
pub open spec fn spec_scan_findings(
    docker_image: Option<Seq<char>>,
    domain: Option<Seq<char>>,
    healthcheck: Option<Seq<char>>,
    logs: Seq<Seq<char>>,
    vars: Seq<(Seq<char>, Seq<char>)>,
) -> Seq<FindingView> {
    let f1 = match docker_image {
        Some(img) => match image_finding(img) {
            Some(f) => seq![f],
            None => seq![],
        },
        None => seq![],
    };
    let f2 = match healthcheck {
        Some(h) => if h.len() == 0 {
            seq![healthcheck_finding()]
        } else {
            seq![]
        },
        None => seq![healthcheck_finding()],
    };
    let f3 = match domain {
        Some(d) => if d.len() > 0 && has_prefix(d, "http://"@) {
            seq![http_domain_finding(d)]
        } else {
            seq![]
        },
        None => seq![],
    };
    let f4 = match first_secret_hit(logs, 0) {
        Some(k) => seq![exposed_secret_finding(secret_patterns()[k].0)],
        None => seq![],
    };
    let f5 = match first_empty_secret(vars) {
        Some(i) => seq![empty_secret_finding(vars[i].0)],
        None => seq![],
    };
    f1 + f2 + f3 + f4 + f5
}

fn finding(
    severity: Severity,
    category: &str,
    title: String,
    description: String,
    recommendation: &str,
) -> (f: SecurityFinding)
    ensures
        finding_view(f) == (severity, category@, title@, description@, recommendation@),
{
    SecurityFinding {
        severity,
        category: owned(category),
        title,
        description,
        recommendation: owned(recommendation),
    }
}

fn any_log_matches(pattern: &str, logs: &Vec<String>) -> (r: bool)
    ensures
        r == logs_match(pattern@, logs@.map_values(|s: String| s@)),
{
    let ghost lv = logs@.map_values(|s: String| s@);
    let mut i: usize = 0;
    while i < logs.len()
        invariant
            i <= logs.len(),
            lv == logs@.map_values(|s: String| s@),
            forall|j: int| 0 <= j < i ==> regex_match(pattern@, lv[j]) != Some(true),
        decreases logs.len() - i,
    {
        match regex_is_match(pattern, logs[i].as_str()) {
            Some(true) => {
                assert(regex_match(pattern@, lv[i as int]) == Some(true));
                return true;
            },
            _ => {},
        }
        i = i + 1;
    }
    false
}

fn secret_key_word(i: usize) -> (w: &'static str)
    requires
        i < 6,
    ensures
        w@ == secret_key_words()[i as int],
{
    if i == 0 {
        "password"
    } else if i == 1 {
        "secret"
    } else if i == 2 {
        "token"
    } else if i == 3 {
        "api_key"
    } else if i == 4 {
        "private_key"
    } else {
        "access_key"
    }
}

fn secret_pattern(k: usize) -> (r: (&'static str, &'static str))
    requires
        k < 3,
    ensures
        r.0@ == secret_patterns()[k as int].0,
        r.1@ == secret_patterns()[k as int].1,
{
    if k == 0 {
        ("AWS", "AKIA[0-9A-Z]{16}")
    } else if k == 1 {
        ("Private key", "-----BEGIN .{0,20}PRIVATE KEY-----")
    } else {
        (
            "Generic secret",
            "(?i)(password|secret|token|api_key)\\s*[=:]\\s*['\\x22]?[A-Za-z0-9+/]{16,}",
        )
    }
}

fn is_empty_secret(key: &String, value: &String) -> (r: bool)
    ensures
        r == empty_secret(key@, value@),
{
    if !value.as_str().is_empty() {
        return false;
    }
    let lower = to_lowercase(key.as_str());
    let lv = chars_of(lower.as_str());
    let mut i: usize = 0;
    while i < 6
        invariant
            i <= 6,
            value@.len() == 0,
            lv@ == lowercase(key@),
            forall|j: int| 0 <= j < i ==> !contains_seq(lowercase(key@), #[trigger] secret_key_words()[j]),
        decreases 6 - i,
    {
        let w = chars_of(secret_key_word(i));
        if contains_str(lv.as_slice(), w.as_slice()) {
            assert(contains_seq(lowercase(key@), secret_key_words()[i as int]));
            return true;
        }
        i = i + 1;
    }
    false
}
/// The image-pinning rule of a scan: an image without any `:` (no tag,
/// so it resolves to `latest`) or ending in `:latest` yields the
/// `image_pinning` finding (medium), which comes first; an image pinned
/// to another tag, or no image, yields no `image_pinning` finding at all.
pub proof fn law_image_pinning(
    docker_image: Option<Seq<char>>,
    domain: Option<Seq<char>>,
    healthcheck: Option<Seq<char>>,
    logs: Seq<Seq<char>>,
    vars: Seq<(Seq<char>, Seq<char>)>,
)
    ensures
        ({
            let r = spec_scan_findings(docker_image, domain, healthcheck, logs, vars);
            let unpinned = docker_image matches Some(img) && ((forall|i: int| 0 <= i < img.len() ==> img[i] != ':')
                || has_suffix(img, ":latest"@));
            &&& unpinned ==> r.len() > 0 && r[0].0 == Severity::Medium && r[0].1 == "image_pinning"@
            &&& (exists|j: int| 0 <= j < r.len() && (#[trigger] r[j]).1 == "image_pinning"@) ==> unpinned
        }),
{
    reveal_strlit("image_pinning");
    reveal_strlit("availability");
    reveal_strlit("transport_security");
    reveal_strlit("exposed_secret");
    reveal_strlit("missing_secret");
    let r = spec_scan_findings(docker_image, domain, healthcheck, logs, vars);
    let f1 = match docker_image {
        Some(img) => match image_finding(img) {
            Some(f) => seq![f],
            None => seq![],
        },
        None => seq![],
    };
    let rest = r.subrange(f1.len() as int, r.len() as int);
    assert forall|k: int| 0 <= k < rest.len() implies (#[trigger] rest[k]).1 != "image_pinning"@ by {
        let c = rest[k].1;
        assert(c == "availability"@ || c == "transport_security"@ || c == "exposed_secret"@ || c
            == "missing_secret"@);
        assert("availability"@.len() != "image_pinning"@.len());
        assert("transport_security"@.len() != "image_pinning"@.len());
        assert("exposed_secret"@.len() != "image_pinning"@.len());
        assert("missing_secret"@.len() != "image_pinning"@.len());
    }
    match docker_image {
        Some(img) => {
            if forall|i: int| 0 <= i < img.len() ==> img[i] != ':' {
                assert(!img.contains(':'));
            }
            if img.contains(':') && !has_suffix(img, ":latest"@) {
                let w = choose|i: int| 0 <= i < img.len() && img[i] == ':';
                assert(img[w] == ':');
            }
        },
        None => {},
    }
    assert forall|j: int| 0 <= j < r.len() && (#[trigger] r[j]).1 == "image_pinning"@ implies j < f1.len() by {
        if j >= f1.len() {
            assert(r[j] == rest[j - f1.len()]);
        }
    }
}


/// The rule-based security scan of an app: its image, health check and
/// domain settings, its recent deployment log lines and its environment
/// variables.
pub fn scan_findings(
    docker_image: &Option<String>,
    domain: &Option<String>,
    healthcheck: &Option<String>,
    logs: &Vec<String>,
    env_vars: &Vec<(String, String)>,
) -> (r: Vec<SecurityFinding>)
    ensures
        findings_view(r@) == spec_scan_findings(
            opt_view(*docker_image),
            opt_view(*domain),
            opt_view(*healthcheck),
            logs@.map_values(|s: String| s@),
            crate::env_vars::pairs_view(env_vars@),
        ),
{
    let mut findings: Vec<SecurityFinding> = Vec::new();
    let ghost lv = logs@.map_values(|s: String| s@);
    let ghost vv = crate::env_vars::pairs_view(env_vars@);

    // Check 1: untagged/latest image
    let ghost f1: Seq<FindingView> = seq![];
    if let Some(img) = docker_image {
        let iv = chars_of(img.as_str());
        let tag = chars_of(":latest");
        if crate::text::ends_with(iv.as_slice(), tag.as_slice()) || !crate::text::contains_char(
            iv.as_slice(),
            ':',
        ) {
            let mut d = owned("Image '");
            push_str(&mut d, img.as_str());
            push_str(&mut d, "' uses :latest which is mutable and can change unexpectedly.");
            findings.push(
                finding(
                    Severity::Medium,
                    "image_pinning",
                    owned("Docker image uses :latest tag"),
                    d,
                    "Pin to a specific version tag (e.g. :1.2.3) for reproducible deployments.",
                ),
            );
            proof {
                f1 = seq![image_finding(img@)->0];
            }
        }
    }
    assert(findings_view(findings@) =~= f1);

    // Check 2: no health check configured
    let no_health = match healthcheck {
        Some(h) => h.as_str().is_empty(),
        None => true,
    };
    let ghost f2: Seq<FindingView> = seq![];
    if no_health {
        let ghost before = findings_view(findings@);
        findings.push(
            finding(
                Severity::Low,
                "availability",
                owned("No health check configured"),
                owned("App has no health check URL. Unhealthy containers may receive traffic."),
                "Set a health check path (e.g. /health or /up) in app Settings.",
            ),
        );
        proof {
            f2 = seq![healthcheck_finding()];
            assert(findings_view(findings@) =~= before + f2);
        }
    }
    assert(findings_view(findings@) =~= f1 + f2);

    // Check 3: custom domain without HTTPS hint
    let ghost f3: Seq<FindingView> = seq![];
    if let Some(d) = domain {
        let dv = chars_of(d.as_str());
        let http = chars_of("http://");
        if dv.len() > 0 && starts_with(dv.as_slice(), http.as_slice()) {
            let ghost before = findings_view(findings@);
            let mut desc = owned("Domain '");
            push_str(&mut desc, d.as_str());
            push_str(&mut desc, "' is configured with plain HTTP.");
            findings.push(
                finding(
                    Severity::High,
                    "transport_security",
                    owned("Custom domain uses HTTP"),
                    desc,
                    "Use an HTTPS domain and enable TLS/SSL termination.",
                ),
            );
            proof {
                f3 = seq![http_domain_finding(d@)];
                assert(findings_view(findings@) =~= before + f3);
            }
        }
    }
    assert(findings_view(findings@) =~= f1 + f2 + f3);

    // Check 4: common secret patterns in recent log lines
    let mut hit: Option<usize> = None;
    let mut k: usize = 0;
    while k < 3 && hit.is_none()
        invariant
            k <= 3,
            lv == logs@.map_values(|s: String| s@),
            hit matches Some(h) ==> h < 3 && first_secret_hit(lv, 0) == Some(h as int),
            hit is None ==> first_secret_hit(lv, 0) == first_secret_hit(lv, k as int),
        decreases 3 - k + (if hit is None { 1int } else { 0int }),
    {
        let (_, pattern) = secret_pattern(k);
        if any_log_matches(pattern, logs) {
            hit = Some(k);
        } else {
            k = k + 1;
        }
    }
    let ghost f4: Seq<FindingView> = seq![];
    let ghost base = findings_view(findings@);
    match hit {
        Some(h) => {
            let (label, _) = secret_pattern(h);
            let mut title = owned(label);
            push_str(&mut title, " pattern found in deployment logs");
            let mut desc = owned("A ");
            push_str(&mut desc, label);
            push_str(
                &mut desc,
                " credential pattern was detected in deployment logs. Credentials in logs can be harvested from log storage.",
            );
            findings.push(
                finding(
                    Severity::Critical,
                    "exposed_secret",
                    title,
                    desc,
                    "Rotate the credential immediately. Use environment variables, not inline config, for secrets. Ensure logs are redacted before storage.",
                ),
            );
            proof {
                f4 = seq![exposed_secret_finding(secret_patterns()[h as int].0)];
                assert(findings_view(findings@) =~= base + f4);
            }
        },
        None => {
            proof {
                assert(first_secret_hit(lv, 3) is None);
                assert(base + f4 =~= base);
            }
        },
    }
    assert(findings_view(findings@) =~= f1 + f2 + f3 + f4);

    // Check 5: env vars with secret-sounding names but empty values
    let mut found: Option<usize> = None;
    let mut i: usize = 0;
    while i < env_vars.len() && found.is_none()
        invariant
            i <= env_vars.len(),
            vv == crate::env_vars::pairs_view(env_vars@),
            vv.len() == env_vars@.len(),
            found matches Some(w) ==> w < env_vars@.len() && first_empty_secret(vv) == Some(w as int),
            found is None ==> forall|j: int| 0 <= j < i ==> !empty_secret(vv[j].0, vv[j].1),
        decreases env_vars.len() - i + (if found is None { 1int } else { 0int }),
    {
        if is_empty_secret(&env_vars[i].0, &env_vars[i].1) {
            proof {
                assert(empty_secret(vv[i as int].0, vv[i as int].1));
                let w = choose|w: int|
                    0 <= w < vv.len() && empty_secret(vv[w].0, vv[w].1) && forall|j: int|
                        0 <= j < w ==> !empty_secret(vv[j].0, vv[j].1);
                if w < i {
                } else if w > i {
                }
            }
            found = Some(i);
        } else {
            i = i + 1;
        }
    }
    let ghost f5: Seq<FindingView> = seq![];
    let ghost base5 = findings_view(findings@);
    match found {
        Some(w) => {
            let key = env_vars[w].0.as_str();
            let mut title = owned("Secret env var '");
            push_str(&mut title, key);
            push_str(&mut title, "' is empty");
            let mut desc = owned("The env var '");
            push_str(&mut desc, key);
            push_str(&mut desc, "' appears to be a secret but has no value set.");
            findings.push(
                finding(
                    Severity::Medium,
                    "missing_secret",
                    title,
                    desc,
                    "Set a value for this secret or remove it if unused.",
                ),
            );
            proof {
                f5 = seq![empty_secret_finding(vv[w as int].0)];
                assert(findings_view(findings@) =~= base5 + f5);
            }
        },
        None => {
            proof {
                assert(first_empty_secret(vv) is None);
                assert(base5 + f5 =~= base5);
            }
        },
    }
    findings
}

/// How many findings have severity `sev`.
pub open spec fn count_severity(fs: Seq<FindingView>, sev: Severity) -> nat
    decreases fs.len(),
{
    if fs.len() == 0 {
        0
    } else {
        count_severity(fs.drop_last(), sev) + if fs.last().0 == sev {
            1nat
        } else {
            0nat
        }
    }
}

/// The tally of a scan counts every finding exactly once: the counts of the
/// four severities add up to the number of findings.
pub proof fn law_severity_counts_add_up(fs: Seq<FindingView>)
    ensures
        count_severity(fs, Severity::Critical) + count_severity(fs, Severity::High) + count_severity(
            fs,
            Severity::Medium,
        ) + count_severity(fs, Severity::Low) == fs.len(),
    decreases fs.len(),
{
    if fs.len() > 0 {
        law_severity_counts_add_up(fs.drop_last());
    }
}

/// The report of a security scan: the findings with their count per
/// severity, and the AI summary when there is one.
pub fn security_report(
    app_id: String,
    app_name: String,
    findings: Vec<SecurityFinding>,
    ai_summary: Option<String>,
) -> (r: SecurityScanResponse)
    ensures
        r.app_id == app_id,
        r.app_name == app_name,
        r.findings@ == findings@,
        r.ai_summary == ai_summary,
        r.critical == count_severity(findings_view(findings@), Severity::Critical),
        r.high == count_severity(findings_view(findings@), Severity::High),
        r.medium == count_severity(findings_view(findings@), Severity::Medium),
        r.low == count_severity(findings_view(findings@), Severity::Low),
{
    let ghost fv = findings_view(findings@);
    let mut critical: usize = 0;
    let mut high: usize = 0;
    let mut medium: usize = 0;
    let mut low: usize = 0;
    let mut i: usize = 0;
    while i < findings.len()
        invariant
            i <= findings.len(),
            fv == findings_view(findings@),
            critical == count_severity(fv.take(i as int), Severity::Critical),
            high == count_severity(fv.take(i as int), Severity::High),
            medium == count_severity(fv.take(i as int), Severity::Medium),
            low == count_severity(fv.take(i as int), Severity::Low),
            critical + high + medium + low == i,
        decreases findings.len() - i,
    {
        proof {
            let t = fv.take(i + 1);
            assert(t.drop_last() =~= fv.take(i as int));
            assert(t.last() == finding_view(findings@[i as int]));
        }
        match findings[i].severity {
            Severity::Critical => critical = critical + 1,
            Severity::High => high = high + 1,
            Severity::Medium => medium = medium + 1,
            Severity::Low => low = low + 1,
        }
        i = i + 1;
    }
    assert(fv.take(findings.len() as int) =~= fv);
    SecurityScanResponse { app_id, app_name, findings, critical, high, medium, low, ai_summary }
}

/// The name a severity is printed with.
pub open spec fn severity_name(s: Severity) -> Seq<char> {
    match s {
        Severity::Critical => "Critical"@,
        Severity::High => "High"@,
        Severity::Medium => "Medium"@,
        Severity::Low => "Low"@,
    }
}

/// One finding as a line of the prompt for the AI summary:
/// `[<severity>] <title> - <recommendation>`.
pub open spec fn finding_line(f: FindingView) -> Seq<char> {
    "["@ + severity_name(f.0) + "] "@ + f.2 + " - "@ + f.4
}

/// The findings as the lines of the prompt for the AI summary.
pub open spec fn spec_findings_digest(fs: Seq<FindingView>) -> Seq<char> {
    join_lines(fs.map_values(|f: FindingView| finding_line(f)))
}

fn severity_label(s: &Severity) -> (r: &'static str)
    ensures
        r@ == severity_name(*s),
{
    match s {
        Severity::Critical => "Critical",
        Severity::High => "High",
        Severity::Medium => "Medium",
        Severity::Low => "Low",
    }
}

/// The findings as the lines of the prompt for the AI summary.
pub fn findings_digest(findings: &Vec<SecurityFinding>) -> (r: String)
    ensures
        r@ == spec_findings_digest(findings_view(findings@)),
{
    let ghost fv = findings_view(findings@);
    let ghost lines_v = fv.map_values(|f: FindingView| finding_line(f));
    let mut out = String::new();
    let mut i: usize = 0;
    while i < findings.len()
        invariant
            i <= findings.len(),
            fv == findings_view(findings@),
            lines_v == fv.map_values(|f: FindingView| finding_line(f)),
            out@ == join_lines(lines_v.take(i as int)),
        decreases findings.len() - i,
    {
        let f = &findings[i];
        let ghost before = out@;
        if i > 0 {
            crate::text::push_char(&mut out, '\n');
        }
        push_str(&mut out, "[");
        push_str(&mut out, severity_label(&f.severity));
        push_str(&mut out, "] ");
        push_str(&mut out, f.title.as_str());
        push_str(&mut out, " - ");
        push_str(&mut out, f.recommendation.as_str());
        proof {
            let t = lines_v.take(i + 1);
            assert(t =~= lines_v.take(i as int).push(lines_v[i as int]));
            lemma_join_push(lines_v.take(i as int), lines_v[i as int]);
            assert(lines_v[i as int] == finding_line(finding_view(findings@[i as int])));
            if i == 0 {
                assert(out@ =~= lines_v[i as int]);
            } else {
                assert(out@ =~= before + seq!['\n'] + lines_v[i as int]);
            }
        }
        i = i + 1;
    }
    assert(lines_v.take(findings.len() as int) =~= lines_v);
    out
}

// ---------------------------------------------------------------------------
// Diagnosis prompt
// ---------------------------------------------------------------------------

/// Deployment log lines, oldest first, joined by line feeds: `newest_first`
/// holds them newest first, as they are read.
pub open spec fn oldest_first_text(newest_first: Seq<Seq<char>>) -> Seq<char>
    decreases newest_first.len(),
{
    if newest_first.len() == 0 {
        seq![]
    } else if newest_first.len() == 1 {
        newest_first[0]
    } else {
        oldest_first_text(newest_first.drop_first()) + seq!['\n'] + newest_first[0]
    }
}

/// The request put to the AI provider to diagnose a failed deployment.
pub open spec fn spec_diagnosis_prompt(
    app_name: Seq<char>,
    build_type: Seq<char>,
    error: Seq<char>,
    newest_first: Seq<Seq<char>>,
) -> Seq<char> {
    "App: "@ + app_name + "\nBuild type: "@ + build_type + "\nError: "@ + error
        + "\n\nLast deployment logs:\n"@ + oldest_first_text(newest_first)
}

/// The request put to the AI provider to diagnose a failed deployment:
/// the app, its build type, the deployment's error, and its log lines
/// oldest first.
pub fn diagnosis_prompt(app_name: &str, build_type: &str, error: &Option<String>, newest_first: &Vec<String>) -> (r:
    String)
    ensures
        r@ == spec_diagnosis_prompt(
            app_name@,
            build_type@,
            match error {
                Some(e) => e@,
                None => seq![],
            },
            newest_first@.map_values(|l: String| l@),
        ),
{
    let ghost lv = newest_first@.map_values(|l: String| l@);
    let mut text = String::new();
    let mut i: usize = newest_first.len();
    assert(lv.skip(lv.len() as int) =~= Seq::<Seq<char>>::empty());
    while i > 0
        invariant
            lv == newest_first@.map_values(|l: String| l@),
            i <= newest_first@.len(),
            text@ == oldest_first_text(lv.skip(i as int)),
        decreases i,
    {
        i = i - 1;
        let ghost before = text@;
        proof {
            let t = lv.skip(i as int);
            assert(t.drop_first() =~= lv.skip(i + 1));
            assert(t[0] == newest_first@[i as int]@);
        }
        if i + 1 == newest_first.len() {
            push_str(&mut text, newest_first[i].as_str());
            proof {
                assert(lv.skip(i + 1).len() == 0);
                assert(before.len() == 0);
                assert(text@ =~= lv.skip(i as int)[0]);
            }
        } else {
            crate::text::push_char(&mut text, '\n');
            push_str(&mut text, newest_first[i].as_str());
        }
    }
    assert(lv.skip(0) =~= lv);
    let mut r = owned("App: ");
    push_str(&mut r, app_name);
    push_str(&mut r, "\nBuild type: ");
    push_str(&mut r, build_type);
    push_str(&mut r, "\nError: ");
    match error {
        Some(e) => push_str(&mut r, e.as_str()),
        None => {},
    }
    push_str(&mut r, "\n\nLast deployment logs:\n");
    push_str(&mut r, text.as_str());
    assert(r@ =~= spec_diagnosis_prompt(
        app_name@,
        build_type@,
        match error {
            Some(e) => e@,
            None => seq![],
        },
        lv,
    ));
    r
}

// ---------------------------------------------------------------------------
// Cost and Dockerfile prompts
// ---------------------------------------------------------------------------

/// A setting as shown to the AI provider: its value, else `not set`.
pub open spec fn or_not_set(v: Option<Seq<char>>) -> Seq<char> {
    match v {
        Some(x) => x,
        None => "not set"@,
    }
}

/// The request put to the AI provider for cost suggestions on an app.
pub fn cost_prompt(name: &str, memory_limit: &Option<String>, cpu_limit: &Option<String>, replicas: i64) -> (r:
    String)
    ensures
        r@ == "App: "@ + name@ + "\nMemory limit: "@ + or_not_set(opt_view(*memory_limit))
            + "\nCPU limit: "@ + or_not_set(opt_view(*cpu_limit)) + "\nReplicas: "@
            + crate::numbers::signed_decimal(replicas as int),
{
    let mut r = owned("App: ");
    push_str(&mut r, name);
    push_str(&mut r, "\nMemory limit: ");
    match memory_limit {
        Some(m) => push_str(&mut r, m.as_str()),
        None => push_str(&mut r, "not set"),
    }
    push_str(&mut r, "\nCPU limit: ");
    match cpu_limit {
        Some(c) => push_str(&mut r, c.as_str()),
        None => push_str(&mut r, "not set"),
    }
    push_str(&mut r, "\nReplicas: ");
    let n = crate::numbers::i64_to_string(replicas);
    push_str(&mut r, n.as_str());
    r
}

/// The request put to the AI provider to improve an app's Dockerfile;
/// none when the app has no Dockerfile (blank once trimmed), which is
/// answered as the AI being unavailable.
pub fn dockerfile_prompt(app_name: &str, build_type: &Option<String>, dockerfile: &Option<String>) -> (r:
    Option<String>)
    ensures
        ({
            let d = match dockerfile {
                Some(x) => x@,
                None => seq![],
            };
            if crate::text::trim(d).len() == 0 {
                r is None
            } else {
                r matches Some(p) && p@ == "App: "@ + app_name@ + "\nBuild type: "@ + match build_type {
                    Some(b) => b@,
                    None => "dockerfile"@,
                } + "\n\nDockerfile:\n"@ + d
            }
        }),
{
    let d: String = match dockerfile {
        Some(x) => x.clone(),
        None => String::new(),
    };
    if crate::text::trim_str(d.as_str()).len() == 0 {
        return None;
    }
    let mut r = owned("App: ");
    push_str(&mut r, app_name);
    push_str(&mut r, "\nBuild type: ");
    match build_type {
        Some(b) => push_str(&mut r, b.as_str()),
        None => push_str(&mut r, "dockerfile"),
    }
    push_str(&mut r, "\n\nDockerfile:\n");
    push_str(&mut r, d.as_str());
    Some(r)
}

} // verus!
