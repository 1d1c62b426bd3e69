//! Deployment freeze windows: recurring daily time ranges (UTC) on chosen
//! days of the week during which deployments of an app are refused.
use vstd::prelude::*;
use crate::clock::{clock_reading, rfc3339_utc_clock, utc_clock_now, utc_clock_of};
use crate::error::ApiError;
use crate::matching::{regex_is_match, regex_match};
use crate::text::{chars_of, owned, push_str, seq_eq, split_chars, split_on};

verus! {

/// Request body for creating a freeze window.
pub struct CreateFreezeWindowRequest {
    pub name: String,
    /// Start time in HH:MM UTC format
    pub start_time: String,
    /// End time in HH:MM UTC format
    pub end_time: String,
    /// Comma-separated days of week (0=Sun, ..., 6=Sat). Default: all days
    pub days_of_week: Option<String>,
    pub is_active: bool,
}

/// A freeze window is active unless the request says otherwise.
pub fn default_is_active() -> (r: bool)
    ensures
        r,
{
    true
}

/// The fields of a stored freeze window that the freeze check reads.
pub struct FreezeWindow {
    pub name: String,
    pub start_time: String,
    pub end_time: String,
    pub days_of_week: String,
}

/// `a` sorts strictly before `b`, comparing character by character as
/// string ordering does.
pub open spec fn lex_lt(a: Seq<char>, b: Seq<char>) -> bool
    decreases a.len(),
{
    if a.len() == 0 {
        b.len() > 0
    } else if b.len() == 0 {
        false
    } else if a[0] < b[0] {
        true
    } else if a[0] > b[0] {
        false
    } else {
        lex_lt(a.drop_first(), b.drop_first())
    }
}

/// `a` sorts before `b` or equals it.
pub open spec fn lex_le(a: Seq<char>, b: Seq<char>) -> bool {
    !lex_lt(b, a)
}

/// No string sorts strictly before itself.
pub proof fn lemma_lex_lt_irreflexive(a: Seq<char>)
    ensures
        !lex_lt(a, a),
    decreases a.len(),
{
    if a.len() > 0 {
        lemma_lex_lt_irreflexive(a.drop_first());
    }
}

/// Sorting strictly before is transitive.
pub proof fn lemma_lex_lt_transitive(a: Seq<char>, b: Seq<char>, c: Seq<char>)
    requires
        lex_lt(a, b),
        lex_lt(b, c),
    ensures
        lex_lt(a, c),
    decreases a.len(),
{
    if a.len() > 0 && b.len() > 0 && c.len() > 0 && a[0] == b[0] && b[0] == c[0] {
        lemma_lex_lt_transitive(a.drop_first(), b.drop_first(), c.drop_first());
    }
}

/// Two strings never sort strictly before each other.
pub proof fn lemma_lex_lt_asymmetric(a: Seq<char>, b: Seq<char>)
    requires
        lex_lt(a, b),
    ensures
        !lex_lt(b, a),
{
    if lex_lt(b, a) {
        lemma_lex_lt_transitive(a, b, a);
        lemma_lex_lt_irreflexive(a);
    }
}

/// Of two different strings, one sorts strictly before the other.
pub proof fn lemma_lex_lt_total(a: Seq<char>, b: Seq<char>)
    ensures
        lex_lt(a, b) || lex_lt(b, a) || a == b,
    decreases a.len(),
{
    if a.len() > 0 && b.len() > 0 && a[0] == b[0] {
        lemma_lex_lt_total(a.drop_first(), b.drop_first());
        if a.drop_first() == b.drop_first() {
            assert(a =~= seq![a[0]] + a.drop_first());
            assert(b =~= seq![b[0]] + b.drop_first());
        }
    }
}

/// Whether `a` sorts strictly before `b`.
pub fn str_lt(a: &[char], b: &[char]) -> (r: bool)
    ensures
        r == lex_lt(a@, b@),
    decreases a.len(),
{
    if a.len() == 0 {
        b.len() > 0
    } else if b.len() == 0 {
        false
    } else if a[0] < b[0] {
        true
    } else if a[0] > b[0] {
        false
    } else {
        let a2 = crate::text::slice_to_vec(a, 1, a.len());
        let b2 = crate::text::slice_to_vec(b, 1, b.len());
        proof {
            assert(a2@ =~= a@.drop_first());
            assert(b2@ =~= b@.drop_first());
        }
        str_lt(a2.as_slice(), b2.as_slice())
    }
}

/// The time of day `t` lies in the window from `start` to `end`: a plain
/// range when `start <= end`, and a range that wraps past midnight
/// otherwise. The start is inside, the end outside.
pub open spec fn in_window(start: Seq<char>, end: Seq<char>, t: Seq<char>) -> bool {
    if lex_le(start, end) {
        lex_le(start, t) && lex_lt(t, end)
    } else {
        lex_le(start, t) || lex_lt(t, end)
    }
}

/// Whether the time of day `t` lies in the window from `start` to `end`.
pub fn time_in_window(start: &str, end: &str, t: &str) -> (r: bool)
    ensures
        r == in_window(start@, end@, t@),
{
    let s = chars_of(start);
    let e = chars_of(end);
    let c = chars_of(t);
    if !str_lt(e.as_slice(), s.as_slice()) {
        !str_lt(c.as_slice(), s.as_slice()) && str_lt(c.as_slice(), e.as_slice())
    } else {
        !str_lt(c.as_slice(), s.as_slice()) || str_lt(c.as_slice(), e.as_slice())
    }
}

/// `day` is one of the comma-separated entries of `days`.
pub open spec fn day_listed(days: Seq<char>, day: Seq<char>) -> bool {
    split_on(days, ',').contains(day)
}

/// Whether `day` is one of the comma-separated entries of `days`.
pub fn is_day_listed(days: &str, day: &str) -> (r: bool)
    ensures
        r == day_listed(days@, day@),
{
    let dv = chars_of(days);
    let d = chars_of(day);
    let parts = split_chars(dv.as_slice(), ',');
    let ghost pv = parts@.map_values(|v: Vec<char>| v@);
    let mut i: usize = 0;
    while i < parts.len()
        invariant
            i <= parts.len(),
            pv == parts@.map_values(|v: Vec<char>| v@),
            pv == split_on(days@, ','),
            d@ == day@,
            forall|j: int| 0 <= j < i ==> pv[j] != day@,
        decreases parts.len() - i,
    {
        if seq_eq(parts[i].as_slice(), d.as_slice()) {
            assert(pv[i as int] == day@);
            return true;
        }
        i = i + 1;
    }
    false
}

/// A window is in force at the given day of week and time of day.
pub open spec fn window_in_force(w: FreezeWindow, day: Seq<char>, t: Seq<char>) -> bool {
    day_listed(w.days_of_week@, day) && in_window(w.start_time@, w.end_time@, t)
}

/// The message a deployment is refused with during window `w`.
pub open spec fn frozen_message(w: FreezeWindow) -> Seq<char> {
    "Deployment frozen: '"@ + w.name@ + "' freeze window is active ("@ + w.start_time@ + " - "@
        + w.end_time@ + " UTC)"@
}

/// The answer owed for the windows `ws` at day of week `day` and time of
/// day `t`: allowed when no window is in force, else a conflict naming the
/// first window in force.
pub open spec fn freeze_verdict(
    ws: Seq<FreezeWindow>,
    day: Seq<char>,
    t: Seq<char>,
    r: Result<(), ApiError>,
) -> bool {
    match r {
        Ok(()) => forall|i: int| 0 <= i < ws.len() ==> !window_in_force(#[trigger] ws[i], day, t),
        Err(e) => exists|i: int|
            0 <= i < ws.len() && window_in_force(ws[i], day, t) && (forall|j: int|
                0 <= j < i ==> !window_in_force(ws[j], day, t)) && (e matches ApiError::Conflict(m)
                && m@ == frozen_message(ws[i])),
    }
}

/// Checks the active freeze windows of an app at the given day of week
/// (`0` = Sunday) and time of day (`HH:MM`, UTC). A deployment is refused,
/// with a conflict naming the first window in force, exactly when some
/// window lists the day and its time range holds the time.
pub fn check_windows_at(windows: &Vec<FreezeWindow>, current_dow: &str, current_time: &str) -> (r:
    Result<(), ApiError>)
    ensures
        match r {
            Ok(()) => forall|i: int|
                0 <= i < windows@.len() ==> !window_in_force(
                    #[trigger] windows@[i],
                    current_dow@,
                    current_time@,
                ),
            Err(e) => exists|i: int|
                0 <= i < windows@.len() && window_in_force(windows@[i], current_dow@, current_time@)
                    && (forall|j: int|
                    0 <= j < i ==> !window_in_force(windows@[j], current_dow@, current_time@))
                    && (e matches ApiError::Conflict(m) && m@ == frozen_message(windows@[i])),
        },
{
    let mut i: usize = 0;
    while i < windows.len()
        invariant
            i <= windows.len(),
            forall|j: int|
                0 <= j < i ==> !window_in_force(#[trigger] windows@[j], current_dow@, current_time@),
        decreases windows.len() - i,
    {
        let w = &windows[i];
        if is_day_listed(&w.days_of_week, current_dow) && time_in_window(
            &w.start_time,
            &w.end_time,
            current_time,
        ) {
            let mut m = owned("Deployment frozen: '");
            push_str(&mut m, &w.name);
            push_str(&mut m, "' freeze window is active (");
            push_str(&mut m, &w.start_time);
            push_str(&mut m, " - ");
            push_str(&mut m, &w.end_time);
            push_str(&mut m, " UTC)");
            return Err(ApiError::Conflict(m));
        }
        i = i + 1;
    }
    Ok(())
}

/// Checks the active freeze windows of an app at the time `now` (RFC
/// 3339). The day of week and time of day are read from `now` in UTC; when
/// `now` does not parse, the current time is used instead, so the answer is
/// the one owed at some well-formed clock reading.
pub fn check_freeze_windows(windows: &Vec<FreezeWindow>, now: &str) -> (r: Result<(), ApiError>)
    ensures
        match rfc3339_utc_clock(now@) {
            Some(c) => freeze_verdict(windows@, c.1, c.0, r),
            None => exists|c: (Seq<char>, Seq<char>)|
                clock_reading(c.0, c.1) && #[trigger] freeze_verdict(windows@, c.1, c.0, r),
        },
{
    let (current_time, current_dow) = match utc_clock_of(now) {
        Some(c) => c,
        None => utc_clock_now(),
    };
    let r = check_windows_at(windows, &current_dow, &current_time);
    proof {
        assert(freeze_verdict(windows@, current_dow@, current_time@, r));
        if rfc3339_utc_clock(now@) is None {
            assert(clock_reading(current_time@, current_dow@));
            let c = (current_time@, current_dow@);
            assert(clock_reading(c.0, c.1) && freeze_verdict(windows@, c.1, c.0, r));
        }
    }
    r
}

/// The pattern that freeze window times must match: two digits, a colon,
/// two digits.
pub open spec fn time_pattern() -> Seq<char> {
    "^\\d{2}:\\d{2}$"@
}

/// Checks the times of a new freeze window: both must match the `HH:MM`
/// pattern. A pattern that fails to compile accepts nothing.
pub fn validate_window_times(start_time: &str, end_time: &str) -> (r: Result<(), ApiError>)
    ensures
        r is Ok <==> regex_match(time_pattern(), start_time@) == Some(true) && regex_match(
            time_pattern(),
            end_time@,
        ) == Some(true),
        r matches Err(e) ==> (e matches ApiError::BadRequest(m) && m@
            == "start_time and end_time must be in HH:MM format (UTC)"@),
{
    let pattern = "^\\d{2}:\\d{2}$";
    let s_ok = match regex_is_match(pattern, start_time) {
        Some(b) => b,
        None => false,
    };
    let e_ok = match regex_is_match(pattern, end_time) {
        Some(b) => b,
        None => false,
    };
    if !s_ok || !e_ok {
        return Err(ApiError::BadRequest(owned("start_time and end_time must be in HH:MM format (UTC)")));
    }
    Ok(())
}

/// The days of week a new window covers: those given, or every day.
pub fn window_days(days_of_week: Option<String>) -> (r: String)
    ensures
        r@ == match days_of_week {
            Some(d) => d@,
            None => "0,1,2,3,4,5,6"@,
        },
{
    match days_of_week {
        Some(d) => d,
        None => owned("0,1,2,3,4,5,6"),
    }
}

/// A window whose start equals its end holds no time at all.
pub proof fn law_empty_window(t: Seq<char>, start: Seq<char>)
    ensures
        !in_window(start, start, t),
{
    lemma_lex_total(start, t);
}

/// A window that wraps past midnight (start after end) holds exactly the
/// times that the plain window from its end to its start does not.
pub proof fn law_overnight_window_complements(start: Seq<char>, end: Seq<char>, t: Seq<char>)
    requires
        lex_lt(end, start),
    ensures
        in_window(start, end, t) == !in_window(end, start, t),
{
    lemma_lex_asym(end, start);
}

/// Strict string order: exactly one of `a < b`, `a == b`, `b < a` holds.
pub proof fn lemma_lex_total(a: Seq<char>, b: Seq<char>)
    ensures
        lex_lt(a, b) || a == b || lex_lt(b, a),
        !(lex_lt(a, b) && lex_lt(b, a)),
        !lex_lt(a, a),
    decreases a.len(),
{
    if a.len() > 0 && b.len() > 0 {
        lemma_lex_total(a.drop_first(), b.drop_first());
        if a[0] == b[0] && a.drop_first() == b.drop_first() {
            assert(a =~= seq![a[0]] + a.drop_first());
            assert(b =~= seq![b[0]] + b.drop_first());
        }
    } else if a.len() == 0 && b.len() == 0 {
        assert(a =~= b);
    }
    if a.len() > 0 {
        lemma_lex_total(a.drop_first(), a.drop_first());
    }
}

proof fn lemma_lex_asym(a: Seq<char>, b: Seq<char>)
    requires
        lex_lt(a, b),
    ensures
        !lex_lt(b, a),
        a != b,
{
    lemma_lex_total(a, b);
}

/// A stored freeze window with what decides whom it applies to.
pub struct StoredFreezeWindow {
    pub is_active: bool,
    pub app_id: Option<String>,
    pub team_id: Option<String>,
    pub window: FreezeWindow,
}

/// A stored window applies to an app when it is active and names the app,
/// or names the team the app belongs to.
pub open spec fn applies_to(w: StoredFreezeWindow, app_id: Seq<char>, team_id: Option<Seq<char>>) -> bool {
    w.is_active && ((w.app_id matches Some(a) && a@ == app_id) || (team_id matches Some(t)
        && w.team_id matches Some(wt) && wt@ == t))
}

/// The windows that apply to an app, in order.
pub open spec fn spec_windows_for(
    stored: Seq<StoredFreezeWindow>,
    app_id: Seq<char>,
    team_id: Option<Seq<char>>,
) -> Seq<FreezeWindow>
    decreases stored.len(),
{
    if stored.len() == 0 {
        seq![]
    } else {
        let rest = spec_windows_for(stored.drop_last(), app_id, team_id);
        if applies_to(stored.last(), app_id, team_id) {
            rest.push(stored.last().window)
        } else {
            rest
        }
    }
}

/// The freeze windows that apply to an app (those of the app itself and,
/// for an app of a team, those of its team), active ones only.
pub fn windows_for_app(stored: Vec<StoredFreezeWindow>, app_id: &str, team_id: &Option<String>) -> (r: Vec<
    FreezeWindow,
>)
    ensures
        r@ == spec_windows_for(stored@, app_id@, crate::text::opt_view(*team_id)),
{
    let ghost src = stored@;
    let ghost tv = crate::text::opt_view(*team_id);
    let mut r: Vec<FreezeWindow> = Vec::new();
    assert(src.take(0) =~= Seq::<StoredFreezeWindow>::empty());
    for w in it: stored.into_iter()
        invariant
            it.seq() == src,
            tv == crate::text::opt_view(*team_id),
            r@ == spec_windows_for(src.take(it.index() as int), app_id@, tv),
    {
        let by_app = match &w.app_id {
            Some(a) => crate::text::str_eq(a.as_str(), app_id),
            None => false,
        };
        let by_team = match (team_id, &w.team_id) {
            (Some(t), Some(wt)) => crate::text::str_eq(wt.as_str(), t.as_str()),
            _ => false,
        };
        let keep = w.is_active && (by_app || by_team);
        proof {
            let k = it.index() as int;
            assert(src.take(k + 1).drop_last() =~= src.take(k));
            assert(src.take(k + 1).last() == w);
            assert(keep == applies_to(w, app_id@, tv));
        }
        if keep {
            r.push(w.window);
        }
    }
    assert(src.take(src.len() as int) =~= src);
    r
}

/// `w` is the window of a stored window that applies to the app.
pub open spec fn from_applicable(
    stored: Seq<StoredFreezeWindow>,
    app_id: Seq<char>,
    team_id: Option<Seq<char>>,
    w: FreezeWindow,
) -> bool {
    exists|j: int| 0 <= j < stored.len() && applies_to(stored[j], app_id, team_id) && stored[j].window == w
}

/// Only windows that apply to the app are checked: every window checked
/// for an app is the window of an active stored window of the app or of
/// its team, and every such stored window is checked.
pub proof fn law_only_applicable_windows(
    stored: Seq<StoredFreezeWindow>,
    app_id: Seq<char>,
    team_id: Option<Seq<char>>,
)
    ensures
        forall|i: int|
            0 <= i < spec_windows_for(stored, app_id, team_id).len() ==> from_applicable(
                stored,
                app_id,
                team_id,
                #[trigger] spec_windows_for(stored, app_id, team_id)[i],
            ),
        forall|j: int|
            0 <= j < stored.len() && applies_to(#[trigger] stored[j], app_id, team_id) ==> spec_windows_for(
                stored,
                app_id,
                team_id,
            ).contains(stored[j].window),
    decreases stored.len(),
{
    if stored.len() > 0 {
        let init = stored.drop_last();
        law_only_applicable_windows(init, app_id, team_id);
        let rest = spec_windows_for(init, app_id, team_id);
        let all = spec_windows_for(stored, app_id, team_id);
        assert forall|i: int| 0 <= i < all.len() implies from_applicable(stored, app_id, team_id, #[trigger] all[i]) by {
            if i < rest.len() {
                assert(all[i] == rest[i]);
                assert(from_applicable(init, app_id, team_id, rest[i]));
                let j = choose|j: int|
                    0 <= j < init.len() && applies_to(init[j], app_id, team_id) && init[j].window
                        == rest[i];
                assert(stored[j] == init[j]);
            } else {
                let n = stored.len() - 1;
                assert(stored[n] == stored.last());
                assert(applies_to(stored[n], app_id, team_id) && stored[n].window == all[i]);
            }
        }
        assert forall|j: int|
            0 <= j < stored.len() && applies_to(#[trigger] stored[j], app_id, team_id) implies all.contains(
            stored[j].window,
        ) by {
            if j < init.len() {
                assert(init[j] == stored[j]);
                assert(rest.contains(stored[j].window));
                let k = choose|k: int| 0 <= k < rest.len() && rest[k] == stored[j].window;
                assert(all[k] == rest[k]);
            } else {
                assert(stored[j] == stored.last());
                assert(all[all.len() - 1] == stored[j].window);
            }
        }
    }
}

} // verus!
