//! Environment variables: key validation, and the layering of app,
//! environment, project and team variables into the set a container gets.
use vstd::prelude::*;
use crate::numbers::{decimal, u64_to_string};
use crate::text::concat2;

verus! {

/// A key character: an ASCII letter, an ASCII digit or an underscore.
pub open spec fn is_key_char(c: char) -> bool {
    ('a' <= c && c <= 'z') || ('A' <= c && c <= 'Z') || ('0' <= c && c <= '9') || c == '_'
}

/// A key may start with an ASCII letter or an underscore.
pub open spec fn is_key_start(c: char) -> bool {
    ('a' <= c && c <= 'z') || ('A' <= c && c <= 'Z') || c == '_'
}

/// A valid environment variable key: non-empty, starts with a letter or an
/// underscore, and holds only ASCII letters, digits and underscores.
pub open spec fn spec_valid_env_key(key: Seq<char>) -> bool {
    &&& key.len() > 0
    &&& is_key_start(key[0])
    &&& forall|i: int| 0 <= i < key.len() ==> is_key_char(#[trigger] key[i])
}

/// Validate environment variable key format.
pub fn is_valid_env_key(key: &str) -> (r: bool)
    ensures
        r == spec_valid_env_key(key@),
{
    let mut first = true;
    let mut ok = true;
    for c in it: key.chars()
        invariant
            it.seq() == key@,
            first <==> it.index() == 0,
            ok <==> (it.index() > 0 ==> is_key_start(key@[0])) && (forall|i: int| 0 <= i < it.index() ==> is_key_char(#[trigger] key@[i])),
    {
        if first {
            if !(('a' <= c && c <= 'z') || ('A' <= c && c <= 'Z') || c == '_') {
                ok = false;
            }
            first = false;
        }
        if !(('a' <= c && c <= 'z') || ('A' <= c && c <= 'Z') || ('0' <= c && c <= '9') || c == '_') {
            ok = false;
        }
    }
    !first && ok
}

/// Query parameters for listing environment variables.
pub struct ListEnvVarsQuery {
    /// If true, reveal secret values (default: false)
    pub reveal: bool,
}

/// One variable as a pair of plain character sequences.
pub open spec fn pair_view(p: (String, String)) -> (Seq<char>, Seq<char>) {
    (p.0@, p.1@)
}

/// A list of variables as plain character sequences.
pub open spec fn pairs_view(v: Seq<(String, String)>) -> Seq<(Seq<char>, Seq<char>)> {
    v.map_values(|p: (String, String)| pair_view(p))
}

/// Some variable in `env` has key `k`.
pub open spec fn has_key(env: Seq<(Seq<char>, Seq<char>)>, k: Seq<char>) -> bool {
    exists|i: int| 0 <= i < env.len() && #[trigger] env[i].0 == k
}

/// `env` with `(k, v)` added at the end, unless a variable with key `k`
/// is already there.
pub open spec fn add_absent(env: Seq<(Seq<char>, Seq<char>)>, k: Seq<char>, v: Seq<char>) -> Seq<
    (Seq<char>, Seq<char>),
> {
    if has_key(env, k) {
        env
    } else {
        env.push((k, v))
    }
}

/// `env` with every variable of `layer` added, in order, unless its key is
/// already present: earlier entries take precedence.
pub open spec fn merge_layer(
    env: Seq<(Seq<char>, Seq<char>)>,
    layer: Seq<(Seq<char>, Seq<char>)>,
) -> Seq<(Seq<char>, Seq<char>)>
    decreases layer.len(),
{
    if layer.len() == 0 {
        env
    } else {
        add_absent(merge_layer(env, layer.drop_last()), layer.last().0, layer.last().1)
    }
}

/// The system variables that an app gets unless it sets them itself:
/// `PORT`, `RIVETR_ENV`, `RIVETR_APP_NAME` and, with a primary domain,
/// `RIVETR_URL`.
pub open spec fn with_system_vars(
    env: Seq<(Seq<char>, Seq<char>)>,
    port: u64,
    environment: Seq<char>,
    app_name: Seq<char>,
    primary_domain: Option<Seq<char>>,
) -> Seq<(Seq<char>, Seq<char>)> {
    let e1 = add_absent(env, "PORT"@, decimal(port as nat));
    let e2 = add_absent(e1, "RIVETR_ENV"@, environment);
    let e3 = add_absent(e2, "RIVETR_APP_NAME"@, app_name);
    match primary_domain {
        Some(d) => add_absent(e3, "RIVETR_URL"@, "https://"@ + d),
        None => e3,
    }
}

/// The variables a container of the app is started with: the app's own
/// variables, then the system variables, then the environment, project and
/// team layers, each adding only keys that are not set yet.
pub open spec fn spec_collect_env_vars(
    app_vars: Seq<(Seq<char>, Seq<char>)>,
    port: u64,
    environment: Seq<char>,
    app_name: Seq<char>,
    primary_domain: Option<Seq<char>>,
    environment_layer: Seq<(Seq<char>, Seq<char>)>,
    project_layer: Seq<(Seq<char>, Seq<char>)>,
    team_layer: Seq<(Seq<char>, Seq<char>)>,
) -> Seq<(Seq<char>, Seq<char>)> {
    merge_layer(
        merge_layer(
            merge_layer(
                with_system_vars(app_vars, port, environment, app_name, primary_domain),
                environment_layer,
            ),
            project_layer,
        ),
        team_layer,
    )
}

/// Whether some variable in `env` has key `key`.
pub fn contains_key(env: &Vec<(String, String)>, key: &String) -> (r: bool)
    ensures
        r == has_key(pairs_view(env@), key@),
{
    let mut i: usize = 0;
    while i < env.len()
        invariant
            i <= env.len(),
            forall|j: int| 0 <= j < i ==> env@[j].0@ != key@,
        decreases env.len() - i,
    {
        if env[i].0 == *key {
            assert(pairs_view(env@)[i as int].0 == key@);
            return true;
        }
        i = i + 1;
    }
    assert forall|j: int| 0 <= j < pairs_view(env@).len() implies #[trigger] pairs_view(env@)[j].0
        != key@ by {
        assert(pairs_view(env@)[j] == pair_view(env@[j]));
    }
    false
}

/// Adds `(key, value)` unless a variable with that key is already present.
pub fn add_if_absent(env: &mut Vec<(String, String)>, key: String, value: String)
    ensures
        pairs_view(final(env)@) == add_absent(pairs_view(old(env)@), key@, value@),
{
    if !contains_key(env, &key) {
        let ghost k = key@;
        let ghost v = value@;
        env.push((key, value));
        proof {
            assert(pairs_view(env@) =~= pairs_view(old(env)@).push((k, v)));
        }
    }
}

/// Adds every variable of `layer`, in order, unless its key is already
/// present.
pub fn merge_env_layer(env: &mut Vec<(String, String)>, layer: Vec<(String, String)>)
    ensures
        pairs_view(final(env)@) == merge_layer(pairs_view(old(env)@), pairs_view(layer@)),
{
    let mut i: usize = 0;
    while i < layer.len()
        invariant
            i <= layer.len(),
            pairs_view(env@) == merge_layer(pairs_view(old(env)@), pairs_view(layer@).take(i as int)),
        decreases layer.len() - i,
    {
        let k = layer[i].0.clone();
        let v = layer[i].1.clone();
        proof {
            let t = pairs_view(layer@).take(i + 1);
            assert(t.drop_last() =~= pairs_view(layer@).take(i as int));
            assert(t.last() == pair_view(layer@[i as int]));
        }
        add_if_absent(env, k, v);
        i = i + 1;
    }
    assert(pairs_view(layer@).take(layer.len() as int) =~= pairs_view(layer@));
}

/// Collects the variables a container of an app is started with.
///
/// The app's own variables come first, as they are; `PORT`, `RIVETR_ENV`,
/// `RIVETR_APP_NAME` and `RIVETR_URL` are added when the app does not set
/// them; then the environment, project and team layers are merged in that
/// order, each adding only keys that are not set yet.
pub fn collect_env_vars(
    app_vars: Vec<(String, String)>,
    port: u64,
    environment: &str,
    app_name: &str,
    primary_domain: Option<&str>,
    environment_layer: Vec<(String, String)>,
    project_layer: Vec<(String, String)>,
    team_layer: Vec<(String, String)>,
) -> (r: Vec<(String, String)>)
    ensures
        pairs_view(r@) == spec_collect_env_vars(
            pairs_view(app_vars@),
            port,
            environment@,
            app_name@,
            match primary_domain {
                Some(d) => Some(d@),
                None => None,
            },
            pairs_view(environment_layer@),
            pairs_view(project_layer@),
            pairs_view(team_layer@),
        ),
{
    let mut env = app_vars;
    add_if_absent(&mut env, crate::text::owned("PORT"), u64_to_string(port));
    add_if_absent(&mut env, crate::text::owned("RIVETR_ENV"), crate::text::owned(environment));
    add_if_absent(&mut env, crate::text::owned("RIVETR_APP_NAME"), crate::text::owned(app_name));
    match primary_domain {
        Some(d) => {
            add_if_absent(&mut env, crate::text::owned("RIVETR_URL"), concat2("https://", d));
        },
        None => {},
    }
    merge_env_layer(&mut env, environment_layer);
    merge_env_layer(&mut env, project_layer);
    merge_env_layer(&mut env, team_layer);
    env
}

/// No two variables in `env` share a key.
pub open spec fn unique_keys(env: Seq<(Seq<char>, Seq<char>)>) -> bool {
    forall|i: int, j: int| 0 <= i < j < env.len() ==> env[i].0 != env[j].0
}

/// Merging a layer never changes or removes a variable that is already
/// set: the variables before the merge are a prefix of those after it.
pub proof fn law_merge_keeps_existing(
    env: Seq<(Seq<char>, Seq<char>)>,
    layer: Seq<(Seq<char>, Seq<char>)>,
)
    ensures
        merge_layer(env, layer).len() >= env.len(),
        merge_layer(env, layer).take(env.len() as int) == env,
    decreases layer.len(),
{
    if layer.len() > 0 {
        law_merge_keeps_existing(env, layer.drop_last());
        let m = merge_layer(env, layer.drop_last());
        if !has_key(m, layer.last().0) {
            assert(m.push((layer.last().0, layer.last().1)).take(env.len() as int) =~= m.take(
                env.len() as int,
            ));
        }
    } else {
        assert(env.take(env.len() as int) =~= env);
    }
}

/// Adding a variable whose key may already be present keeps keys unique.
pub proof fn lemma_add_absent_unique(env: Seq<(Seq<char>, Seq<char>)>, k: Seq<char>, v: Seq<char>)
    requires
        unique_keys(env),
    ensures
        unique_keys(add_absent(env, k, v)),
        has_key(add_absent(env, k, v), k),
        forall|q: Seq<char>| has_key(env, q) ==> has_key(add_absent(env, k, v), q),
{
    let r = add_absent(env, k, v);
    if !has_key(env, k) {
        assert(r[env.len() as int].0 == k);
        assert forall|q: Seq<char>| has_key(env, q) implies has_key(r, q) by {
            let i = choose|i: int| 0 <= i < env.len() && #[trigger] env[i].0 == q;
            assert(r[i].0 == q);
        }
    }
}

/// Merging a layer into variables with distinct keys gives variables with
/// distinct keys, and every key of the layer is then set.
pub proof fn law_merge_unique_and_complete(
    env: Seq<(Seq<char>, Seq<char>)>,
    layer: Seq<(Seq<char>, Seq<char>)>,
)
    requires
        unique_keys(env),
    ensures
        unique_keys(merge_layer(env, layer)),
        forall|i: int| 0 <= i < layer.len() ==> has_key(merge_layer(env, layer), #[trigger] layer[i].0),
        forall|q: Seq<char>| has_key(env, q) ==> has_key(merge_layer(env, layer), q),
    decreases layer.len(),
{
    if layer.len() > 0 {
        let prev = layer.drop_last();
        law_merge_unique_and_complete(env, prev);
        let m = merge_layer(env, prev);
        lemma_add_absent_unique(m, layer.last().0, layer.last().1);
        assert forall|i: int| 0 <= i < layer.len() implies has_key(
            merge_layer(env, layer),
            #[trigger] layer[i].0,
        ) by {
            if i < layer.len() - 1 {
                assert(prev[i] == layer[i]);
                assert(has_key(m, prev[i].0));
            }
        }
    }
}

/// The app's own variables come first in what a container gets, unchanged:
/// no system variable and no environment, project or team variable
/// overrides a variable that the app sets itself.
pub proof fn law_app_vars_take_precedence(
    app_vars: Seq<(Seq<char>, Seq<char>)>,
    port: u64,
    environment: Seq<char>,
    app_name: Seq<char>,
    primary_domain: Option<Seq<char>>,
    environment_layer: Seq<(Seq<char>, Seq<char>)>,
    project_layer: Seq<(Seq<char>, Seq<char>)>,
    team_layer: Seq<(Seq<char>, Seq<char>)>,
)
    ensures
        ({
            let r = spec_collect_env_vars(
                app_vars,
                port,
                environment,
                app_name,
                primary_domain,
                environment_layer,
                project_layer,
                team_layer,
            );
            r.len() >= app_vars.len() && r.take(app_vars.len() as int) == app_vars
        }),
{
    let e0 = app_vars;
    let e1 = add_absent(e0, "PORT"@, decimal(port as nat));
    let e2 = add_absent(e1, "RIVETR_ENV"@, environment);
    let e3 = add_absent(e2, "RIVETR_APP_NAME"@, app_name);
    let sys = with_system_vars(app_vars, port, environment, app_name, primary_domain);
    assert(sys.len() >= app_vars.len() && sys.take(app_vars.len() as int) =~= app_vars) by {
        assert(e1.take(e0.len() as int) =~= e0);
        assert(e2.take(e0.len() as int) =~= e0);
        assert(e3.take(e0.len() as int) =~= e0);
        match primary_domain {
            Some(d) => {
                let e4 = add_absent(e3, "RIVETR_URL"@, "https://"@ + d);
                assert(e4.take(e0.len() as int) =~= e0);
            },
            None => {},
        }
    }
    let m1 = merge_layer(sys, environment_layer);
    let m2 = merge_layer(m1, project_layer);
    let m3 = merge_layer(m2, team_layer);
    law_merge_keeps_existing(sys, environment_layer);
    law_merge_keeps_existing(m1, project_layer);
    law_merge_keeps_existing(m2, team_layer);
    assert(m1.take(app_vars.len() as int) =~= app_vars) by {
        assert(m1.take(sys.len() as int).take(app_vars.len() as int) =~= m1.take(
            app_vars.len() as int,
        ));
    }
    assert(m2.take(app_vars.len() as int) =~= app_vars) by {
        assert(m2.take(m1.len() as int).take(app_vars.len() as int) =~= m2.take(
            app_vars.len() as int,
        ));
    }
    assert(m3.take(app_vars.len() as int) =~= app_vars) by {
        assert(m3.take(m2.len() as int).take(app_vars.len() as int) =~= m3.take(
            app_vars.len() as int,
        ));
    }
}

/// When the app's own variables have distinct keys, so do the variables a
/// container gets, and every variable of the environment, project and team
/// layers has its key set there.
pub proof fn law_collected_keys_unique_and_complete(
    app_vars: Seq<(Seq<char>, Seq<char>)>,
    port: u64,
    environment: Seq<char>,
    app_name: Seq<char>,
    primary_domain: Option<Seq<char>>,
    environment_layer: Seq<(Seq<char>, Seq<char>)>,
    project_layer: Seq<(Seq<char>, Seq<char>)>,
    team_layer: Seq<(Seq<char>, Seq<char>)>,
)
    requires
        unique_keys(app_vars),
    ensures
        ({
            let r = spec_collect_env_vars(
                app_vars,
                port,
                environment,
                app_name,
                primary_domain,
                environment_layer,
                project_layer,
                team_layer,
            );
            &&& unique_keys(r)
            &&& has_key(r, "PORT"@)
            &&& forall|i: int|
                0 <= i < environment_layer.len() ==> has_key(r, #[trigger] environment_layer[i].0)
            &&& forall|i: int| 0 <= i < project_layer.len() ==> has_key(r, #[trigger] project_layer[i].0)
            &&& forall|i: int| 0 <= i < team_layer.len() ==> has_key(r, #[trigger] team_layer[i].0)
        }),
{
    let e1 = add_absent(app_vars, "PORT"@, decimal(port as nat));
    lemma_add_absent_unique(app_vars, "PORT"@, decimal(port as nat));
    let e2 = add_absent(e1, "RIVETR_ENV"@, environment);
    lemma_add_absent_unique(e1, "RIVETR_ENV"@, environment);
    let e3 = add_absent(e2, "RIVETR_APP_NAME"@, app_name);
    lemma_add_absent_unique(e2, "RIVETR_APP_NAME"@, app_name);
    match primary_domain {
        Some(d) => {
            lemma_add_absent_unique(e3, "RIVETR_URL"@, "https://"@ + d);
        },
        None => {},
    }
    let sys = with_system_vars(app_vars, port, environment, app_name, primary_domain);
    assert(has_key(sys, "PORT"@));
    let m1 = merge_layer(sys, environment_layer);
    let m2 = merge_layer(m1, project_layer);
    law_merge_unique_and_complete(sys, environment_layer);
    law_merge_unique_and_complete(m1, project_layer);
    law_merge_unique_and_complete(m2, team_layer);
    assert forall|i: int| 0 <= i < environment_layer.len() implies has_key(
        merge_layer(m2, team_layer),
        #[trigger] environment_layer[i].0,
    ) by {
        assert(has_key(m1, environment_layer[i].0));
        assert(has_key(m2, environment_layer[i].0));
    }
    assert forall|i: int| 0 <= i < project_layer.len() implies has_key(
        merge_layer(m2, team_layer),
        #[trigger] project_layer[i].0,
    ) by {
        assert(has_key(m2, project_layer[i].0));
    }
}

/// The value of the first variable in `env` with key `k`, if any.
pub open spec fn value_of(env: Seq<(Seq<char>, Seq<char>)>, k: Seq<char>) -> Option<Seq<char>>
    decreases env.len(),
{
    if env.len() == 0 {
        None
    } else if env[0].0 == k {
        Some(env[0].1)
    } else {
        value_of(env.drop_first(), k)
    }
}

/// The first of two optional values that is present.
pub open spec fn or_else(a: Option<Seq<char>>, b: Option<Seq<char>>) -> Option<Seq<char>> {
    match a {
        Some(v) => Some(v),
        None => b,
    }
}

/// A key has a value exactly when some variable has that key.
proof fn lemma_value_of_has_key(env: Seq<(Seq<char>, Seq<char>)>, k: Seq<char>)
    ensures
        value_of(env, k) is Some <==> has_key(env, k),
    decreases env.len(),
{
    if env.len() > 0 {
        lemma_value_of_has_key(env.drop_first(), k);
        if has_key(env, k) && env[0].0 != k {
            let i = choose|i: int| 0 <= i < env.len() && #[trigger] env[i].0 == k;
            assert(env.drop_first()[i - 1].0 == k);
        }
        if has_key(env.drop_first(), k) {
            let i = choose|i: int| 0 <= i < env.drop_first().len() && #[trigger] env.drop_first()[i].0 == k;
            assert(env[i + 1].0 == k);
        }
    }
}

/// Appending a variable changes only the value of a key that had none.
proof fn lemma_value_of_push(env: Seq<(Seq<char>, Seq<char>)>, x: (Seq<char>, Seq<char>), k: Seq<char>)
    ensures
        value_of(env.push(x), k) == or_else(value_of(env, k), if x.0 == k { Some(x.1) } else { None }),
    decreases env.len(),
{
    if env.len() > 0 {
        assert(env.push(x).drop_first() =~= env.drop_first().push(x));
        assert(env.push(x)[0] == env[0]);
        lemma_value_of_push(env.drop_first(), x, k);
    } else {
        let e = env.push(x).drop_first();
        assert(e =~= Seq::<(Seq<char>, Seq<char>)>::empty());
        assert(value_of(e, k) is None);
        assert(env.push(x)[0] == x);
    }
}

/// Adding a variable when absent changes only the value of a key that had
/// none.
proof fn lemma_value_of_add_absent(env: Seq<(Seq<char>, Seq<char>)>, key: Seq<char>, v: Seq<char>, k: Seq<char>)
    ensures
        value_of(add_absent(env, key, v), k) == or_else(value_of(env, k), if key == k { Some(v) } else { None }),
{
    lemma_value_of_has_key(env, key);
    if !has_key(env, key) {
        lemma_value_of_push(env, (key, v), k);
    }
}

/// Merging a layer keeps every value already set and gives each other key
/// the layer's first value for it.
proof fn lemma_value_of_merge(env: Seq<(Seq<char>, Seq<char>)>, layer: Seq<(Seq<char>, Seq<char>)>, k: Seq<char>)
    ensures
        value_of(merge_layer(env, layer), k) == or_else(value_of(env, k), value_of(layer, k)),
    decreases layer.len(),
{
    if layer.len() > 0 {
        let prev = layer.drop_last();
        lemma_value_of_merge(env, prev, k);
        lemma_value_of_add_absent(merge_layer(env, prev), layer.last().0, layer.last().1, k);
        assert(prev.push(layer.last()) =~= layer);
        lemma_value_of_push(prev, layer.last(), k);
    } else {
        assert(value_of(layer, k) is None);
    }
}

/// The value of a system variable `k`, when `k` names one.
pub open spec fn system_value(
    k: Seq<char>,
    port: u64,
    environment: Seq<char>,
    app_name: Seq<char>,
    primary_domain: Option<Seq<char>>,
) -> Option<Seq<char>> {
    if k == "PORT"@ {
        Some(decimal(port as nat))
    } else if k == "RIVETR_ENV"@ {
        Some(environment)
    } else if k == "RIVETR_APP_NAME"@ {
        Some(app_name)
    } else if k == "RIVETR_URL"@ && primary_domain is Some {
        Some("https://"@ + primary_domain->0)
    } else {
        None
    }
}

/// Which value a container gets for each key: the app's own value when it
/// sets the key; else the system value (`PORT`, `RIVETR_ENV`,
/// `RIVETR_APP_NAME`, `RIVETR_URL` with a primary domain); else the
/// environment's shared value; else the project's; else the team's. In
/// particular project variables take precedence over team variables, and
/// environment variables over both; within a layer the first entry for a
/// key counts.
pub proof fn law_layer_precedence(
    app_vars: Seq<(Seq<char>, Seq<char>)>,
    port: u64,
    environment: Seq<char>,
    app_name: Seq<char>,
    primary_domain: Option<Seq<char>>,
    environment_layer: Seq<(Seq<char>, Seq<char>)>,
    project_layer: Seq<(Seq<char>, Seq<char>)>,
    team_layer: Seq<(Seq<char>, Seq<char>)>,
    k: Seq<char>,
)
    ensures
        value_of(
            spec_collect_env_vars(
                app_vars,
                port,
                environment,
                app_name,
                primary_domain,
                environment_layer,
                project_layer,
                team_layer,
            ),
            k,
        ) == or_else(
            value_of(app_vars, k),
            or_else(
                system_value(k, port, environment, app_name, primary_domain),
                or_else(
                    value_of(environment_layer, k),
                    or_else(value_of(project_layer, k), value_of(team_layer, k)),
                ),
            ),
        ),
{
    reveal_strlit("PORT");
    reveal_strlit("RIVETR_ENV");
    reveal_strlit("RIVETR_APP_NAME");
    reveal_strlit("RIVETR_URL");
    let e1 = add_absent(app_vars, "PORT"@, decimal(port as nat));
    let e2 = add_absent(e1, "RIVETR_ENV"@, environment);
    let e3 = add_absent(e2, "RIVETR_APP_NAME"@, app_name);
    lemma_value_of_add_absent(app_vars, "PORT"@, decimal(port as nat), k);
    lemma_value_of_add_absent(e1, "RIVETR_ENV"@, environment, k);
    lemma_value_of_add_absent(e2, "RIVETR_APP_NAME"@, app_name, k);
    match primary_domain {
        Some(d) => {
            lemma_value_of_add_absent(e3, "RIVETR_URL"@, "https://"@ + d, k);
        },
        None => {},
    }
    let sys = with_system_vars(app_vars, port, environment, app_name, primary_domain);
    let m1 = merge_layer(sys, environment_layer);
    let m2 = merge_layer(m1, project_layer);
    lemma_value_of_merge(sys, environment_layer, k);
    lemma_value_of_merge(m1, project_layer, k);
    lemma_value_of_merge(m2, team_layer, k);
}

/// A key that only the project and team layers set gets the project's
/// value, whatever the team layer holds for it.
pub proof fn law_project_over_team(
    app_vars: Seq<(Seq<char>, Seq<char>)>,
    port: u64,
    environment: Seq<char>,
    app_name: Seq<char>,
    primary_domain: Option<Seq<char>>,
    environment_layer: Seq<(Seq<char>, Seq<char>)>,
    project_layer: Seq<(Seq<char>, Seq<char>)>,
    team_layer: Seq<(Seq<char>, Seq<char>)>,
    k: Seq<char>,
)
    requires
        !has_key(app_vars, k),
        system_value(k, port, environment, app_name, primary_domain) is None,
        !has_key(environment_layer, k),
        has_key(project_layer, k),
    ensures
        value_of(
            spec_collect_env_vars(
                app_vars,
                port,
                environment,
                app_name,
                primary_domain,
                environment_layer,
                project_layer,
                team_layer,
            ),
            k,
        ) == value_of(project_layer, k),
        value_of(project_layer, k) is Some,
{
    law_layer_precedence(
        app_vars,
        port,
        environment,
        app_name,
        primary_domain,
        environment_layer,
        project_layer,
        team_layer,
        k,
    );
    lemma_value_of_has_key(app_vars, k);
    lemma_value_of_has_key(environment_layer, k);
    lemma_value_of_has_key(project_layer, k);
}

// ---------------------------------------------------------------------------
// Creating and changing variables
// ---------------------------------------------------------------------------

/// Refuses a new variable whose key is not a valid name (status 400).
pub fn check_new_key(key: &str) -> (r: Result<(), u16>)
    ensures
        r is Ok <==> spec_valid_env_key(key@),
        r is Err ==> r == Err::<(), u16>(400),
{
    if key.is_empty() || !is_valid_env_key(key) {
        Err(400)
    } else {
        Ok(())
    }
}

/// The status a failed write of a variable is answered with: a duplicate
/// key conflicts (409), anything else is an internal error (500).
pub fn write_failure_status(db_message: &str) -> (r: u16)
    ensures
        r == if crate::text::contains_seq(db_message@, "UNIQUE constraint failed"@) {
            409u16
        } else {
            500u16
        },
{
    let m = crate::text::chars_of(db_message);
    let p = crate::text::chars_of("UNIQUE constraint failed");
    if crate::text::contains_str(m.as_slice(), p.as_slice()) {
        409
    } else {
        500
    }
}

/// Request body for changing a variable: absent fields are kept.
pub struct UpdateEnvVarRequest {
    pub value: Option<String>,
    pub is_secret: Option<bool>,
}

/// The plain value and secrecy a variable has after a change.
pub fn updated_env_var(existing_value: String, existing_is_secret: i64, req: UpdateEnvVarRequest) -> (r: (
    String,
    i64,
))
    ensures
        r.0 == match req.value {
            Some(v) => v,
            None => existing_value,
        },
        r.1 == match req.is_secret {
            Some(b) => if b {
                1i64
            } else {
                0i64
            },
            None => existing_is_secret,
        },
{
    let value = match req.value {
        Some(v) => v,
        None => existing_value,
    };
    let is_secret: i64 = match req.is_secret {
        Some(b) => if b {
            1
        } else {
            0
        },
        None => existing_is_secret,
    };
    (value, is_secret)
}

} // verus!
