//! The environment variable composer: merges the inherited process
//! environment, a path-injection variable that makes the script's directory
//! importable, an optional dotenv-style file, and explicit `KEY=VALUE`
//! overrides from the command line. Later sources win on a key collision.

use vstd::prelude::*;
use crate::envset::{insert_all_spec, pair_views, EnvVarSet};
use crate::strutil::{contains_at, contains_seq, contains_sub, find_char, has_char, string_views};

verus! {

/// The name of the path-list variable the script's directory is injected
/// into.
pub open spec fn pythonpath_key() -> Seq<char> {
    "PYTHONPATH"@
}

/// The value of an optional variable, the empty text when it is unset.
pub open spec fn opt_view(o: Option<String>) -> Seq<char> {
    match o {
        Some(s) => s@,
        None => Seq::empty(),
    }
}

/// A path-list value after injecting `dir`: unchanged when `dir` already
/// occurs in it, `dir` alone when it was empty, and otherwise the old value
/// with `':'` and `dir` appended.
pub open spec fn inject_path_spec(path: Seq<char>, dir: Seq<char>) -> Seq<char> {
    if contains_seq(path, dir) {
        path
    } else if path.len() == 0 {
        dir
    } else {
        path + seq![':'] + dir
    }
}

/// The injected directory always occurs in the injected value, so injecting
/// the same directory twice changes nothing the second time.
pub proof fn lemma_path_injection_idempotent(path: Seq<char>, dir: Seq<char>)
    ensures
        inject_path_spec(inject_path_spec(path, dir), dir) == inject_path_spec(path, dir),
{
    let r = inject_path_spec(path, dir);
    if contains_seq(path, dir) {
    } else if path.len() == 0 {
        assert(r.subrange(0, r.len() as int) =~= dir);
        assert(contains_at(r, dir, 0));
    } else {
        let k = path.len() as int + 1;
        assert(r.subrange(k, k + dir.len() as int) =~= dir);
        assert(contains_at(r, dir, k));
    }
}

/// The position of the first occurrence of `c` in `s`.
pub open spec fn first_index_of(s: Seq<char>, c: char) -> int
    decreases s.len(),
{
    if s.len() == 0 {
        0
    } else if s[0] == c {
        0
    } else {
        1 + first_index_of(s.subrange(1, s.len() as int), c)
    }
}

proof fn lemma_first_index_unique(s: Seq<char>, c: char, i: int)
    requires
        0 <= i < s.len(),
        s[i] == c,
        forall|j: int| 0 <= j < i ==> s[j] != c,
    ensures
        first_index_of(s, c) == i,
    decreases i,
{
    if i > 0 {
        let t = s.subrange(1, s.len() as int);
        lemma_first_index_unique(t, c, i - 1);
    }
}

/// Everything before the first `=` of an override string.
pub open spec fn override_key(s: Seq<char>) -> Seq<char> {
    s.subrange(0, first_index_of(s, '='))
}

/// Everything after the first `=` of an override string, embedded `=`
/// characters included.
pub open spec fn override_value(s: Seq<char>) -> Seq<char> {
    s.subrange(first_index_of(s, '=') + 1, s.len() as int)
}

/// Splits an override string on its first `=`: the key is everything before
/// it and the value everything after. A string without `=` yields nothing.
pub fn parse_override(s: &String) -> (r: Option<(String, String)>)
    ensures
        match r {
            Some(kv) => has_char(s@, '=') && kv.0@ == override_key(s@) && kv.1@
                == override_value(s@),
            None => !has_char(s@, '='),
        },
{
    let found = find_char(s.as_str(), '=');
    match found {
        Some(i) => {
            proof {
                lemma_first_index_unique(s@, '=', i as int);
            }
            let len = s.as_str().unicode_len();
            let key = s.as_str().substring_char(0, i).to_owned();
            let value = s.as_str().substring_char(i + 1, len).to_owned();
            Some((key, value))
        },
        None => None,
    }
}

/// What one override string does to the composed mapping: a string with `=`
/// binds its key to its value, one without changes nothing.
pub open spec fn apply_override_spec(
    m: Map<Seq<char>, Seq<char>>,
    s: Seq<char>,
) -> Map<Seq<char>, Seq<char>> {
    if has_char(s, '=') {
        m.insert(override_key(s), override_value(s))
    } else {
        m
    }
}

/// An override string with at least one `=` binds everything before the
/// first `=` to everything after it; one without an `=` leaves the composed
/// mapping exactly as it was.
pub proof fn lemma_override_split(m: Map<Seq<char>, Seq<char>>, s: Seq<char>)
    ensures
        has_char(s, '=') ==> apply_override_spec(m, s) == m.insert(
            override_key(s),
            override_value(s),
        ),
        !has_char(s, '=') ==> apply_override_spec(m, s) == m,
{
}

/// The mapping after applying a sequence of override strings in order.
pub open spec fn apply_overrides_spec(
    m: Map<Seq<char>, Seq<char>>,
    ovs: Seq<Seq<char>>,
) -> Map<Seq<char>, Seq<char>>
    decreases ovs.len(),
{
    if ovs.len() == 0 {
        m
    } else {
        apply_override_spec(apply_overrides_spec(m, ovs.drop_last()), ovs.last())
    }
}

/// The override strings that are dropped: those without an `=`, in order.
pub open spec fn rejected_overrides_spec(ovs: Seq<Seq<char>>) -> Seq<Seq<char>>
    decreases ovs.len(),
{
    if ovs.len() == 0 {
        Seq::empty()
    } else {
        let front = rejected_overrides_spec(ovs.drop_last());
        if has_char(ovs.last(), '=') {
            front
        } else {
            front.push(ovs.last())
        }
    }
}

/// The key/value pairs of the accepted override strings, in order.
pub open spec fn accepted_overrides_spec(ovs: Seq<Seq<char>>) -> Seq<(Seq<char>, Seq<char>)>
    decreases ovs.len(),
{
    if ovs.len() == 0 {
        Seq::empty()
    } else {
        let front = accepted_overrides_spec(ovs.drop_last());
        if has_char(ovs.last(), '=') {
            front.push((override_key(ovs.last()), override_value(ovs.last())))
        } else {
            front
        }
    }
}

/// The result of applying command-line overrides: the updated set, the
/// accepted pairs in order (reported as they are applied), and the dropped
/// strings in order (each warned about).
pub struct OverrideOutcome {
    pub accepted: Vec<(String, String)>,
    pub rejected: Vec<String>,
}

/// Applies each override string in order: a `KEY=VALUE` string binds `KEY`,
/// overriding earlier sources; a string without `=` is dropped, never
/// inserted.
pub fn apply_overrides(set: &mut EnvVarSet, overrides: &Vec<String>) -> (r: OverrideOutcome)
    requires
        old(set).wf(),
    ensures
        final(set).wf(),
        final(set).map_view() == apply_overrides_spec(
            old(set).map_view(),
            string_views(overrides@),
        ),
        pair_views(r.accepted@) == accepted_overrides_spec(string_views(overrides@)),
        string_views(r.rejected@) == rejected_overrides_spec(string_views(overrides@)),
{
    let ghost m0 = set.map_view();
    let ghost ovs = string_views(overrides@);
    let mut accepted: Vec<(String, String)> = Vec::new();
    let mut rejected: Vec<String> = Vec::new();
    let mut i: usize = 0;
    while i < overrides.len()
        invariant
            set.wf(),
            i <= overrides@.len(),
            ovs == string_views(overrides@),
            set.map_view() == apply_overrides_spec(m0, ovs.take(i as int)),
            pair_views(accepted@) == accepted_overrides_spec(ovs.take(i as int)),
            string_views(rejected@) == rejected_overrides_spec(ovs.take(i as int)),
        decreases overrides@.len() - i,
    {
        let s = &overrides[i];
        let parsed = parse_override(s);
        match parsed {
            Some((k, v)) => {
                accepted.push((k.clone(), v.clone()));
                set.insert(k, v);
            },
            None => {
                rejected.push(s.clone());
            },
        }
        proof {
            assert(ovs.take(i + 1).drop_last() =~= ovs.take(i as int));
            assert(ovs.take(i + 1).last() == ovs[i as int]);
            assert(pair_views(accepted@) =~= accepted_overrides_spec(ovs.take(i + 1)));
            assert(string_views(rejected@) =~= rejected_overrides_spec(ovs.take(i + 1)));
        }
        i = i + 1;
    }
    proof {
        assert(ovs.take(ovs.len() as int) =~= ovs);
    }
    OverrideOutcome { accepted, rejected }
}

/// The new value of the path-list variable after injecting the script's
/// directory, from the directory and the variable's current value. The
/// directory is appended with the path-list separator only when it does not
/// already occur in the value, so repeated runs do not grow it.
pub fn append_pwd_to_pythonpath(runtime_path: &String, current: &Option<String>) -> (r: String)
    ensures
        r@ == inject_path_spec(opt_view(*current), runtime_path@),
{
    let cur: String = match current {
        Some(s) => s.clone(),
        None => String::new(),
    };
    if contains_sub(cur.as_str(), runtime_path.as_str()) {
        cur
    } else if cur.as_str().unicode_len() == 0 {
        runtime_path.clone()
    } else {
        proof {
            reveal_strlit(":");
            assert(":"@ =~= seq![':']);
        }
        let mut r = cur;
        r.append(":");
        r.append(runtime_path.as_str());
        r
    }
}

/// Builds the additional environment handed to the child on top of the
/// inherited one: the path-list variable with the project directory
/// injected (from the variable's inherited value), then the command-line
/// overrides applied in order.
pub fn set_additional_env_var(
    additional_env_from_args: &Vec<String>,
    runtime_path: &String,
    current_pythonpath: &Option<String>,
) -> (r: (EnvVarSet, OverrideOutcome))
    ensures
        r.0.wf(),
        r.0.map_view() == apply_overrides_spec(
            Map::empty().insert(
                pythonpath_key(),
                inject_path_spec(opt_view(*current_pythonpath), runtime_path@),
            ),
            string_views(additional_env_from_args@),
        ),
        pair_views(r.1.accepted@) == accepted_overrides_spec(
            string_views(additional_env_from_args@),
        ),
        string_views(r.1.rejected@) == rejected_overrides_spec(
            string_views(additional_env_from_args@),
        ),
{
    let mut set = EnvVarSet::new();
    let injected = append_pwd_to_pythonpath(runtime_path, current_pythonpath);
    set.insert(pythonpath_string(), injected);
    let overrides_outcome = apply_overrides(&mut set, additional_env_from_args);
    (set, overrides_outcome)
}

/// What the whole composition denotes: the inherited environment, then the
/// path injection (reading the inherited value of the path-list variable),
/// then the dotenv pairs, then the overrides, later sources winning.
pub open spec fn compose_spec(
    inherited: Seq<(Seq<char>, Seq<char>)>,
    script_dir: Seq<char>,
    dotenv: Seq<(Seq<char>, Seq<char>)>,
    overrides: Seq<Seq<char>>,
) -> Map<Seq<char>, Seq<char>> {
    let m1 = insert_all_spec(Map::empty(), inherited);
    let cur = if m1.dom().contains(pythonpath_key()) {
        m1[pythonpath_key()]
    } else {
        Seq::empty()
    };
    let m2 = m1.insert(pythonpath_key(), inject_path_spec(cur, script_dir));
    let m3 = insert_all_spec(m2, dotenv);
    apply_overrides_spec(m3, overrides)
}

/// A fully composed environment, with the override report.
pub struct ComposeOutcome {
    pub set: EnvVarSet,
    pub overrides: OverrideOutcome,
}

/// Composes the child process environment from its four layered sources, in
/// order of application: the inherited environment, the path injection, the
/// dotenv pairs (absent when no dotenv file exists, which is not an error),
/// and the command-line overrides.
pub fn compose(
    inherited: &Vec<(String, String)>,
    script_dir: &String,
    dotenv_pairs: Option<&Vec<(String, String)>>,
    overrides: &Vec<String>,
) -> (r: ComposeOutcome)
    ensures
        r.set.wf(),
        r.set.map_view() == compose_spec(
            pair_views(inherited@),
            script_dir@,
            match dotenv_pairs {
                Some(d) => pair_views(d@),
                None => Seq::empty(),
            },
            string_views(overrides@),
        ),
        pair_views(r.overrides.accepted@) == accepted_overrides_spec(string_views(overrides@)),
        string_views(r.overrides.rejected@) == rejected_overrides_spec(string_views(overrides@)),
{
    let mut set = EnvVarSet::new();
    set.insert_all(inherited);
    let pp = pythonpath_string();
    let cur: Option<String> = match set.get(&pp) {
        Some(v) => Some(v.clone()),
        None => None,
    };
    let injected = append_pwd_to_pythonpath(script_dir, &cur);
    set.insert(pp, injected);
    match dotenv_pairs {
        Some(d) => {
            set.insert_all(d);
        },
        None => {
            proof {
                assert(insert_all_spec(set.map_view(), Seq::empty()) == set.map_view());
            }
        },
    }
    let overrides_outcome = apply_overrides(&mut set, overrides);
    ComposeOutcome { set, overrides: overrides_outcome }
}

/// The path-list variable's name as a string.
pub fn pythonpath_string() -> (r: String)
    ensures
        r@ == pythonpath_key(),
{
    String::from_str("PYTHONPATH")
}

} // verus!
