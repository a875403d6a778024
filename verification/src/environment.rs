//! The environment of the nested build. It is put together from the
//! variables of the calling process, passed through a policy, and the
//! caller's own entries, which come last and so always win.

use vstd::prelude::*;
use vstd::string::*;
use crate::text::starts_with;

verus! {

/// Which variables of the calling process the nested build may see.
#[derive(Debug)]
pub enum EnvPolicy {
    /// Only the variables with these names; everything else is cleared.
    Keep(Vec<String>),
    /// Every variable but those whose name begins with one of these prefixes.
    Drop(Vec<String>),
}

/// An `EnvPolicy` with its texts as sequences of characters.
pub enum EnvPolicyView {
    Keep(Seq<Seq<char>>),
    Drop(Seq<Seq<char>>),
}

impl View for EnvPolicy {
    type V = EnvPolicyView;

    open spec fn view(&self) -> EnvPolicyView {
        match self {
            EnvPolicy::Keep(names) => EnvPolicyView::Keep(names.deep_view()),
            EnvPolicy::Drop(prefixes) => EnvPolicyView::Drop(prefixes.deep_view()),
        }
    }
}

/// A list of variables: names with their values.
pub type Vars = Seq<(Seq<char>, Seq<char>)>;

/// The names that a process needs to run at all: terminal type, time zone,
/// locale and executable search path.
pub open spec fn essential_names() -> Seq<Seq<char>> {
    seq!["TERM"@, "TZ"@, "LANG"@, "PATH"@]
}

/// The prefixes of the names by which the outer build hands its flags and
/// its compiler wrapper to the toolchain.
pub open spec fn outer_build_prefixes() -> Seq<Seq<char>> {
    seq!["RUSTFLAGS"@, "CARGO_ENCODED_RUSTFLAGS"@, "RUSTC_WORKSPACE_WRAPPER"@]
}

/// `name` begins with one of `prefixes`.
pub open spec fn has_prefix_in(prefixes: Seq<Seq<char>>, name: Seq<char>) -> bool {
    exists|i: int| 0 <= i < prefixes.len() && (#[trigger] prefixes[i]).is_prefix_of(name)
}

/// The policy lets a variable of the calling process with this name through.
pub open spec fn admits(policy: EnvPolicyView, name: Seq<char>) -> bool {
    match policy {
        EnvPolicyView::Keep(names) => names.contains(name),
        EnvPolicyView::Drop(prefixes) => !has_prefix_in(prefixes, name),
    }
}

/// The variables of `vars` that the policy lets through, in their order.
pub open spec fn sanitized(vars: Vars, policy: EnvPolicyView) -> Vars {
    vars.filter(|v: (Seq<char>, Seq<char>)| admits(policy, v.0))
}

/// The environment of the nested build: what the policy lets through of the
/// calling process's variables, then the caller's own entries.
pub open spec fn nested_environment(vars: Vars, policy: EnvPolicyView, extra: Vars) -> Vars {
    sanitized(vars, policy) + extra
}

/// The value that `name` has once the entries of `env` are set one after the
/// other: that of the last entry with this name.
pub open spec fn value_of(env: Vars, name: Seq<char>) -> Option<Seq<char>>
    decreases env.len(),
{
    if env.len() == 0 {
        None
    } else if env.last().0 == name {
        Some(env.last().1)
    } else {
        value_of(env.drop_last(), name)
    }
}

/// A copy of a list of texts.
pub fn copy_texts(texts: &Vec<String>) -> (r: Vec<String>)
    ensures
        r@ == texts@,
{
    let mut r: Vec<String> = Vec::new();
    let mut i: usize = 0;
    while i < texts.len()
        invariant
            i <= texts.len(),
            r@ == texts@.take(i as int),
        decreases texts.len() - i,
    {
        r.push(texts[i].clone());
        i += 1;
    }
    r
}

impl Clone for EnvPolicy {
    fn clone(&self) -> (r: EnvPolicy)
        ensures
            r@ == self@,
    {
        match self {
            EnvPolicy::Keep(names) => EnvPolicy::Keep(copy_texts(names)),
            EnvPolicy::Drop(prefixes) => EnvPolicy::Drop(copy_texts(prefixes)),
        }
    }
}

impl Default for EnvPolicy {
    /// The policy that hides the outer build.
    fn default() -> (r: EnvPolicy)
        ensures
            r@ == EnvPolicyView::Drop(outer_build_prefixes()),
    {
        EnvPolicy::outer_build()
    }
}

impl EnvPolicy {
    /// The policy that clears everything but what a process needs to run.
    pub fn essentials() -> (r: EnvPolicy)
        ensures
            r@ == EnvPolicyView::Keep(essential_names()),
    {
        let mut names: Vec<String> = Vec::new();
        names.push(String::from_str("TERM"));
        names.push(String::from_str("TZ"));
        names.push(String::from_str("LANG"));
        names.push(String::from_str("PATH"));
        assert(names.deep_view() =~= essential_names());
        EnvPolicy::Keep(names)
    }

    /// The policy that passes everything on but the variables of the outer build.
    pub fn outer_build() -> (r: EnvPolicy)
        ensures
            r@ == EnvPolicyView::Drop(outer_build_prefixes()),
    {
        let mut prefixes: Vec<String> = Vec::new();
        prefixes.push(String::from_str("RUSTFLAGS"));
        prefixes.push(String::from_str("CARGO_ENCODED_RUSTFLAGS"));
        prefixes.push(String::from_str("RUSTC_WORKSPACE_WRAPPER"));
        assert(prefixes.deep_view() =~= outer_build_prefixes());
        EnvPolicy::Drop(prefixes)
    }

    /// Tells whether a variable of the calling process with this name is let through.
    pub fn lets_through(&self, name: &str) -> (r: bool)
        ensures
            r == admits(self@, name@),
    {
        match self {
            EnvPolicy::Keep(names) => {
                let ghost views = names.deep_view();
                let wanted = String::from_str(name);
                let mut i: usize = 0;
                while i < names.len()
                    invariant
                        i <= names.len(),
                        views == names.deep_view(),
                        self@ == EnvPolicyView::Keep(views),
                        wanted@ == name@,
                        forall|j: int| 0 <= j < i ==> views[j] != name@,
                    decreases names.len() - i,
                {
                    assert(views[i as int] == names@[i as int]@);
                    if names[i] == wanted {
                        return true;
                    }
                    i += 1;
                }
                false
            },
            EnvPolicy::Drop(prefixes) => {
                let ghost views = prefixes.deep_view();
                let mut i: usize = 0;
                while i < prefixes.len()
                    invariant
                        i <= prefixes.len(),
                        views == prefixes.deep_view(),
                        self@ == EnvPolicyView::Drop(views),
                        forall|j: int| 0 <= j < i ==> !(#[trigger] views[j]).is_prefix_of(name@),
                    decreases prefixes.len() - i,
                {
                    assert(views[i as int] == prefixes@[i as int]@);
                    if starts_with(name, prefixes[i].as_str()) {
                        return false;
                    }
                    i += 1;
                }
                true
            },
        }
    }
}

/// Puts together the environment of the nested build.
pub fn nested_env(
    vars: &Vec<(String, String)>,
    policy: &EnvPolicy,
    extra: &Vec<(String, String)>,
) -> (r: Vec<(String, String)>)
    ensures
        r.deep_view() == nested_environment(vars.deep_view(), policy@, extra.deep_view()),
{
    let ghost all = vars.deep_view();
    let ghost keep = |v: (Seq<char>, Seq<char>)| admits(policy@, v.0);
    let mut r: Vec<(String, String)> = Vec::new();
    let mut i: usize = 0;
    while i < vars.len()
        invariant
            i <= vars.len(),
            all == vars.deep_view(),
            keep == |v: (Seq<char>, Seq<char>)| admits(policy@, v.0),
            r.deep_view() == all.take(i as int).filter(keep),
        decreases vars.len() - i,
    {
        assert(all.take(i + 1).drop_last() =~= all.take(i as int));
        reveal(Seq::filter);
        if policy.lets_through(vars[i].0.as_str()) {
            r.push((vars[i].0.clone(), vars[i].1.clone()));
        }
        i += 1;
    }
    assert(all.take(vars.len() as int) =~= all);
    let ghost kept = r.deep_view();
    let mut k: usize = 0;
    while k < extra.len()
        invariant
            k <= extra.len(),
            r.deep_view() == kept + extra.deep_view().take(k as int),
        decreases extra.len() - k,
    {
        let ghost before = r.deep_view();
        r.push((extra[k].0.clone(), extra[k].1.clone()));
        assert(r.deep_view() =~= before.push(extra.deep_view()[k as int]));
        k += 1;
    }
    r
}

/// A name has a value exactly where some entry bears it.
pub proof fn lemma_value_of_present(env: Vars, name: Seq<char>)
    ensures
        value_of(env, name) is Some <==> exists|i: int|
            0 <= i < env.len() && (#[trigger] env[i]).0 == name,
    decreases env.len(),
{
    if env.len() > 0 {
        let rest = env.drop_last();
        lemma_value_of_present(rest, name);
        if env.last().0 != name && value_of(rest, name) is None {
            assert forall|i: int| 0 <= i < env.len() implies (#[trigger] env[i]).0 != name by {
                if i < rest.len() {
                    assert(rest[i] == env[i]);
                }
            }
        }
    }
}

/// Of two lists set one after the other, the second decides every name that it holds.
pub proof fn lemma_value_of_concat(first: Vars, second: Vars, name: Seq<char>)
    ensures
        value_of(first + second, name) == match value_of(second, name) {
            Some(v) => Some(v),
            None => value_of(first, name),
        },
    decreases second.len(),
{
    if second.len() > 0 {
        assert((first + second).drop_last() =~= first + second.drop_last());
        lemma_value_of_concat(first, second.drop_last(), name);
    }
}

/// What the policy lets through keeps its value; what it stops has none.
pub proof fn lemma_value_of_sanitized(vars: Vars, policy: EnvPolicyView, name: Seq<char>)
    ensures
        value_of(sanitized(vars, policy), name) == if admits(policy, name) {
            value_of(vars, name)
        } else {
            None
        },
    decreases vars.len(),
{
    reveal(Seq::filter);
    let keep = |v: (Seq<char>, Seq<char>)| admits(policy, v.0);
    if vars.len() > 0 {
        let rest = vars.drop_last();
        lemma_value_of_sanitized(rest, policy, name);
        if keep(vars.last()) {
            assert(rest.filter(keep).push(vars.last()).drop_last() =~= rest.filter(keep));
        }
    }
}

/// Every entry of the nested build's environment whose name the policy stops
/// is one of the caller's own entries: none of them comes from the calling
/// process, whatever the calling process holds. And every entry of the
/// caller is there, after all others.
pub proof fn lemma_stopped_names_are_the_callers(
    vars: Vars,
    policy: EnvPolicyView,
    extra: Vars,
    i: int,
)
    requires
        0 <= i < nested_environment(vars, policy, extra).len(),
    ensures
        nested_environment(vars, policy, extra).len() == sanitized(vars, policy).len()
            + extra.len(),
        i >= sanitized(vars, policy).len() ==> nested_environment(vars, policy, extra)[i]
            == extra[i - sanitized(vars, policy).len()],
        !admits(policy, nested_environment(vars, policy, extra)[i].0) ==> i >= sanitized(
            vars,
            policy,
        ).len(),
{
    let keep = |v: (Seq<char>, Seq<char>)| admits(policy, v.0);
    if i < sanitized(vars, policy).len() {
        vars.lemma_filter_pred(keep, i);
    }
}

/// The nested build never sees a variable of the calling process that the
/// policy stops, whatever the calling process holds; and an entry that the
/// caller supplies is always there with the caller's value, whether or not
/// the policy would stop its name. A name that the caller leaves alone and
/// the policy lets through keeps the value of the calling process.
pub proof fn lemma_nested_environment(
    vars: Vars,
    policy: EnvPolicyView,
    extra: Vars,
    name: Seq<char>,
)
    ensures
        !admits(policy, name) && value_of(extra, name) is None ==> value_of(
            nested_environment(vars, policy, extra),
            name,
        ) is None,
        value_of(extra, name) is Some ==> value_of(nested_environment(vars, policy, extra), name)
            == value_of(extra, name),
        admits(policy, name) && value_of(extra, name) is None ==> value_of(
            nested_environment(vars, policy, extra),
            name,
        ) == value_of(vars, name),
{
    lemma_value_of_concat(sanitized(vars, policy), extra, name);
    lemma_value_of_sanitized(vars, policy, name);
}

} // verus!
