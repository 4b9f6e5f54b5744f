//! The inventory at run time: hosts, groups and defaults, the resolution of a
//! host through its groups, and the caches and per-run state kept beside them.
use vstd::prelude::*;
use crate::state::{in_scope, HostStatus, State, StateView};
use crate::text::str_eq;
use crate::types::{
    lemma_index_of, lemma_insert_lookup, seq_index_of, seq_insert, seq_lookup, CustomTreeMap, NatString,
    PairMap,
};
use super::merge::{
    or_else, merge_defaults_into_host, merge_group_into_group, merge_group_into_host,
    merge_host_into_host, overlay, overlay_with_groups,
};
use super::models::{
    empty_node, names_view, resolve_params_spec, Defaults, Group, Groups, Host, Hosts, NodeView,
    ParamsView, ResolvedConnectionParams,
};
use super::transform::{NoTransform, Transform, TransformFunction, TransformFunctionOptions};

verus! {

/// What resolving one group gives back: the group (if it resolved) and the
/// stack of groups being resolved and the memo of resolved groups afterwards.
pub struct GroupStep {
    pub result: Option<NodeView>,
    pub stack: Seq<Seq<char>>,
    pub memo: Seq<(Seq<char>, NodeView)>,
}

/// A fold over parent groups: the node built so far, the stack and the memo.
pub struct Walk {
    pub acc: NodeView,
    pub stack: Seq<Seq<char>>,
    pub memo: Seq<(Seq<char>, NodeView)>,
}

/// The parent group names of a node (none when unset).
pub open spec fn parent_names(n: NodeView) -> Seq<Seq<char>> {
    match n.groups {
        Some(p) => p,
        None => Seq::empty(),
    }
}

/// The number of group entries whose name is not on `stack`.
pub open spec fn unvisited(gs: Seq<(Seq<char>, NodeView)>, stack: Seq<Seq<char>>) -> nat
    decreases gs.len(),
{
    if gs.len() == 0 {
        0
    } else {
        unvisited(gs.drop_last(), stack) + (if stack.contains(gs.last().0) {
            0nat
        } else {
            1nat
        })
    }
}

/// Every name on `a` is on `b`.
pub open spec fn grows(a: Seq<Seq<char>>, b: Seq<Seq<char>>) -> bool {
    forall|x: Seq<char>| a.contains(x) ==> #[trigger] b.contains(x)
}

/// A longer stack leaves no more groups unvisited.
pub proof fn lemma_unvisited_mono(gs: Seq<(Seq<char>, NodeView)>, a: Seq<Seq<char>>, b: Seq<Seq<char>>)
    requires
        grows(a, b),
    ensures
        unvisited(gs, b) <= unvisited(gs, a),
    decreases gs.len(),
{
    if gs.len() > 0 {
        lemma_unvisited_mono(gs.drop_last(), a, b);
    }
}

/// Putting a group's own name on the stack leaves strictly fewer groups unvisited.
pub proof fn lemma_unvisited_strict(
    gs: Seq<(Seq<char>, NodeView)>,
    a: Seq<Seq<char>>,
    b: Seq<Seq<char>>,
    name: Seq<char>,
    i: int,
)
    requires
        grows(a, b),
        !a.contains(name),
        b.contains(name),
        0 <= i < gs.len(),
        gs[i].0 == name,
    ensures
        unvisited(gs, b) < unvisited(gs, a),
    decreases gs.len(),
{
    if i == gs.len() - 1 {
        lemma_unvisited_mono(gs.drop_last(), a, b);
    } else {
        assert(gs.drop_last()[i] == gs[i]);
        lemma_unvisited_strict(gs.drop_last(), a, b, name, i);
    }
}

/// Pushing a name keeps every name already on the stack.
pub proof fn lemma_push_grows(a: Seq<Seq<char>>, name: Seq<char>)
    ensures
        grows(a, a.push(name)),
        a.push(name).contains(name),
{
    assert forall|x: Seq<char>| a.contains(x) implies #[trigger] a.push(name).contains(x) by {
        let k = choose|k: int| 0 <= k < a.len() && a[k] == x;
        assert(a.push(name)[k] == x);
    }
    assert(a.push(name)[a.len() as int] == name);
}

/// Removing `name` keeps every other name on the stack.
pub proof fn lemma_remove_value_keeps(s: Seq<Seq<char>>, name: Seq<char>, x: Seq<char>)
    requires
        s.contains(x),
        x != name,
    ensures
        s.remove_value(name).contains(x),
{
    s.index_of_first_ensures(name);
    let k = choose|k: int| 0 <= k < s.len() && s[k] == x;
    match s.index_of_first(name) {
        Some(i) => {
            s.remove_ensures(i);
            if k < i {
                assert(s.remove(i)[k] == x);
            } else {
                assert(s.remove(i)[k - 1] == x);
            }
        },
        None => {},
    }
}

/// Resolves group `name` over the groups `gs`: a memoized group is returned as
/// it was; a group already on the stack (a cycle) or unknown gives nothing;
/// otherwise its parents are resolved and merged in order, then the group
/// itself, and the result is memoized.
pub open spec fn resolve_group_spec(
    gs: Seq<(Seq<char>, NodeView)>,
    name: Seq<char>,
    stack: Seq<Seq<char>>,
    memo: Seq<(Seq<char>, NodeView)>,
) -> GroupStep
    decreases unvisited(gs, stack), 0nat,
{
    match seq_lookup(memo, name) {
        Some(cached) => GroupStep { result: Some(cached), stack, memo },
        None => {
            if stack.contains(name) {
                GroupStep { result: None, stack, memo }
            } else {
                let inner = stack.push(name);
                match seq_lookup(gs, name) {
                    None => GroupStep { result: None, stack: inner, memo },
                    Some(g) => {
                        proof {
                            lemma_index_of(gs, name);
                            lemma_push_grows(stack, name);
                            let i = seq_index_of(gs, name).unwrap();
                            lemma_unvisited_strict(gs, stack, inner, name, i);
                        }
                        let parents = parent_names(g);
                        let w = fold_parents_spec(
                            gs,
                            parents,
                            parents.len(),
                            unvisited(gs, inner),
                            inner,
                            memo,
                        );
                        let r = overlay_with_groups(w.acc, g);
                        GroupStep {
                            result: Some(r),
                            stack: w.stack.remove_value(name),
                            memo: seq_insert(w.memo, name, r),
                        }
                    },
                }
            }
        },
    }
}

/// The first `k` parents resolved in order and merged into an empty group,
/// starting from `stack` and `memo`. A walk whose stack would leave more than
/// `bound` groups unvisited stops where it is (resolution never does that).
pub open spec fn fold_parents_spec(
    gs: Seq<(Seq<char>, NodeView)>,
    parents: Seq<Seq<char>>,
    k: nat,
    bound: nat,
    stack: Seq<Seq<char>>,
    memo: Seq<(Seq<char>, NodeView)>,
) -> Walk
    decreases bound, k,
{
    if k == 0 || k > parents.len() {
        Walk { acc: empty_node(), stack, memo }
    } else {
        let prev = fold_parents_spec(gs, parents, (k - 1) as nat, bound, stack, memo);
        if unvisited(gs, prev.stack) > bound {
            prev
        } else {
            let step = resolve_group_spec(gs, parents[k - 1], prev.stack, prev.memo);
            Walk {
                acc: match step.result {
                    Some(p) => overlay_with_groups(prev.acc, p),
                    None => prev.acc,
                },
                stack: step.stack,
                memo: step.memo,
            }
        }
    }
}

/// The first `k` groups of a host resolved in order (with a shared stack and
/// memo, both empty at first) and merged over `base`.
pub open spec fn fold_host_groups_spec(
    gs: Seq<(Seq<char>, NodeView)>,
    parents: Seq<Seq<char>>,
    k: nat,
    base: NodeView,
) -> Walk
    decreases k,
{
    if k == 0 || k > parents.len() {
        Walk { acc: base, stack: Seq::empty(), memo: Seq::empty() }
    } else {
        let prev = fold_host_groups_spec(gs, parents, (k - 1) as nat, base);
        let step = resolve_group_spec(gs, parents[k - 1], prev.stack, prev.memo);
        Walk {
            acc: match step.result {
                Some(p) => overlay(prev.acc, p),
                None => prev.acc,
            },
            stack: step.stack,
            memo: step.memo,
        }
    }
}

/// Host `name` resolved: the defaults, then each of its groups in order, then
/// the host itself; nothing when there is no such host.
pub open spec fn resolve_host_spec(
    hosts: Seq<(Seq<char>, NodeView)>,
    gs: Seq<(Seq<char>, NodeView)>,
    defaults: Option<NodeView>,
    name: Seq<char>,
) -> Option<NodeView> {
    match seq_lookup(hosts, name) {
        None => None,
        Some(h) => {
            let base = match defaults {
                Some(d) => overlay(empty_node(), d),
                None => empty_node(),
            };
            let w = fold_host_groups_spec(gs, parent_names(h), parent_names(h).len(), base);
            Some(overlay_with_groups(w.acc, h))
        },
    }
}

/// A host's own settings win: every field the host sets (its parent groups
/// included) is the field of its resolution, whatever its defaults and groups say.
pub proof fn law_host_fields_win(
    hosts: Seq<(Seq<char>, NodeView)>,
    gs: Seq<(Seq<char>, NodeView)>,
    defaults: Option<NodeView>,
    name: Seq<char>,
)
    requires
        seq_lookup(hosts, name) is Some,
    ensures
        ({
            let h = seq_lookup(hosts, name).unwrap();
            let r = resolve_host_spec(hosts, gs, defaults, name).unwrap();
            &&& h.hostname is Some ==> r.hostname == h.hostname
            &&& h.port is Some ==> r.port == h.port
            &&& h.username is Some ==> r.username == h.username
            &&& h.password is Some ==> r.password == h.password
            &&& h.platform is Some ==> r.platform == h.platform
            &&& h.groups is Some ==> r.groups == h.groups
        }),
{
}

/// Defaults fill in: a host without parent groups gets each field it leaves
/// unset from the defaults.
pub proof fn law_defaults_fill_unset(
    hosts: Seq<(Seq<char>, NodeView)>,
    gs: Seq<(Seq<char>, NodeView)>,
    defaults: NodeView,
    name: Seq<char>,
)
    requires
        seq_lookup(hosts, name) is Some,
        parent_names(seq_lookup(hosts, name).unwrap()).len() == 0,
    ensures
        ({
            let h = seq_lookup(hosts, name).unwrap();
            let r = resolve_host_spec(hosts, gs, Some(defaults), name).unwrap();
            &&& h.hostname is None ==> r.hostname == defaults.hostname
            &&& h.port is None ==> r.port == defaults.port
            &&& h.username is None ==> r.username == defaults.username
            &&& h.password is None ==> r.password == defaults.password
            &&& h.platform is None ==> r.platform == defaults.platform
        }),
{
}

/// A group beats the defaults: for a host with one parent group that resolves,
/// a field the host leaves unset comes from the group when the group sets it,
/// and from the defaults otherwise.
pub proof fn law_group_over_defaults(
    hosts: Seq<(Seq<char>, NodeView)>,
    gs: Seq<(Seq<char>, NodeView)>,
    defaults: NodeView,
    name: Seq<char>,
)
    requires
        seq_lookup(hosts, name) is Some,
        parent_names(seq_lookup(hosts, name).unwrap()).len() == 1,
        resolve_group_spec(
            gs,
            parent_names(seq_lookup(hosts, name).unwrap())[0],
            Seq::empty(),
            Seq::empty(),
        ).result is Some,
    ensures
        ({
            let h = seq_lookup(hosts, name).unwrap();
            let g = resolve_group_spec(gs, parent_names(h)[0], Seq::empty(), Seq::empty()).result.unwrap();
            let r = resolve_host_spec(hosts, gs, Some(defaults), name).unwrap();
            &&& h.port is None ==> r.port == if g.port is Some {
                g.port
            } else {
                defaults.port
            }
            &&& h.hostname is None ==> r.hostname == if g.hostname is Some {
                g.hostname
            } else {
                defaults.hostname
            }
            &&& h.username is None ==> r.username == if g.username is Some {
                g.username
            } else {
                defaults.username
            }
        }),
{
    let h = seq_lookup(hosts, name).unwrap();
    let base = overlay(empty_node(), defaults);
    assert(fold_host_groups_spec(gs, parent_names(h), 0, base).stack == Seq::<Seq<char>>::empty());
}

/// The `j`-th parent group of a host (counting from 1) as it resolves during
/// host resolution, with the stack and memo left by the groups before it.
pub open spec fn host_group_step(
    gs: Seq<(Seq<char>, NodeView)>,
    parents: Seq<Seq<char>>,
    base: NodeView,
    j: int,
) -> Option<NodeView> {
    let prev = fold_host_groups_spec(gs, parents, (j - 1) as nat, base);
    resolve_group_spec(gs, parents[j - 1], prev.stack, prev.memo).result
}

/// The `j`-th parent group of a host resolves and sets the field `f`.
pub open spec fn step_sets<A>(
    gs: Seq<(Seq<char>, NodeView)>,
    parents: Seq<Seq<char>>,
    base: NodeView,
    j: int,
    f: spec_fn(NodeView) -> Option<A>,
) -> bool {
    host_group_step(gs, parents, base, j) matches Some(g) && f(g) is Some
}

/// A field that a merge takes from the layer on top when it is set there.
pub open spec fn overlaid_field<A>(f: spec_fn(NodeView) -> Option<A>) -> bool {
    forall|a: NodeView, g: NodeView| #[trigger] f(overlay(a, g)) == or_else(f(g), f(a))
}

/// After merging the first `k` groups of a host over `base`, a field that
/// merges by overlay holds the value of the last group that sets it, or the
/// base value when none does.
proof fn lemma_fold_field<A>(
    gs: Seq<(Seq<char>, NodeView)>,
    parents: Seq<Seq<char>>,
    base: NodeView,
    k: nat,
    f: spec_fn(NodeView) -> Option<A>,
)
    requires
        k <= parents.len(),
        overlaid_field(f),
    ensures
        forall|j: int|
            1 <= j <= k && #[trigger] step_sets(gs, parents, base, j, f) && (forall|i: int|
                j < i <= k ==> !step_sets(gs, parents, base, i, f)) ==> f(
                fold_host_groups_spec(gs, parents, k, base).acc,
            ) == f(host_group_step(gs, parents, base, j).unwrap()),
        (forall|i: int| 1 <= i <= k ==> !#[trigger] step_sets(gs, parents, base, i, f)) ==> f(
            fold_host_groups_spec(gs, parents, k, base).acc,
        ) == f(base),
    decreases k,
{
    if k > 0 {
        lemma_fold_field(gs, parents, base, (k - 1) as nat, f);
        let prev = fold_host_groups_spec(gs, parents, (k - 1) as nat, base);
        let cur = fold_host_groups_spec(gs, parents, k, base);
        assert(host_group_step(gs, parents, base, k as int) == resolve_group_spec(
            gs,
            parents[k - 1],
            prev.stack,
            prev.memo,
        ).result);
        if let Some(g) = host_group_step(gs, parents, base, k as int) {
            assert(cur.acc == overlay(prev.acc, g));
            assert(f(overlay(prev.acc, g)) == or_else(f(g), f(prev.acc)));
        }
        assert forall|j: int|
            1 <= j <= k && #[trigger] step_sets(gs, parents, base, j, f) && (forall|i: int|
                j < i <= k ==> !step_sets(gs, parents, base, i, f)) implies f(cur.acc) == f(
            host_group_step(gs, parents, base, j).unwrap(),
        ) by {
            if j < k {
                assert(!step_sets(gs, parents, base, k as int, f));
            }
        }
        assert((forall|i: int| 1 <= i <= k ==> !#[trigger] step_sets(gs, parents, base, i, f))
            ==> f(cur.acc) == f(base)) by {
            if forall|i: int| 1 <= i <= k ==> !#[trigger] step_sets(gs, parents, base, i, f) {
                assert(!step_sets(gs, parents, base, k as int, f));
            }
        }
    }
}

/// Groups apply in order: for a field the host leaves unset, its resolution
/// holds the value of the last of its groups that sets it (each group as
/// resolved with its own parents), or the defaults' value when no group does.
pub proof fn law_later_groups_win(
    hosts: Seq<(Seq<char>, NodeView)>,
    gs: Seq<(Seq<char>, NodeView)>,
    defaults: NodeView,
    name: Seq<char>,
    j: int,
)
    requires
        seq_lookup(hosts, name) is Some,
    ensures
        ({
            let h = seq_lookup(hosts, name).unwrap();
            let parents = parent_names(h);
            let base = overlay(empty_node(), defaults);
            let r = resolve_host_spec(hosts, gs, Some(defaults), name).unwrap();
            let f_hostname = |n: NodeView| n.hostname;
            let f_port = |n: NodeView| n.port;
            let f_username = |n: NodeView| n.username;
            let f_password = |n: NodeView| n.password;
            let f_platform = |n: NodeView| n.platform;
            &&& (h.hostname is None && 1 <= j <= parents.len() && step_sets(gs, parents, base, j, f_hostname)
                && (forall|i: int| j < i <= parents.len() ==> !step_sets(gs, parents, base, i, f_hostname)))
                ==> r.hostname == host_group_step(gs, parents, base, j).unwrap().hostname
            &&& (h.hostname is None && (forall|i: int|
                1 <= i <= parents.len() ==> !#[trigger] step_sets(gs, parents, base, i, f_hostname)))
                ==> r.hostname == defaults.hostname
            &&& (h.port is None && 1 <= j <= parents.len() && step_sets(gs, parents, base, j, f_port)
                && (forall|i: int| j < i <= parents.len() ==> !step_sets(gs, parents, base, i, f_port)))
                ==> r.port == host_group_step(gs, parents, base, j).unwrap().port
            &&& (h.port is None && (forall|i: int|
                1 <= i <= parents.len() ==> !#[trigger] step_sets(gs, parents, base, i, f_port)))
                ==> r.port == defaults.port
            &&& (h.username is None && 1 <= j <= parents.len() && step_sets(gs, parents, base, j, f_username)
                && (forall|i: int| j < i <= parents.len() ==> !step_sets(gs, parents, base, i, f_username)))
                ==> r.username == host_group_step(gs, parents, base, j).unwrap().username
            &&& (h.username is None && (forall|i: int|
                1 <= i <= parents.len() ==> !#[trigger] step_sets(gs, parents, base, i, f_username)))
                ==> r.username == defaults.username
            &&& (h.password is None && 1 <= j <= parents.len() && step_sets(gs, parents, base, j, f_password)
                && (forall|i: int| j < i <= parents.len() ==> !step_sets(gs, parents, base, i, f_password)))
                ==> r.password == host_group_step(gs, parents, base, j).unwrap().password
            &&& (h.password is None && (forall|i: int|
                1 <= i <= parents.len() ==> !#[trigger] step_sets(gs, parents, base, i, f_password)))
                ==> r.password == defaults.password
            &&& (h.platform is None && 1 <= j <= parents.len() && step_sets(gs, parents, base, j, f_platform)
                && (forall|i: int| j < i <= parents.len() ==> !step_sets(gs, parents, base, i, f_platform)))
                ==> r.platform == host_group_step(gs, parents, base, j).unwrap().platform
            &&& (h.platform is None && (forall|i: int|
                1 <= i <= parents.len() ==> !#[trigger] step_sets(gs, parents, base, i, f_platform)))
                ==> r.platform == defaults.platform
        }),
{
    let h = seq_lookup(hosts, name).unwrap();
    let parents = parent_names(h);
    let base = overlay(empty_node(), defaults);
    let f_hostname = |n: NodeView| n.hostname;
    let f_port = |n: NodeView| n.port;
    let f_username = |n: NodeView| n.username;
    let f_password = |n: NodeView| n.password;
    let f_platform = |n: NodeView| n.platform;
    assert(overlaid_field(f_hostname));
    lemma_fold_field(gs, parents, base, parents.len(), f_hostname);
    assert(overlaid_field(f_port));
    lemma_fold_field(gs, parents, base, parents.len(), f_port);
    assert(overlaid_field(f_username));
    lemma_fold_field(gs, parents, base, parents.len(), f_username);
    assert(overlaid_field(f_password));
    lemma_fold_field(gs, parents, base, parents.len(), f_password);
    assert(overlaid_field(f_platform));
    lemma_fold_field(gs, parents, base, parents.len(), f_platform);
}

/// A group that is being resolved (a cycle back to it) gives nothing and
/// changes neither the stack nor the memo, unless it was memoized before.
pub proof fn law_cycle_gives_nothing(
    gs: Seq<(Seq<char>, NodeView)>,
    name: Seq<char>,
    stack: Seq<Seq<char>>,
    memo: Seq<(Seq<char>, NodeView)>,
)
    requires
        stack.contains(name),
        seq_lookup(memo, name) is None,
    ensures
        resolve_group_spec(gs, name, stack, memo) == (GroupStep { result: None, stack, memo }),
{
}

/// A group resolves exactly when it exists or is memoized, and then it is
/// memoized afterwards.
pub proof fn law_group_resolves_when_known(
    gs: Seq<(Seq<char>, NodeView)>,
    name: Seq<char>,
    stack: Seq<Seq<char>>,
    memo: Seq<(Seq<char>, NodeView)>,
)
    ensures
        (resolve_group_spec(gs, name, stack, memo).result is Some) == (seq_lookup(memo, name) is Some
            || (!stack.contains(name) && seq_lookup(gs, name) is Some)),
        resolve_group_spec(gs, name, stack, memo).result is Some ==> seq_lookup(
            resolve_group_spec(gs, name, stack, memo).memo,
            name,
        ) == resolve_group_spec(gs, name, stack, memo).result,
{
    let st = resolve_group_spec(gs, name, stack, memo);
    if seq_lookup(memo, name) is None && !stack.contains(name) && seq_lookup(gs, name) is Some {
        let inner = stack.push(name);
        let parents = parent_names(seq_lookup(gs, name).unwrap());
        let w = fold_parents_spec(gs, parents, parents.len(), unvisited(gs, inner), inner, memo);
        lemma_insert_lookup(w.memo, name, st.result.unwrap(), name);
    }
}

/// Connection parameters for a type: each field set in the options for that
/// type wins over the host's own field.
pub proof fn law_params_options_win(host: NodeView, connection_type: Seq<char>)
    requires
        host.connection_options is Some,
        seq_lookup(host.connection_options.unwrap(), connection_type) is Some,
    ensures
        ({
            let o = seq_lookup(host.connection_options.unwrap(), connection_type).unwrap();
            let p = resolve_params_spec(host, connection_type);
            &&& p.port == if o.port is Some {
                o.port
            } else {
                host.port
            }
            &&& o.hostname matches Some(h) ==> p.hostname == h
            &&& o.username is Some ==> p.username == o.username
            &&& o.password is Some ==> p.password == o.password
            &&& o.platform is Some ==> p.platform == o.platform
        }),
{
}

/// The view of an optional group.
pub open spec fn group_opt_view(g: Option<Group>) -> Option<NodeView> {
    match g {
        Some(x) => Some(x@),
        None => None,
    }
}

/// Whether `name` is on the stack.
fn stack_contains(stack: &Vec<String>, name: &str) -> (res: bool)
    ensures
        res == names_view(stack@).contains(name@),
{
    let mut i: usize = 0;
    while i < stack.len()
        invariant
            i <= stack@.len(),
            forall|j: int| 0 <= j < i ==> stack@[j]@ != name@,
        decreases stack.len() - i,
    {
        if str_eq(stack[i].as_str(), name) {
            proof {
                assert(names_view(stack@)[i as int] == name@);
            }
            return true;
        }
        i = i + 1;
    }
    proof {
        if names_view(stack@).contains(name@) {
            let k = choose|k: int| 0 <= k < names_view(stack@).len() && names_view(stack@)[k] == name@;
            assert(stack@[k]@ == name@);
        }
    }
    false
}

/// Takes the first occurrence of `name` off the stack.
fn stack_remove(stack: &mut Vec<String>, name: &str)
    ensures
        names_view(final(stack)@) == names_view(old(stack)@).remove_value(name@),
{
    let ghost s = names_view(stack@);
    let mut i: usize = 0;
    while i < stack.len()
        invariant
            i <= stack@.len(),
            s == names_view(stack@),
            s == names_view(old(stack)@),
            forall|j: int| 0 <= j < i ==> s[j] != name@,
        decreases stack.len() - i,
    {
        if str_eq(stack[i].as_str(), name) {
            proof {
                s.index_of_first_ensures(name@);
                assert(s[i as int] == name@);
                let f = s.index_of_first(name@).unwrap();
                assert(f == i);
                assert(s.remove_value(name@) == s.remove(i as int));
            }
            stack.remove(i);
            proof {
                assert(names_view(stack@) =~= s.remove(i as int));
            }
            return ;
        }
        i = i + 1;
    }
    proof {
        s.index_of_first_ensures(name@);
        if s.contains(name@) {
            let k = choose|k: int| 0 <= k < s.len() && s[k] == name@;
            assert(s[k] != name@);
        }
    }
}

/// The hosts, groups and defaults of a run, with the optional transform and
/// the caches of what has been handed out and resolved. The caches are held
/// by value, so looking a host up takes `&mut self`; callers that share an
/// inventory between tasks put it behind a lock.
pub struct Inventory<T: Transform> {
    hosts: Hosts,
    groups: Option<Groups>,
    defaults: Option<Defaults>,
    transform_function: Option<TransformFunction<T>>,
    transform_function_options: Option<TransformFunctionOptions>,
    host_cache: CustomTreeMap<Host>,
    group_cache: CustomTreeMap<Group>,
    resolved_host_cache: CustomTreeMap<Host>,
    resolved_params_cache: PairMap<ResolvedConnectionParams>,
    state: State,
}

impl<T: Transform> Inventory<T> {
    /// The hosts, by name.
    pub closed spec fn hosts_model(&self) -> Seq<(Seq<char>, NodeView)> {
        self.hosts@
    }

    /// The groups, by name (none when the inventory has no groups).
    pub closed spec fn groups_model(&self) -> Seq<(Seq<char>, NodeView)> {
        match self.groups {
            Some(g) => g@,
            None => Seq::empty(),
        }
    }

    /// The defaults, when set.
    pub closed spec fn defaults_model(&self) -> Option<NodeView> {
        match self.defaults {
            Some(d) => Some(d@),
            None => None,
        }
    }

    /// The options handed to the transform, when set.
    pub closed spec fn options_model(&self) -> Option<TransformFunctionOptions> {
        self.transform_function_options
    }

    /// The transform, when one is set.
    pub closed spec fn transformer(&self) -> T {
        self.transform_function.unwrap().0
    }

    /// The options argument handed to the transform.
    pub closed spec fn options_arg(&self) -> Option<&TransformFunctionOptions> {
        match &self.transform_function_options {
            Some(o) => Some(o),
            None => None,
        }
    }

    /// Whether a transform is set.
    pub closed spec fn has_transform(&self) -> bool {
        self.transform_function is Some
    }

    /// The per-run state.
    pub closed spec fn state_model(&self) -> StateView {
        self.state@
    }

    /// Hosts handed out through the hosts view, by name, as handed out.
    pub closed spec fn host_cache_model(&self) -> Seq<(Seq<char>, NodeView)> {
        self.host_cache@
    }

    /// Groups handed out through the groups view, by name, as handed out.
    pub closed spec fn group_cache_model(&self) -> Seq<(Seq<char>, NodeView)> {
        self.group_cache@
    }

    /// Resolved hosts, by name, as handed out.
    pub closed spec fn resolved_hosts(&self) -> Seq<(Seq<char>, NodeView)> {
        self.resolved_host_cache@
    }

    /// Resolved connection parameters, by host and connection type.
    pub closed spec fn resolved_params(&self) -> Seq<((Seq<char>, Seq<char>), ParamsView)> {
        self.resolved_params_cache@
    }

    /// Host `name` resolved from this inventory's hosts, groups and defaults.
    pub open spec fn resolution(&self, name: Seq<char>) -> Option<NodeView> {
        resolve_host_spec(self.hosts_model(), self.groups_model(), self.defaults_model(), name)
    }

    /// Everything but the caches is the same in `self` and `other`.
    pub closed spec fn same_content(&self, other: &Self) -> bool {
        &&& self.hosts == other.hosts
        &&& self.groups == other.groups
        &&& self.defaults == other.defaults
        &&& self.transform_function == other.transform_function
        &&& self.transform_function_options == other.transform_function_options
        &&& self.state == other.state
    }

    /// Hosts, groups, defaults, transform, options and state are those of `other`.
    pub open spec fn keeps_content(&self, other: &Self) -> bool {
        &&& self.hosts_model() == other.hosts_model()
        &&& self.groups_model() == other.groups_model()
        &&& self.has_groups() == other.has_groups()
        &&& self.defaults_model() == other.defaults_model()
        &&& self.has_transform() == other.has_transform()
        &&& self.transformer() == other.transformer()
        &&& self.options_model() == other.options_model()
        &&& self.options_arg() == other.options_arg()
        &&& self.state_model() == other.state_model()
    }

    /// `res` is a host the transform can give, with this inventory's options,
    /// for a host whose view is `v`.
    pub open spec fn is_transformed_host(&self, v: NodeView, res: Host) -> bool {
        exists|h: Host|
            h@ == v && #[trigger] call_ensures(
                T::transform_host,
                (&self.transformer(), &h, self.options_arg()),
                res,
            )
    }

    /// `res` is a group the transform can give, with this inventory's options,
    /// for a group whose view is `v`.
    pub open spec fn is_transformed_group(&self, v: NodeView, res: Group) -> bool {
        exists|g: Group|
            g@ == v && #[trigger] call_ensures(
                T::transform_group,
                (&self.transformer(), &g, self.options_arg()),
                res,
            )
    }

    /// `res` are defaults the transform can give, with this inventory's
    /// options, for defaults whose view is `v`.
    pub open spec fn is_transformed_defaults(&self, v: NodeView, res: Defaults) -> bool {
        exists|d: Defaults|
            d@ == v && #[trigger] call_ensures(
                T::transform_defaults,
                (&self.transformer(), &d, self.options_arg()),
                res,
            )
    }

    /// What the caches hold agrees with the inventory: every cached host or
    /// group exists; without a transform, a cached host or group is the stored
    /// one and a resolved host is its resolution; cached parameters are those
    /// of the cached resolved host.
    pub closed spec fn wf(&self) -> bool {
        &&& forall|k: Seq<char>| #[trigger] seq_lookup(self.resolved_host_cache@, k) is Some ==> {
            &&& seq_lookup(self.hosts@, k) is Some
            &&& !self.has_transform() ==> seq_lookup(self.resolved_host_cache@, k) == self.resolution(k)
        }
        &&& forall|k: Seq<char>| #[trigger] seq_lookup(self.host_cache@, k) is Some ==> {
            &&& seq_lookup(self.hosts@, k) is Some
            &&& !self.has_transform() ==> seq_lookup(self.host_cache@, k) == seq_lookup(self.hosts@, k)
        }
        &&& forall|k: Seq<char>| #[trigger] seq_lookup(self.group_cache@, k) is Some ==> {
            &&& seq_lookup(self.groups_model(), k) is Some
            &&& !self.has_transform() ==> seq_lookup(self.group_cache@, k) == seq_lookup(self.groups_model(), k)
        }
        &&& forall|k: (Seq<char>, Seq<char>)| #[trigger] seq_lookup(self.resolved_params_cache@, k) is Some ==> {
            &&& seq_lookup(self.resolved_host_cache@, k.0) is Some
            &&& seq_lookup(self.resolved_params_cache@, k) == Some(
                resolve_params_spec(seq_lookup(self.resolved_host_cache@, k.0).unwrap(), k.1),
            )
        }
    }

    /// Resolves group `name`, sharing `stack` (the groups being resolved, for
    /// cycle detection) and `memo` (the groups resolved so far); see
    /// [`resolve_group_spec`].
    pub fn resolve_group_internal(
        &self,
        name: &str,
        stack: &mut Vec<String>,
        memo: &mut CustomTreeMap<Group>,
    ) -> (res: Option<Group>)
        ensures
            group_opt_view(res) == resolve_group_spec(
                self.groups_model(),
                name@,
                names_view(old(stack)@),
                old(memo)@,
            ).result,
            names_view(final(stack)@) == resolve_group_spec(
                self.groups_model(),
                name@,
                names_view(old(stack)@),
                old(memo)@,
            ).stack,
            final(memo)@ == resolve_group_spec(
                self.groups_model(),
                name@,
                names_view(old(stack)@),
                old(memo)@,
            ).memo,
            grows(names_view(old(stack)@), names_view(final(stack)@)),
        decreases unvisited(self.groups_model(), names_view(old(stack)@)),
    {
        let ghost gs = self.groups_model();
        let ghost stack0 = names_view(stack@);
        let ghost memo0 = memo@;
        if let Some(cached) = memo.get(name) {
            return Some(cached.clone());
        }
        if stack_contains(stack, name) {
            return None;
        }
        let ghost prev = stack@;
        stack.push(String::from_str(name));
        proof {
            assert(names_view(stack@) =~= stack0.push(name@));
            lemma_push_grows(stack0, name@);
        }
        let ghost inner = names_view(stack@);
        let groups = match &self.groups {
            Some(g) => g,
            None => {
                return None;
            },
        };
        let group = match groups.get(name) {
            Some(g) => g,
            None => {
                return None;
            },
        };
        proof {
            lemma_index_of(gs, name@);
            let i = seq_index_of(gs, name@).unwrap();
            lemma_unvisited_strict(gs, stack0, inner, name@, i);
        }
        let ghost bound = unvisited(gs, inner);
        let ghost parents = parent_names(group@);
        let mut resolved = Group::empty();
        if let Some(parent_groups) = &group.groups {
            let mut i: usize = 0;
            while i < parent_groups.len()
                invariant
                    i <= parents.len(),
                    parents == parent_groups@,
                    gs == self.groups_model(),
                    bound == unvisited(gs, inner),
                    stack0 == names_view(old(stack)@),
                    unvisited(gs, inner) < unvisited(gs, stack0),
                    grows(inner, names_view(stack@)),
                    fold_parents_spec(gs, parents, i as nat, bound, inner, memo0).acc == resolved@,
                    fold_parents_spec(gs, parents, i as nat, bound, inner, memo0).stack == names_view(
                        stack@,
                    ),
                    fold_parents_spec(gs, parents, i as nat, bound, inner, memo0).memo == memo@,
                decreases parents.len() - i,
            {
                let parent = parent_groups.get(i);
                proof {
                    lemma_unvisited_mono(gs, inner, names_view(stack@));
                }
                let ghost before = names_view(stack@);
                let step = self.resolve_group_internal(parent.as_str(), stack, memo);
                if let Some(parent_group) = step {
                    merge_group_into_group(&mut resolved, &parent_group);
                }
                proof {
                    assert forall|x: Seq<char>| inner.contains(x) implies #[trigger] names_view(
                        stack@,
                    ).contains(x) by {
                        assert(before.contains(x));
                    }
                }
                i = i + 1;
            }
        }
        proof {
            if group.groups is None {
                assert(parents.len() == 0);
            }
        }
        merge_group_into_group(&mut resolved, group);
        let ghost walked = names_view(stack@);
        stack_remove(stack, name);
        proof {
            assert forall|x: Seq<char>| stack0.contains(x) implies #[trigger] names_view(
                stack@,
            ).contains(x) by {
                assert(inner.contains(x));
                assert(walked.contains(x));
                lemma_remove_value_keeps(walked, name@, x);
            }
        }
        memo.insert(name, resolved.clone());
        Some(resolved)
    }
}

/// The view of an optional host.
pub open spec fn host_opt_view(h: Option<Host>) -> Option<NodeView> {
    match h {
        Some(x) => Some(x@),
        None => None,
    }
}

/// The view of optional connection parameters.
pub open spec fn params_opt_view(p: Option<ResolvedConnectionParams>) -> Option<ParamsView> {
    match p {
        Some(x) => Some(x@),
        None => None,
    }
}

impl<T: Transform> Inventory<T> {
    /// The stored hosts, untransformed.
    pub fn hosts_raw(&self) -> (res: &Hosts)
        ensures
            res@ == self.hosts_model(),
    {
        &self.hosts
    }

    /// The stored groups, untransformed, when there are any.
    pub fn groups_raw(&self) -> (res: Option<&Groups>)
        ensures
            (res is Some) == self.has_groups(),
            match res {
                Some(g) => g@ == self.groups_model(),
                None => self.groups_model().len() == 0,
            },
    {
        self.groups.as_ref()
    }

    /// The stored defaults, untransformed, when set.
    pub fn defaults_raw(&self) -> (res: Option<&Defaults>)
        ensures
            match res {
                Some(d) => self.defaults_model() == Some(d@),
                None => self.defaults_model() is None,
            },
    {
        self.defaults.as_ref()
    }

    /// The options handed to the transform, when set.
    pub fn transform_function_options(&self) -> (res: Option<&TransformFunctionOptions>)
        ensures
            match res {
                Some(o) => self.options_model() == Some(*o),
                None => self.options_model() is None,
            },
    {
        self.transform_function_options.as_ref()
    }

    /// The number of resolved hosts cached.
    pub fn resolved_host_cache_len(&self) -> (res: usize)
        ensures
            res == self.resolved_hosts().len(),
    {
        self.resolved_host_cache.len()
    }

    /// The number of resolved connection parameters cached.
    pub fn resolved_params_cache_len(&self) -> (res: usize)
        ensures
            res == self.resolved_params().len(),
    {
        self.resolved_params_cache.len()
    }

    /// The per-run state.
    pub fn state(&self) -> (res: &State)
        ensures
            res@ == self.state_model(),
    {
        &self.state
    }

    /// The per-run state, for updating.
    pub fn state_mut(&mut self) -> (res: &mut State)
        ensures
            res@ == old(self).state_model(),
            final(self).state_model() == final(res)@,
            final(self).hosts_model() == old(self).hosts_model(),
            final(self).groups_model() == old(self).groups_model(),
            final(self).defaults_model() == old(self).defaults_model(),
            final(self).has_transform() == old(self).has_transform(),
            final(self).host_cache_model() == old(self).host_cache_model(),
            final(self).group_cache_model() == old(self).group_cache_model(),
            final(self).resolved_hosts() == old(self).resolved_hosts(),
            final(self).resolved_params() == old(self).resolved_params(),
            old(self).wf() ==> final(self).wf(),
    {
        &mut self.state
    }

    /// `host` as the transform hands it out (a copy when there is no transform).
    fn transform_host_value(&self, host: &Host) -> (res: Host)
        ensures
            !self.has_transform() ==> res@ == host@,
            self.has_transform() ==> call_ensures(
                T::transform_host,
                (&self.transformer(), host, self.options_arg()),
                res,
            ),
    {
        let options: Option<&TransformFunctionOptions> = match &self.transform_function_options {
            Some(o) => Some(o),
            None => None,
        };
        match &self.transform_function {
            Some(transform) => transform.transform_host(host, options),
            None => host.clone(),
        }
    }

    /// `group` as the transform hands it out (a copy when there is no transform).
    fn transform_group_value(&self, group: &Group) -> (res: Group)
        ensures
            !self.has_transform() ==> res@ == group@,
            self.has_transform() ==> call_ensures(
                T::transform_group,
                (&self.transformer(), group, self.options_arg()),
                res,
            ),
    {
        let options: Option<&TransformFunctionOptions> = match &self.transform_function_options {
            Some(o) => Some(o),
            None => None,
        };
        match &self.transform_function {
            Some(transform) => transform.transform_group(group, options),
            None => group.clone(),
        }
    }

    /// `defaults` as the transform hands them out (a copy when there is no transform).
    fn transform_defaults_value(&self, defaults: &Defaults) -> (res: Defaults)
        ensures
            !self.has_transform() ==> res@ == defaults@,
            self.has_transform() ==> call_ensures(
                T::transform_defaults,
                (&self.transformer(), defaults, self.options_arg()),
                res,
            ),
    {
        let options: Option<&TransformFunctionOptions> = match &self.transform_function_options {
            Some(o) => Some(o),
            None => None,
        };
        match &self.transform_function {
            Some(transform) => transform.transform_defaults(defaults, options),
            None => defaults.clone(),
        }
    }

    /// The defaults as the transform hands them out, when set.
    pub fn defaults(&self) -> (res: Option<Defaults>)
        ensures
            (res is Some) == (self.defaults_model() is Some),
            !self.has_transform() ==> match res {
                Some(d) => self.defaults_model() == Some(d@),
                None => true,
            },
            self.has_transform() ==> match res {
                Some(d) => self.is_transformed_defaults(self.defaults_model().unwrap(), d),
                None => true,
            },
    {
        match &self.defaults {
            Some(d) => {
                let transformed = self.transform_defaults_value(d);
                proof {
                    if self.has_transform() {
                        assert(call_ensures(
                            T::transform_defaults,
                            (&self.transformer(), d, self.options_arg()),
                            transformed,
                        ));
                    }
                }
                Some(transformed)
            },
            None => None,
        }
    }

    /// Host `name` resolved: the defaults, then its groups in order (parents
    /// before children, cycles cut), then the host itself, then the transform.
    /// The result is cached: a later call gives back the same host.
    pub fn resolve_host(&mut self, name: &str) -> (res: Option<Host>)
        requires
            old(self).wf(),
        ensures
            final(self).wf(),
            final(self).same_content(old(self)),
            final(self).keeps_content(old(self)),
            final(self).host_cache_model() == old(self).host_cache_model(),
            final(self).group_cache_model() == old(self).group_cache_model(),
            final(self).resolved_params() == old(self).resolved_params(),
            (res is Some) == (seq_lookup(old(self).hosts_model(), name@) is Some),
            !old(self).has_transform() ==> host_opt_view(res) == old(self).resolution(name@),
            old(self).has_transform() && seq_lookup(old(self).resolved_hosts(), name@) is None ==> match res {
                Some(h) => old(self).is_transformed_host(old(self).resolution(name@).unwrap(), h),
                None => true,
            },
            seq_lookup(old(self).resolved_hosts(), name@) is Some ==> host_opt_view(res) == seq_lookup(
                old(self).resolved_hosts(),
                name@,
            ) && final(self).resolved_hosts() == old(self).resolved_hosts(),
            seq_lookup(old(self).resolved_hosts(), name@) is None ==> match res {
                Some(h) => final(self).resolved_hosts() == seq_insert(
                    old(self).resolved_hosts(),
                    name@,
                    h@,
                ),
                None => final(self).resolved_hosts() == old(self).resolved_hosts(),
            },
    {
        if let Some(cached) = self.resolved_host_cache.get(name) {
            return Some(cached.clone());
        }
        let ghost gs = self.groups_model();
        let host = match self.hosts.get(name) {
            Some(h) => h,
            None => {
                return None;
            },
        };
        let mut resolved = Host::new();
        if let Some(defaults) = &self.defaults {
            merge_defaults_into_host(&mut resolved, defaults);
        }
        let ghost base = resolved@;
        let ghost parents = parent_names(host@);
        let mut stack: Vec<String> = Vec::new();
        let mut memo: CustomTreeMap<Group> = CustomTreeMap::new();
        proof {
            assert(names_view(stack@) =~= Seq::<Seq<char>>::empty());
        }
        if let Some(groups) = &host.groups {
            let mut i: usize = 0;
            while i < groups.len()
                invariant
                    i <= parents.len(),
                    parents == groups@,
                    gs == self.groups_model(),
                    fold_host_groups_spec(gs, parents, i as nat, base).acc == resolved@,
                    fold_host_groups_spec(gs, parents, i as nat, base).stack == names_view(stack@),
                    fold_host_groups_spec(gs, parents, i as nat, base).memo == memo@,
                decreases parents.len() - i,
            {
                let group_name = groups.get(i);
                let step = self.resolve_group_internal(group_name.as_str(), &mut stack, &mut memo);
                if let Some(group) = step {
                    merge_group_into_host(&mut resolved, &group);
                }
                i = i + 1;
            }
        }
        merge_host_into_host(&mut resolved, host);
        let transformed = self.transform_host_value(&resolved);
        proof {
            assert(resolved@ == self.resolution(name@).unwrap());
            if self.has_transform() {
                assert(call_ensures(
                    T::transform_host,
                    (&self.transformer(), &resolved, self.options_arg()),
                    transformed,
                ));
            }
        }
        let ghost old_self = *self;
        self.resolved_host_cache.insert(name, transformed.clone());
        proof {
            assert forall|k: Seq<char>| #[trigger]
                seq_lookup(self.resolved_host_cache@, k) is Some implies {
                &&& seq_lookup(self.hosts@, k) is Some
                &&& !self.has_transform() ==> seq_lookup(self.resolved_host_cache@, k)
                    == self.resolution(k)
            } by {
                lemma_insert_lookup(
                    old_self.resolved_host_cache@,
                    name@,
                    transformed@,
                    k,
                );
            }
            assert forall|k: (Seq<char>, Seq<char>)| #[trigger]
                seq_lookup(self.resolved_params_cache@, k) is Some implies {
                &&& seq_lookup(self.resolved_host_cache@, k.0) is Some
                &&& seq_lookup(self.resolved_params_cache@, k) == Some(
                    resolve_params_spec(seq_lookup(self.resolved_host_cache@, k.0).unwrap(), k.1),
                )
            } by {
                lemma_insert_lookup(
                    old_self.resolved_host_cache@,
                    name@,
                    transformed@,
                    k.0,
                );
            }
        }
        Some(transformed)
    }

    /// The connection parameters of host `name` for `connection_type`, taken
    /// from the resolved host; see [`Host::resolve_connection_params`]. The
    /// result is cached: a later call gives back the same parameters.
    pub fn resolve_connection_params(&mut self, name: &str, connection_type: &str) -> (res: Option<
        ResolvedConnectionParams,
    >)
        requires
            old(self).wf(),
        ensures
            final(self).wf(),
            final(self).same_content(old(self)),
            final(self).keeps_content(old(self)),
            final(self).host_cache_model() == old(self).host_cache_model(),
            final(self).group_cache_model() == old(self).group_cache_model(),
            (res is Some) == (seq_lookup(old(self).hosts_model(), name@) is Some),
            match res {
                Some(p) => {
                    &&& seq_lookup(final(self).resolved_hosts(), name@) is Some
                    &&& p@ == resolve_params_spec(
                        seq_lookup(final(self).resolved_hosts(), name@).unwrap(),
                        connection_type@,
                    )
                    &&& seq_lookup(final(self).resolved_params(), (name@, connection_type@)) == Some(
                        p@,
                    )
                },
                None => final(self).resolved_params() == old(self).resolved_params()
                    && final(self).resolved_hosts() == old(self).resolved_hosts(),
            },
            !old(self).has_transform() ==> match res {
                Some(p) => p@ == resolve_params_spec(
                    old(self).resolution(name@).unwrap(),
                    connection_type@,
                ),
                None => true,
            },
            seq_lookup(old(self).resolved_params(), (name@, connection_type@)) is Some ==> params_opt_view(res)
                == seq_lookup(old(self).resolved_params(), (name@, connection_type@))
                && final(self).resolved_params() == old(self).resolved_params()
                && final(self).resolved_hosts() == old(self).resolved_hosts(),
    {
        if let Some(cached) = self.resolved_params_cache.get(name, connection_type) {
            return Some(cached.clone());
        }
        let ghost hosts_before = self.resolved_hosts();
        let host = match self.resolve_host(name) {
            Some(h) => h,
            None => {
                return None;
            },
        };
        proof {
            if seq_lookup(hosts_before, name@) is None {
                lemma_insert_lookup(hosts_before, name@, host@, name@);
            }
            assert(seq_lookup(self.resolved_host_cache@, name@) == Some(host@));
        }
        let resolved = host.resolve_connection_params(connection_type);
        let ghost old_self = *self;
        self.resolved_params_cache.insert(name, connection_type, resolved.clone());
        proof {
            lemma_insert_lookup(
                old_self.resolved_params_cache@,
                (name@, connection_type@),
                resolved@,
                (name@, connection_type@),
            );
            assert forall|k: (Seq<char>, Seq<char>)| #[trigger]
                seq_lookup(self.resolved_params_cache@, k) is Some implies {
                &&& seq_lookup(self.resolved_host_cache@, k.0) is Some
                &&& seq_lookup(self.resolved_params_cache@, k) == Some(
                    resolve_params_spec(seq_lookup(self.resolved_host_cache@, k.0).unwrap(), k.1),
                )
            } by {
                lemma_insert_lookup(
                    old_self.resolved_params_cache@,
                    (name@, connection_type@),
                    resolved@,
                    k,
                );
            }
        }
        Some(resolved)
    }
}

/// The names of the hosts among the first `n` whose state keeps them in scope, in order.
pub open spec fn scoped_keys(
    hosts: Seq<(Seq<char>, NodeView)>,
    st: Seq<(Seq<char>, HostStatus)>,
    n: nat,
) -> Seq<Seq<char>>
    decreases n,
{
    if n == 0 || n > hosts.len() {
        Seq::empty()
    } else {
        let p = scoped_keys(hosts, st, (n - 1) as nat);
        if in_scope(seq_lookup(st, hosts[n - 1].0)) {
            p.push(hosts[n - 1].0)
        } else {
            p
        }
    }
}

/// Some entry among the first `n` is named `k`.
pub open spec fn named_before<V>(s: Seq<(Seq<char>, V)>, k: Seq<char>, n: int) -> bool {
    exists|j: int| 0 <= j < n && #[trigger] s[j].0 == k
}

/// A cache entry for `name` after handing out `value` from `old`: the cached
/// entry is kept, or `value` is added.
pub open spec fn cached_after<V>(old: Seq<(Seq<char>, V)>, name: Seq<char>, value: V) -> Seq<(Seq<char>, V)> {
    if seq_lookup(old, name) is Some {
        old
    } else {
        seq_insert(old, name, value)
    }
}

impl Inventory<NoTransform> {
    /// A builder with nothing set.
    pub fn builder() -> (res: InventoryBuilder<NoTransform>)
        ensures
            res.hosts is None,
            res.groups is None,
            res.defaults is None,
            res.transform_function is None,
            res.transform_function_options is None,
    {
        InventoryBuilder::new()
    }
}

impl Default for Inventory<NoTransform> {
    fn default() -> (res: Self)
        ensures
            res.wf(),
            res.hosts_model().len() == 0,
            res.groups_model().len() == 0,
            !res.has_groups(),
            res.defaults_model() is None,
            !res.has_transform(),
            res.options_model() is None,
            forall|k: Seq<char>| #[trigger] seq_lookup(res.state_model().hosts, k) is None,
            res.host_cache_model().len() == 0,
            res.group_cache_model().len() == 0,
            res.resolved_hosts().len() == 0,
            res.resolved_params().len() == 0,
    {
        InventoryBuilder::new().build()
    }
}

impl<T: Transform> Inventory<T> {
    /// The names of the hosts in scope, in order.
    fn scoped_host_keys(&self) -> (res: Vec<NatString>)
        ensures
            res@.len() == scoped_keys(self.hosts_model(), self.state_model().hosts, self.hosts_model().len()).len(),
            forall|i: int| 0 <= i < res@.len() ==> #[trigger] res@[i]@ == scoped_keys(
                self.hosts_model(),
                self.state_model().hosts,
                self.hosts_model().len(),
            )[i],
    {
        let keys = self.hosts.0.keys();
        let ghost hs = self.hosts_model();
        let ghost st = self.state_model().hosts;
        let mut res: Vec<NatString> = Vec::new();
        let mut i: usize = 0;
        while i < keys.len()
            invariant
                i <= keys@.len(),
                keys@.len() == hs.len(),
                hs == self.hosts_model(),
                st == self.state_model().hosts,
                forall|j: int| 0 <= j < keys@.len() ==> #[trigger] keys@[j]@ == hs[j].0,
                res@.len() == scoped_keys(hs, st, i as nat).len(),
                forall|j: int| 0 <= j < res@.len() ==> #[trigger] res@[j]@ == scoped_keys(hs, st, i as nat)[j],
            decreases keys@.len() - i,
        {
            let key = &keys[i];
            if self.state.is_in_scope_key(key) {
                res.push(key.clone());
            }
            i = i + 1;
        }
        res
    }

    /// Host `name` as the hosts view hands it out: nothing when it is out of
    /// scope or unknown; else the cached copy, or the transformed host, cached.
    fn view_host(&mut self, name: &str) -> (res: Option<Host>)
        requires
            old(self).wf(),
        ensures
            final(self).wf(),
            final(self).same_content(old(self)),
            final(self).keeps_content(old(self)),
            final(self).group_cache_model() == old(self).group_cache_model(),
            final(self).resolved_hosts() == old(self).resolved_hosts(),
            final(self).resolved_params() == old(self).resolved_params(),
            (res is Some) == (in_scope(seq_lookup(old(self).state_model().hosts, name@)) && seq_lookup(
                old(self).hosts_model(),
                name@,
            ) is Some),
            !old(self).has_transform() && res is Some ==> host_opt_view(res) == seq_lookup(
                old(self).hosts_model(),
                name@,
            ),
            old(self).has_transform() && seq_lookup(old(self).host_cache_model(), name@) is None ==> match res {
                Some(h) => old(self).is_transformed_host(seq_lookup(old(self).hosts_model(), name@).unwrap(), h),
                None => true,
            },
            match res {
                Some(h) => {
                    &&& final(self).host_cache_model() == cached_after(old(self).host_cache_model(), name@, h@)
                    &&& seq_lookup(final(self).host_cache_model(), name@) == Some(h@)
                },
                None => final(self).host_cache_model() == old(self).host_cache_model(),
            },
    {
        if !self.state.is_in_scope(name) {
            return None;
        }
        if let Some(cached) = self.host_cache.get(name) {
            return Some(cached.clone());
        }
        let host = match self.hosts.get(name) {
            Some(h) => h.clone(),
            None => {
                return None;
            },
        };
        let transformed = self.transform_host_value(&host);
        proof {
            if self.has_transform() {
                assert(call_ensures(
                    T::transform_host,
                    (&self.transformer(), &host, self.options_arg()),
                    transformed,
                ));
            }
        }
        let ghost old_self = *self;
        self.host_cache.insert(name, transformed.clone());
        proof {
            lemma_insert_lookup(old_self.host_cache@, name@, transformed@, name@);
            assert forall|k: Seq<char>| #[trigger] seq_lookup(self.host_cache@, k) is Some implies {
                &&& seq_lookup(self.hosts@, k) is Some
                &&& !self.has_transform() ==> seq_lookup(self.host_cache@, k) == seq_lookup(self.hosts@, k)
            } by {
                lemma_insert_lookup(old_self.host_cache@, name@, transformed@, k);
            }
        }
        Some(transformed)
    }

    /// Group `name` as the groups view hands it out: nothing when it is
    /// unknown; else the cached copy, or the transformed group, cached.
    fn view_group(&mut self, name: &str) -> (res: Option<Group>)
        requires
            old(self).wf(),
        ensures
            final(self).wf(),
            final(self).same_content(old(self)),
            final(self).keeps_content(old(self)),
            final(self).host_cache_model() == old(self).host_cache_model(),
            final(self).resolved_hosts() == old(self).resolved_hosts(),
            final(self).resolved_params() == old(self).resolved_params(),
            (res is Some) == (seq_lookup(old(self).groups_model(), name@) is Some),
            !old(self).has_transform() ==> group_opt_view(res) == seq_lookup(
                old(self).groups_model(),
                name@,
            ),
            old(self).has_transform() && seq_lookup(old(self).group_cache_model(), name@) is None ==> match res {
                Some(g) => old(self).is_transformed_group(seq_lookup(old(self).groups_model(), name@).unwrap(), g),
                None => true,
            },
            match res {
                Some(g) => {
                    &&& final(self).group_cache_model() == cached_after(old(self).group_cache_model(), name@, g@)
                    &&& seq_lookup(final(self).group_cache_model(), name@) == Some(g@)
                },
                None => final(self).group_cache_model() == old(self).group_cache_model(),
            },
    {
        if let Some(cached) = self.group_cache.get(name) {
            return Some(cached.clone());
        }
        let group = match &self.groups {
            Some(groups) => match groups.get(name) {
                Some(g) => g.clone(),
                None => {
                    return None;
                },
            },
            None => {
                return None;
            },
        };
        let transformed = self.transform_group_value(&group);
        proof {
            if self.has_transform() {
                assert(call_ensures(
                    T::transform_group,
                    (&self.transformer(), &group, self.options_arg()),
                    transformed,
                ));
            }
        }
        let ghost old_self = *self;
        self.group_cache.insert(name, transformed.clone());
        proof {
            lemma_insert_lookup(old_self.group_cache@, name@, transformed@, name@);
            assert forall|k: Seq<char>| #[trigger] seq_lookup(self.group_cache@, k) is Some implies {
                &&& seq_lookup(self.groups_model(), k) is Some
                &&& !self.has_transform() ==> seq_lookup(self.group_cache@, k) == seq_lookup(
                    self.groups_model(),
                    k,
                )
            } by {
                lemma_insert_lookup(old_self.group_cache@, name@, transformed@, k);
            }
        }
        Some(transformed)
    }
}

/// Builds an [`Inventory`]; what is not set is empty.
pub struct InventoryBuilder<T: Transform> {
    pub hosts: Option<Hosts>,
    pub groups: Option<Groups>,
    pub defaults: Option<Defaults>,
    pub transform_function: Option<TransformFunction<T>>,
    pub transform_function_options: Option<TransformFunctionOptions>,
}

impl InventoryBuilder<NoTransform> {
    /// A builder with nothing set.
    pub fn new() -> (res: Self)
        ensures
            res.hosts is None,
            res.groups is None,
            res.defaults is None,
            res.transform_function is None,
            res.transform_function_options is None,
    {
        InventoryBuilder {
            hosts: None,
            groups: None,
            defaults: None,
            transform_function: None,
            transform_function_options: None,
        }
    }
}

impl Default for InventoryBuilder<NoTransform> {
    fn default() -> (res: Self)
        ensures
            res.hosts is None,
            res.groups is None,
            res.defaults is None,
            res.transform_function is None,
            res.transform_function_options is None,
    {
        Self::new()
    }
}

impl<T: Transform> InventoryBuilder<T> {
    /// Sets the hosts.
    pub fn hosts(self, hosts: Hosts) -> (res: Self)
        ensures
            res == (InventoryBuilder { hosts: Some(hosts), ..self }),
    {
        InventoryBuilder { hosts: Some(hosts), ..self }
    }

    /// Sets the groups.
    pub fn groups(self, groups: Groups) -> (res: Self)
        ensures
            res == (InventoryBuilder { groups: Some(groups), ..self }),
    {
        InventoryBuilder { groups: Some(groups), ..self }
    }

    /// Sets the defaults.
    pub fn defaults(self, defaults: Defaults) -> (res: Self)
        ensures
            res == (InventoryBuilder { defaults: Some(defaults), ..self }),
    {
        InventoryBuilder { defaults: Some(defaults), ..self }
    }

    /// Sets the transform, which may change the builder's transform type.
    pub fn transform_function<U: Transform>(self, transform: TransformFunction<U>) -> (res: InventoryBuilder<U>)
        ensures
            res.hosts == self.hosts,
            res.groups == self.groups,
            res.defaults == self.defaults,
            res.transform_function == Some(transform),
            res.transform_function_options == self.transform_function_options,
    {
        InventoryBuilder {
            hosts: self.hosts,
            groups: self.groups,
            defaults: self.defaults,
            transform_function: Some(transform),
            transform_function_options: self.transform_function_options,
        }
    }

    /// Sets the options handed to the transform.
    pub fn transform_function_options(self, options: TransformFunctionOptions) -> (res: Self)
        ensures
            res == (InventoryBuilder { transform_function_options: Some(options), ..self }),
    {
        InventoryBuilder { transform_function_options: Some(options), ..self }
    }

    /// The inventory: unset hosts are empty, every host starts in scope, and
    /// every cache starts empty.
    pub fn build(self) -> (res: Inventory<T>)
        ensures
            res.wf(),
            res.hosts_model() == match self.hosts {
                Some(h) => h@,
                None => Seq::empty(),
            },
            res.groups_model() == match self.groups {
                Some(g) => g@,
                None => Seq::empty(),
            },
            res.defaults_model() == match self.defaults {
                Some(d) => Some(d@),
                None => None,
            },
            res.has_groups() == (self.groups is Some),
            res.has_transform() == (self.transform_function is Some),
            match self.transform_function {
                Some(t) => res.transformer() == t.0,
                None => true,
            },
            res.options_model() == self.transform_function_options,
            forall|k: Seq<char>| #[trigger] seq_lookup(res.state_model().hosts, k) == if seq_lookup(res.hosts_model(), k) is Some {
                Some(HostStatus::InScope)
            } else {
                None
            },
            res.state_model().connections.len() == 0,
            res.state_model().tasks.len() == 0,
            res.host_cache_model().len() == 0,
            res.group_cache_model().len() == 0,
            res.resolved_hosts().len() == 0,
            res.resolved_params().len() == 0,
    {
        let hosts = match self.hosts {
            Some(h) => h,
            None => Hosts::new(),
        };
        let ghost hs = hosts@;
        let mut state = State::new();
        let keys = hosts.0.keys();
        let mut i: usize = 0;
        while i < keys.len()
            invariant
                i <= keys@.len(),
                keys@.len() == hs.len(),
                forall|j: int| 0 <= j < keys@.len() ==> #[trigger] keys@[j]@ == hs[j].0,
                forall|k: Seq<char>| #[trigger] seq_lookup(state@.hosts, k) == if named_before(hs, k, i as int) {
                    Some(HostStatus::InScope)
                } else {
                    None
                },
                state@.connections.len() == 0,
                state@.tasks.len() == 0,
            decreases keys@.len() - i,
        {
            let ghost before = state@.hosts;
            state.mark_in_scope_key(&keys[i]);
            proof {
                assert forall|k: Seq<char>| #[trigger] seq_lookup(state@.hosts, k) == if named_before(hs, k, i + 1) {
                    Some(HostStatus::InScope)
                } else {
                    None
                } by {
                    lemma_insert_lookup(before, keys@[i as int]@, HostStatus::InScope, k);
                    if named_before(hs, k, i + 1) && k != hs[i as int].0 {
                        let j = choose|j: int| 0 <= j < i + 1 && #[trigger] hs[j].0 == k;
                        assert(named_before(hs, k, i as int));
                    }
                    if k == hs[i as int].0 {
                        assert(named_before(hs, k, i + 1));
                    }
                }
            }
            i = i + 1;
        }
        proof {
            assert forall|k: Seq<char>| #[trigger] seq_lookup(state@.hosts, k) == if seq_lookup(hs, k) is Some {
                Some(HostStatus::InScope)
            } else {
                None
            } by {
                lemma_index_of(hs, k);
                if let Some(j) = seq_index_of(hs, k) {
                    assert(named_before(hs, k, hs.len() as int));
                }
            }
        }
        let inventory = Inventory {
            hosts,
            groups: self.groups,
            defaults: self.defaults,
            transform_function: self.transform_function,
            transform_function_options: self.transform_function_options,
            host_cache: CustomTreeMap::new(),
            group_cache: CustomTreeMap::new(),
            resolved_host_cache: CustomTreeMap::new(),
            resolved_params_cache: PairMap::new(),
            state,
        };
        inventory
    }
}

/// The hosts of an inventory as they are handed out: only hosts in scope,
/// each transformed once and then served from the cache.
pub struct HostsView<'a, T: Transform> {
    pub inventory: &'a mut Inventory<T>,
}

/// The groups of an inventory as they are handed out: each transformed once
/// and then served from the cache.
pub struct GroupsView<'a, T: Transform> {
    pub inventory: &'a mut Inventory<T>,
}

/// Every key of `scoped_keys` names a host, and its state keeps it in scope.
pub proof fn lemma_scoped_keys(
    hosts: Seq<(Seq<char>, NodeView)>,
    st: Seq<(Seq<char>, HostStatus)>,
    n: nat,
    i: int,
)
    requires
        n <= hosts.len(),
        0 <= i < scoped_keys(hosts, st, n).len(),
    ensures
        in_scope(seq_lookup(st, scoped_keys(hosts, st, n)[i])),
        seq_lookup(hosts, scoped_keys(hosts, st, n)[i]) is Some,
    decreases n,
{
    let ks = scoped_keys(hosts, st, n);
    let p = scoped_keys(hosts, st, (n - 1) as nat);
    if i < p.len() {
        lemma_scoped_keys(hosts, st, (n - 1) as nat, i);
        assert(ks[i] == p[i]);
    } else {
        let k = hosts[n - 1].0;
        assert(ks[i] == k);
        lemma_index_of(hosts, k);
    }
}

/// Every key of a list of entries is bound in it.
pub proof fn lemma_entry_key_bound<V>(s: Seq<(Seq<char>, V)>, i: int)
    requires
        0 <= i < s.len(),
    ensures
        seq_lookup(s, s[i].0) is Some,
{
    lemma_index_of(s, s[i].0);
}

/// Handing out `value` for `name` keeps every other cached entry and every
/// entry cached before.
pub proof fn lemma_cached_after<V>(old: Seq<(Seq<char>, V)>, name: Seq<char>, value: V, k: Seq<char>)
    ensures
        seq_lookup(old, k) is Some ==> seq_lookup(cached_after(old, name, value), k) == seq_lookup(old, k),
        k != name ==> seq_lookup(cached_after(old, name, value), k) == seq_lookup(old, k),
        seq_lookup(cached_after(old, name, value), name) is Some,
{
    lemma_insert_lookup(old, name, value, k);
    lemma_insert_lookup(old, name, value, name);
}

impl<T: Transform> Inventory<T> {
    /// Whether the inventory has a collection of groups.
    pub closed spec fn has_groups(&self) -> bool {
        self.groups is Some
    }

    /// A view of the hosts in scope.
    pub fn hosts(&mut self) -> (res: HostsView<'_, T>)
        ensures
            *res.inventory == *old(self),
            *final(self) == *final(res.inventory),
    {
        HostsView { inventory: self }
    }

    /// A view of the groups, when the inventory has a collection of groups.
    pub fn groups(&mut self) -> (res: Option<GroupsView<'_, T>>)
        ensures
            (res is Some) == old(self).has_groups(),
            match res {
                Some(v) => *v.inventory == *old(self) && *final(self) == *final(v.inventory),
                None => *final(self) == *old(self),
            },
    {
        if self.groups.is_some() {
            Some(GroupsView { inventory: self })
        } else {
            None
        }
    }
}

impl<'a, T: Transform> HostsView<'a, T> {
    /// The names of the hosts in scope, in order.
    pub open spec fn scoped(&self) -> Seq<Seq<char>> {
        scoped_keys(
            self.inventory.hosts_model(),
            self.inventory.state_model().hosts,
            self.inventory.hosts_model().len(),
        )
    }

    /// The number of hosts in scope.
    pub fn len(&self) -> (res: usize)
        ensures
            res == self.scoped().len(),
    {
        self.inventory.scoped_host_keys().len()
    }

    /// Whether no host is in scope.
    pub fn is_empty(&self) -> (res: bool)
        ensures
            res == (self.scoped().len() == 0),
    {
        self.len() == 0
    }

    /// The names of the hosts in scope, in order.
    pub fn keys(&self) -> (res: Vec<NatString>)
        ensures
            res@.len() == self.scoped().len(),
            forall|i: int| 0 <= i < res@.len() ==> #[trigger] res@[i]@ == self.scoped()[i],
    {
        self.inventory.scoped_host_keys()
    }

    /// Host `name` as handed out: nothing when it is out of scope or unknown;
    /// else the cached copy, or the host transformed and cached.
    pub fn get(&mut self, name: &str) -> (res: Option<Host>)
        requires
            old(self).inventory.wf(),
        ensures
            final(self).inventory.wf(),
            final(self).inventory.same_content(&*old(self).inventory),
            final(self).inventory.keeps_content(&*old(self).inventory),
            final(self).inventory.group_cache_model() == old(self).inventory.group_cache_model(),
            final(self).inventory.resolved_hosts() == old(self).inventory.resolved_hosts(),
            final(self).inventory.resolved_params() == old(self).inventory.resolved_params(),
            (res is Some) == (in_scope(seq_lookup(old(self).inventory.state_model().hosts, name@))
                && seq_lookup(old(self).inventory.hosts_model(), name@) is Some),
            !old(self).inventory.has_transform() && res is Some ==> host_opt_view(res) == seq_lookup(
                old(self).inventory.hosts_model(),
                name@,
            ),
            old(self).inventory.has_transform() && seq_lookup(old(self).inventory.host_cache_model(), name@)
                is None ==> match res {
                Some(h) => old(self).inventory.is_transformed_host(
                    seq_lookup(old(self).inventory.hosts_model(), name@).unwrap(),
                    h,
                ),
                None => true,
            },
            match res {
                Some(h) => {
                    &&& final(self).inventory.host_cache_model() == cached_after(
                        old(self).inventory.host_cache_model(),
                        name@,
                        h@,
                    )
                    &&& seq_lookup(final(self).inventory.host_cache_model(), name@) == Some(h@)
                },
                None => final(self).inventory.host_cache_model() == old(self).inventory.host_cache_model(),
            },
    {
        self.inventory.view_host(name)
    }

    /// The hosts in scope, in order, each as [`HostsView::get`] hands it out.
    pub fn iter(&mut self) -> (res: Vec<(NatString, Host)>)
        requires
            old(self).inventory.wf(),
        ensures
            final(self).inventory.wf(),
            final(self).inventory.same_content(&*old(self).inventory),
            final(self).inventory.keeps_content(&*old(self).inventory),
            final(self).inventory.group_cache_model() == old(self).inventory.group_cache_model(),
            final(self).inventory.resolved_hosts() == old(self).inventory.resolved_hosts(),
            final(self).inventory.resolved_params() == old(self).inventory.resolved_params(),
            res@.len() == old(self).scoped().len(),
            forall|i: int| 0 <= i < res@.len() ==> {
                &&& #[trigger] res@[i].0@ == old(self).scoped()[i]
                &&& seq_lookup(final(self).inventory.host_cache_model(), res@[i].0@) == Some(res@[i].1@)
                &&& !old(self).inventory.has_transform() ==> seq_lookup(
                    old(self).inventory.hosts_model(),
                    res@[i].0@,
                ) == Some(res@[i].1@)
            },
            forall|k: Seq<char>| #[trigger]
                seq_lookup(old(self).inventory.host_cache_model(), k) is Some ==> seq_lookup(
                    final(self).inventory.host_cache_model(),
                    k,
                ) == seq_lookup(old(self).inventory.host_cache_model(), k),
            forall|k: Seq<char>| #[trigger]
                seq_lookup(final(self).inventory.host_cache_model(), k) is Some ==> seq_lookup(
                    old(self).inventory.host_cache_model(),
                    k,
                ) is Some || old(self).scoped().contains(k),
            old(self).inventory.has_transform() ==> forall|i: int|
                #![trigger res@[i]]
                0 <= i < res@.len() && seq_lookup(old(self).inventory.host_cache_model(), res@[i].0@)
                    is None && (forall|l: int| 0 <= l < i ==> res@[l].0@ != res@[i].0@)
                    ==> old(self).inventory.is_transformed_host(
                    seq_lookup(old(self).inventory.hosts_model(), res@[i].0@).unwrap(),
                    res@[i].1,
                ),
    {
        let keys = self.inventory.scoped_host_keys();
        let ghost ks = self.scoped();
        let ghost start = *self.inventory;
        let mut res: Vec<(NatString, Host)> = Vec::new();
        let mut i: usize = 0;
        while i < keys.len()
            invariant
                i <= keys@.len(),
                keys@.len() == ks.len(),
                forall|j: int| 0 <= j < keys@.len() ==> #[trigger] keys@[j]@ == ks[j],
                ks == scoped_keys(start.hosts_model(), start.state_model().hosts, start.hosts_model().len()),
                self.inventory.wf(),
                self.inventory.same_content(&start),
                self.inventory.group_cache_model() == start.group_cache_model(),
                self.inventory.resolved_hosts() == start.resolved_hosts(),
                self.inventory.resolved_params() == start.resolved_params(),
                self.inventory.hosts_model() == start.hosts_model(),
                self.inventory.state_model() == start.state_model(),
                self.inventory.has_transform() == start.has_transform(),
                res@.len() == i,
                forall|j: int| 0 <= j < i ==> {
                    &&& #[trigger] res@[j].0@ == ks[j]
                    &&& seq_lookup(self.inventory.host_cache_model(), res@[j].0@) == Some(res@[j].1@)
                    &&& !start.has_transform() ==> seq_lookup(start.hosts_model(), res@[j].0@) == Some(
                        res@[j].1@,
                    )
                },
                forall|k: Seq<char>| #[trigger]
                    seq_lookup(start.host_cache_model(), k) is Some ==> seq_lookup(
                        self.inventory.host_cache_model(),
                        k,
                    ) == seq_lookup(start.host_cache_model(), k),
                forall|k: Seq<char>| #[trigger]
                    seq_lookup(self.inventory.host_cache_model(), k) is Some ==> seq_lookup(
                        start.host_cache_model(),
                        k,
                    ) is Some || exists|j: int| 0 <= j < i && ks[j] == k,
                start.has_transform() ==> forall|j: int|
                    #![trigger res@[j]]
                    0 <= j < i && seq_lookup(start.host_cache_model(), res@[j].0@) is None && (forall|
                        l: int,
                    | 0 <= l < j ==> res@[l].0@ != res@[j].0@) ==> start.is_transformed_host(
                        seq_lookup(start.hosts_model(), res@[j].0@).unwrap(),
                        res@[j].1,
                    ),
            decreases keys@.len() - i,
        {
            let key = &keys[i];
            proof {
                lemma_scoped_keys(start.hosts_model(), start.state_model().hosts, start.hosts_model().len(), i as int);
            }
            let ghost cache = self.inventory.host_cache_model();
            let ghost before = *self.inventory;
            proof {
                if seq_lookup(start.host_cache_model(), key@) is None && (forall|l: int|
                    0 <= l < i ==> res@[l].0@ != key@) {
                    if seq_lookup(cache, key@) is Some {
                        let j = choose|j: int| 0 <= j < i && ks[j] == key@;
                        assert(res@[j].0@ == ks[j]);
                    }
                }
            }
            let got = self.inventory.view_host(key.as_str());
            match got {
                Some(host) => {
                    proof {
                        assert forall|j: int| 0 <= j < i implies seq_lookup(
                            self.inventory.host_cache_model(),
                            #[trigger] res@[j].0@,
                        ) == Some(res@[j].1@) by {
                            lemma_cached_after(cache, key@, host@, res@[j].0@);
                        }
                        assert forall|k: Seq<char>| #[trigger]
                            seq_lookup(start.host_cache_model(), k) is Some implies seq_lookup(
                                self.inventory.host_cache_model(),
                                k,
                            ) == seq_lookup(start.host_cache_model(), k) by {
                            lemma_cached_after(cache, key@, host@, k);
                        }
                        assert forall|k: Seq<char>| #[trigger]
                            seq_lookup(self.inventory.host_cache_model(), k) is Some implies seq_lookup(
                                start.host_cache_model(),
                                k,
                            ) is Some || exists|j: int| 0 <= j < i + 1 && ks[j] == k by {
                            lemma_cached_after(cache, key@, host@, k);
                            if k == key@ {
                                assert(ks[i as int] == k);
                            } else {
                                assert(seq_lookup(cache, k) is Some);
                            }
                        }
                    }
                    let ghost prev = res@;
                    res.push((key.clone(), host));
                    proof {
                        assert(before.transformer() == start.transformer());
                        assert(before.options_arg() == start.options_arg());
                        assert forall|j: int|
                            #![trigger res@[j]]
                            start.has_transform() && 0 <= j < i + 1 && seq_lookup(
                                start.host_cache_model(),
                                res@[j].0@,
                            ) is None && (forall|l: int| 0 <= l < j ==> res@[l].0@ != res@[j].0@)
                            implies start.is_transformed_host(
                            seq_lookup(start.hosts_model(), res@[j].0@).unwrap(),
                            res@[j].1,
                        ) by {
                            if j < i {
                                assert(res@[j] == prev[j]);
                                assert forall|l: int| 0 <= l < j implies prev[l].0@ != prev[j].0@ by {
                                    assert(res@[l] == prev[l]);
                                }
                            } else {
                                assert(res@[j].0@ == key@);
                                assert forall|l: int| 0 <= l < i implies prev[l].0@ != key@ by {
                                    assert(res@[l] == prev[l]);
                                }
                            }
                        }
                    }
                },
                None => {},
            }
            i = i + 1;
        }
        res
    }
}

impl<'a, T: Transform> GroupsView<'a, T> {
    /// The groups, by name.
    pub open spec fn entries(&self) -> Seq<(Seq<char>, NodeView)> {
        self.inventory.groups_model()
    }

    /// The number of groups.
    pub fn len(&self) -> (res: usize)
        ensures
            res == self.entries().len(),
    {
        match &self.inventory.groups {
            Some(g) => g.len(),
            None => 0,
        }
    }

    /// Whether there are no groups.
    pub fn is_empty(&self) -> (res: bool)
        ensures
            res == (self.entries().len() == 0),
    {
        self.len() == 0
    }

    /// The names of the groups, in order.
    pub fn keys(&self) -> (res: Vec<NatString>)
        ensures
            res@.len() == self.entries().len(),
            forall|i: int| 0 <= i < res@.len() ==> #[trigger] res@[i]@ == self.entries()[i].0,
    {
        match &self.inventory.groups {
            Some(g) => g.0.keys(),
            None => Vec::new(),
        }
    }

    /// Group `name` as handed out: nothing when it is unknown; else the cached
    /// copy, or the group transformed and cached.
    pub fn get(&mut self, name: &str) -> (res: Option<Group>)
        requires
            old(self).inventory.wf(),
        ensures
            final(self).inventory.wf(),
            final(self).inventory.same_content(&*old(self).inventory),
            final(self).inventory.keeps_content(&*old(self).inventory),
            final(self).inventory.host_cache_model() == old(self).inventory.host_cache_model(),
            final(self).inventory.resolved_hosts() == old(self).inventory.resolved_hosts(),
            final(self).inventory.resolved_params() == old(self).inventory.resolved_params(),
            (res is Some) == (seq_lookup(old(self).inventory.groups_model(), name@) is Some),
            !old(self).inventory.has_transform() ==> group_opt_view(res) == seq_lookup(
                old(self).inventory.groups_model(),
                name@,
            ),
            old(self).inventory.has_transform() && seq_lookup(old(self).inventory.group_cache_model(), name@)
                is None ==> match res {
                Some(g) => old(self).inventory.is_transformed_group(
                    seq_lookup(old(self).inventory.groups_model(), name@).unwrap(),
                    g,
                ),
                None => true,
            },
            match res {
                Some(g) => {
                    &&& final(self).inventory.group_cache_model() == cached_after(
                        old(self).inventory.group_cache_model(),
                        name@,
                        g@,
                    )
                    &&& seq_lookup(final(self).inventory.group_cache_model(), name@) == Some(g@)
                },
                None => final(self).inventory.group_cache_model() == old(self).inventory.group_cache_model(),
            },
    {
        self.inventory.view_group(name)
    }

    /// The groups, in order, each as [`GroupsView::get`] hands it out.
    pub fn iter(&mut self) -> (res: Vec<(NatString, Group)>)
        requires
            old(self).inventory.wf(),
        ensures
            final(self).inventory.wf(),
            final(self).inventory.same_content(&*old(self).inventory),
            final(self).inventory.keeps_content(&*old(self).inventory),
            final(self).inventory.host_cache_model() == old(self).inventory.host_cache_model(),
            final(self).inventory.resolved_hosts() == old(self).inventory.resolved_hosts(),
            final(self).inventory.resolved_params() == old(self).inventory.resolved_params(),
            res@.len() == old(self).inventory.groups_model().len(),
            forall|i: int| 0 <= i < res@.len() ==> {
                &&& #[trigger] res@[i].0@ == old(self).inventory.groups_model()[i].0
                &&& seq_lookup(final(self).inventory.group_cache_model(), res@[i].0@) == Some(res@[i].1@)
                &&& !old(self).inventory.has_transform() ==> seq_lookup(
                    old(self).inventory.groups_model(),
                    res@[i].0@,
                ) == Some(res@[i].1@)
            },
            forall|k: Seq<char>| #[trigger]
                seq_lookup(old(self).inventory.group_cache_model(), k) is Some ==> seq_lookup(
                    final(self).inventory.group_cache_model(),
                    k,
                ) == seq_lookup(old(self).inventory.group_cache_model(), k),
            old(self).inventory.has_transform() ==> forall|i: int|
                #![trigger res@[i]]
                0 <= i < res@.len() && seq_lookup(old(self).inventory.group_cache_model(), res@[i].0@)
                    is None && (forall|l: int| 0 <= l < i ==> res@[l].0@ != res@[i].0@)
                    ==> old(self).inventory.is_transformed_group(
                    seq_lookup(old(self).inventory.groups_model(), res@[i].0@).unwrap(),
                    res@[i].1,
                ),
    {
        let keys = self.keys();
        let ghost gs = self.inventory.groups_model();
        let ghost start = *self.inventory;
        let mut res: Vec<(NatString, Group)> = Vec::new();
        let mut i: usize = 0;
        while i < keys.len()
            invariant
                i <= keys@.len(),
                keys@.len() == gs.len(),
                forall|j: int| 0 <= j < keys@.len() ==> #[trigger] keys@[j]@ == gs[j].0,
                gs == start.groups_model(),
                self.inventory.wf(),
                self.inventory.same_content(&start),
                self.inventory.host_cache_model() == start.host_cache_model(),
                self.inventory.resolved_hosts() == start.resolved_hosts(),
                self.inventory.resolved_params() == start.resolved_params(),
                self.inventory.groups_model() == gs,
                self.inventory.has_transform() == start.has_transform(),
                res@.len() == i,
                forall|j: int| 0 <= j < i ==> {
                    &&& #[trigger] res@[j].0@ == gs[j].0
                    &&& seq_lookup(self.inventory.group_cache_model(), res@[j].0@) == Some(res@[j].1@)
                    &&& !start.has_transform() ==> seq_lookup(gs, res@[j].0@) == Some(res@[j].1@)
                },
                forall|k: Seq<char>| #[trigger]
                    seq_lookup(start.group_cache_model(), k) is Some ==> seq_lookup(
                        self.inventory.group_cache_model(),
                        k,
                    ) == seq_lookup(start.group_cache_model(), k),
                forall|k: Seq<char>| #[trigger]
                    seq_lookup(self.inventory.group_cache_model(), k) is Some ==> seq_lookup(
                        start.group_cache_model(),
                        k,
                    ) is Some || exists|j: int| 0 <= j < i && gs[j].0 == k,
                start.has_transform() ==> forall|j: int|
                    #![trigger res@[j]]
                    0 <= j < i && seq_lookup(start.group_cache_model(), res@[j].0@) is None && (forall|
                        l: int,
                    | 0 <= l < j ==> res@[l].0@ != res@[j].0@) ==> start.is_transformed_group(
                        seq_lookup(gs, res@[j].0@).unwrap(),
                        res@[j].1,
                    ),
            decreases keys@.len() - i,
        {
            let key = &keys[i];
            proof {
                lemma_entry_key_bound(gs, i as int);
            }
            let ghost cache = self.inventory.group_cache_model();
            let ghost before = *self.inventory;
            proof {
                if seq_lookup(start.group_cache_model(), key@) is None && (forall|l: int|
                    0 <= l < i ==> res@[l].0@ != key@) {
                    if seq_lookup(cache, key@) is Some {
                        let j = choose|j: int| 0 <= j < i && gs[j].0 == key@;
                        assert(res@[j].0@ == gs[j].0);
                    }
                }
            }
            let got = self.inventory.view_group(key.as_str());
            match got {
                Some(group) => {
                    proof {
                        assert forall|j: int| 0 <= j < i implies seq_lookup(
                            self.inventory.group_cache_model(),
                            #[trigger] res@[j].0@,
                        ) == Some(res@[j].1@) by {
                            lemma_cached_after(cache, key@, group@, res@[j].0@);
                        }
                        assert forall|k: Seq<char>| #[trigger]
                            seq_lookup(start.group_cache_model(), k) is Some implies seq_lookup(
                                self.inventory.group_cache_model(),
                                k,
                            ) == seq_lookup(start.group_cache_model(), k) by {
                            lemma_cached_after(cache, key@, group@, k);
                        }
                    }
                    proof {
                        assert forall|k: Seq<char>| #[trigger]
                            seq_lookup(self.inventory.group_cache_model(), k) is Some implies seq_lookup(
                                start.group_cache_model(),
                                k,
                            ) is Some || exists|j: int| 0 <= j < i + 1 && gs[j].0 == k by {
                            lemma_cached_after(cache, key@, group@, k);
                            if k == key@ {
                                assert(gs[i as int].0 == k);
                            } else {
                                assert(seq_lookup(cache, k) is Some);
                            }
                        }
                    }
                    let ghost prev = res@;
                    res.push((key.clone(), group));
                    proof {
                        assert(before.transformer() == start.transformer());
                        assert(before.options_arg() == start.options_arg());
                        assert forall|j: int|
                            #![trigger res@[j]]
                            start.has_transform() && 0 <= j < i + 1 && seq_lookup(
                                start.group_cache_model(),
                                res@[j].0@,
                            ) is None && (forall|l: int| 0 <= l < j ==> res@[l].0@ != res@[j].0@)
                            implies start.is_transformed_group(
                            seq_lookup(gs, res@[j].0@).unwrap(),
                            res@[j].1,
                        ) by {
                            if j < i {
                                assert(res@[j] == prev[j]);
                                assert forall|l: int| 0 <= l < j implies prev[l].0@ != prev[j].0@ by {
                                    assert(res@[l] == prev[l]);
                                }
                            } else {
                                assert(res@[j].0@ == key@);
                                assert forall|l: int| 0 <= l < i implies prev[l].0@ != key@ by {
                                    assert(res@[l] == prev[l]);
                                }
                            }
                        }
                    }
                },
                None => {},
            }
            i = i + 1;
        }
        res
    }
}

} // verus!
