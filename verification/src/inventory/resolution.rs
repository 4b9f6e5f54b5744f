//! Laws of host and group resolution: how connection options and data are
//! inherited, how a group's parents apply in order, and how connection
//! parameters fall back to the host's own fields.
use vstd::prelude::*;
use crate::json::{fields_get, fields_unique, lemma_merge_get, JsonValue};
use crate::types::{keys_unique, lemma_index_of, seq_lookup};
use super::merge::{
    law_merge_connection_options, merged_options, options_overlay, or_else, overlay,
    overlay_with_groups,
};
use super::models::{empty_node, resolve_params_spec, NodeView, OptionsView};
use super::runtime::{
    fold_host_groups_spec, fold_parents_spec, parent_names, resolve_group_spec, resolve_host_spec,
    unvisited,
};

verus! {

/// The options registered for `connection_type` in an optional options map.
pub open spec fn options_for(
    m: Option<Seq<(Seq<char>, OptionsView)>>,
    connection_type: Seq<char>,
) -> Option<OptionsView> {
    match m {
        Some(m) => seq_lookup(m, connection_type),
        None => None,
    }
}

/// The options for `connection_type` after a layer naming `upper` for it is
/// merged over one naming `lower`: the upper options alone when the lower
/// layer has none, the lower ones overlaid field by field when both do.
pub open spec fn inherited_options(lower: Option<OptionsView>, upper: Option<OptionsView>) -> Option<
    OptionsView,
> {
    match upper {
        None => lower,
        Some(o) => Some(
            match lower {
                Some(e) => options_overlay(e, o),
                None => o,
            },
        ),
    }
}

/// The defaults and groups of a host merged in order, before the host itself.
pub open spec fn inherited_layer(
    gs: Seq<(Seq<char>, NodeView)>,
    defaults: Option<NodeView>,
    h: NodeView,
) -> NodeView {
    let base = match defaults {
        Some(d) => overlay(empty_node(), d),
        None => empty_node(),
    };
    fold_host_groups_spec(gs, parent_names(h), parent_names(h).len(), base).acc
}

proof fn lemma_lookup_empty(name: Seq<char>)
    ensures
        seq_lookup(Seq::<(Seq<char>, OptionsView)>::empty(), name) is None,
{
    lemma_index_of(Seq::<(Seq<char>, OptionsView)>::empty(), name);
}

/// Merging connection options, per connection type: a type the upper map
/// does not name keeps the lower map's options; one it names gets the lower
/// options overlaid field by field with the upper ones.
pub proof fn law_merged_options_per_type(
    lower: Option<Seq<(Seq<char>, OptionsView)>>,
    upper: Option<Seq<(Seq<char>, OptionsView)>>,
    connection_type: Seq<char>,
)
    requires
        upper matches Some(m) ==> keys_unique(m),
    ensures
        options_for(merged_options(lower, upper), connection_type) == inherited_options(
            options_for(lower, connection_type),
            options_for(upper, connection_type),
        ),
        upper is None ==> merged_options(lower, upper) == lower,
        upper is Some ==> merged_options(lower, upper) is Some,
{
    if let Some(m) = upper {
        let t = match lower {
            Some(t) => t,
            None => Seq::empty(),
        };
        law_merge_connection_options(t, m, connection_type);
        lemma_lookup_empty(connection_type);
    }
}

/// A host's connection options are merged over what it inherits: for every
/// connection type the host does not name, its resolution keeps the options
/// inherited from its defaults and groups; for one it names, the inherited
/// options are overlaid field by field with the host's.
pub proof fn law_host_options_merge_over_inherited(
    hosts: Seq<(Seq<char>, NodeView)>,
    gs: Seq<(Seq<char>, NodeView)>,
    defaults: Option<NodeView>,
    name: Seq<char>,
    connection_type: Seq<char>,
)
    requires
        seq_lookup(hosts, name) matches Some(h) && (h.connection_options matches Some(m) ==> keys_unique(m)),
    ensures
        ({
            let h = seq_lookup(hosts, name).unwrap();
            let layer = inherited_layer(gs, defaults, h);
            let r = resolve_host_spec(hosts, gs, defaults, name).unwrap();
            &&& r.connection_options == merged_options(layer.connection_options, h.connection_options)
            &&& options_for(r.connection_options, connection_type) == inherited_options(
                options_for(layer.connection_options, connection_type),
                options_for(h.connection_options, connection_type),
            )
            &&& h.connection_options is None ==> r.connection_options == layer.connection_options
        }),
{
    let h = seq_lookup(hosts, name).unwrap();
    let layer = inherited_layer(gs, defaults, h);
    law_merged_options_per_type(layer.connection_options, h.connection_options, connection_type);
}

/// A host's data is merged over what it inherits from its defaults and
/// groups: with no data of its own it keeps the inherited data, and when both
/// are objects a key reads the host's value if the host has the key and the
/// inherited value otherwise.
pub proof fn law_host_data_merges_over_inherited(
    hosts: Seq<(Seq<char>, NodeView)>,
    gs: Seq<(Seq<char>, NodeView)>,
    defaults: Option<NodeView>,
    name: Seq<char>,
    key: Seq<char>,
)
    requires
        seq_lookup(hosts, name) matches Some(h) && (h.data matches Some(JsonValue::Object(f)) ==> fields_unique(f)),
    ensures
        ({
            let h = seq_lookup(hosts, name).unwrap();
            let layer = inherited_layer(gs, defaults, h);
            let r = resolve_host_spec(hosts, gs, defaults, name).unwrap();
            &&& h.data is None ==> r.data == layer.data
            &&& match (layer.data, h.data) {
                (Some(JsonValue::Object(pf)), Some(JsonValue::Object(hf))) => r.data matches Some(
                    JsonValue::Object(rf),
                ) && fields_get(rf, key) == match fields_get(hf, key) {
                    Some(v) => Some(v),
                    None => fields_get(pf, key),
                },
                _ => true,
            }
        }),
{
    let h = seq_lookup(hosts, name).unwrap();
    let layer = inherited_layer(gs, defaults, h);
    if let (Some(JsonValue::Object(pf)), Some(JsonValue::Object(hf))) = (layer.data, h.data) {
        lemma_merge_get(pf, hf, key);
    }
}

/// For a host without parent groups, the resolved options of a connection type
/// are the defaults' options for it, overlaid field by field with the host's
/// when the host names that type: a field the host leaves unset is inherited
/// from the defaults, and a type only the defaults name is kept whole.
pub proof fn law_host_options_over_defaults(
    hosts: Seq<(Seq<char>, NodeView)>,
    gs: Seq<(Seq<char>, NodeView)>,
    defaults: NodeView,
    name: Seq<char>,
    connection_type: Seq<char>,
)
    requires
        seq_lookup(hosts, name) matches Some(h) && parent_names(h).len() == 0 && (
        h.connection_options matches Some(m) ==> keys_unique(m)),
        defaults.connection_options matches Some(m) ==> keys_unique(m),
    ensures
        ({
            let h = seq_lookup(hosts, name).unwrap();
            let r = resolve_host_spec(hosts, gs, Some(defaults), name).unwrap();
            let inherited = options_for(defaults.connection_options, connection_type);
            &&& options_for(r.connection_options, connection_type) == inherited_options(
                inherited,
                options_for(h.connection_options, connection_type),
            )
            &&& (options_for(h.connection_options, connection_type) is Some && inherited is Some) ==> ({
                let o = options_for(h.connection_options, connection_type).unwrap();
                let d = inherited.unwrap();
                let ro = options_for(r.connection_options, connection_type).unwrap();
                &&& o.username is None ==> ro.username == d.username
                &&& o.username is Some ==> ro.username == o.username
                &&& o.port is None ==> ro.port == d.port
                &&& o.port is Some ==> ro.port == o.port
            })
        }),
{
    let h = seq_lookup(hosts, name).unwrap();
    let base = overlay(empty_node(), defaults);
    assert(inherited_layer(gs, Some(defaults), h) == base);
    law_merged_options_per_type(None, defaults.connection_options, connection_type);
    law_host_options_merge_over_inherited(hosts, gs, Some(defaults), name, connection_type);
}

/// The `j`-th parent (counting from 1) of a group as it resolves while the
/// group is resolved, with the stack and memo left by the parents before it;
/// nothing when it does not resolve.
pub open spec fn parent_group_step(
    gs: Seq<(Seq<char>, NodeView)>,
    parents: Seq<Seq<char>>,
    bound: nat,
    stack: Seq<Seq<char>>,
    memo: Seq<(Seq<char>, NodeView)>,
    j: int,
) -> Option<NodeView> {
    let prev = fold_parents_spec(gs, parents, (j - 1) as nat, bound, stack, memo);
    if unvisited(gs, prev.stack) > bound {
        None
    } else {
        resolve_group_spec(gs, parents[j - 1], prev.stack, prev.memo).result
    }
}

/// The `j`-th parent of a group resolves and sets the field `f`.
pub open spec fn parent_sets<A>(
    gs: Seq<(Seq<char>, NodeView)>,
    parents: Seq<Seq<char>>,
    bound: nat,
    stack: Seq<Seq<char>>,
    memo: Seq<(Seq<char>, NodeView)>,
    j: int,
    f: spec_fn(NodeView) -> Option<A>,
) -> bool {
    parent_group_step(gs, parents, bound, stack, memo, j) matches Some(p) && f(p) is Some
}

/// A field that merging a group over a group takes from the upper group when set.
pub open spec fn group_overlaid_field<A>(f: spec_fn(NodeView) -> Option<A>) -> bool {
    forall|a: NodeView, g: NodeView| #[trigger] f(overlay_with_groups(a, g)) == or_else(f(g), f(a))
}

/// After merging the first `k` parents of a group, a field that merges by
/// overlay holds the value of the last parent that sets it, or none.
proof fn lemma_fold_parents_field<A>(
    gs: Seq<(Seq<char>, NodeView)>,
    parents: Seq<Seq<char>>,
    bound: nat,
    stack: Seq<Seq<char>>,
    memo: Seq<(Seq<char>, NodeView)>,
    k: nat,
    f: spec_fn(NodeView) -> Option<A>,
)
    requires
        k <= parents.len(),
        group_overlaid_field(f),
    ensures
        forall|j: int|
            1 <= j <= k && #[trigger] parent_sets(gs, parents, bound, stack, memo, j, f) && (forall|
                i: int,
            | j < i <= k ==> !parent_sets(gs, parents, bound, stack, memo, i, f)) ==> f(
                fold_parents_spec(gs, parents, k, bound, stack, memo).acc,
            ) == f(parent_group_step(gs, parents, bound, stack, memo, j).unwrap()),
        (forall|i: int| 1 <= i <= k ==> !#[trigger] parent_sets(gs, parents, bound, stack, memo, i, f))
            ==> f(fold_parents_spec(gs, parents, k, bound, stack, memo).acc) == f(empty_node()),
    decreases k,
{
    if k > 0 {
        lemma_fold_parents_field(gs, parents, bound, stack, memo, (k - 1) as nat, f);
        let prev = fold_parents_spec(gs, parents, (k - 1) as nat, bound, stack, memo);
        let cur = fold_parents_spec(gs, parents, k, bound, stack, memo);
        if let Some(g) = parent_group_step(gs, parents, bound, stack, memo, k as int) {
            assert(cur.acc == overlay_with_groups(prev.acc, g));
            assert(f(overlay_with_groups(prev.acc, g)) == or_else(f(g), f(prev.acc)));
        } else {
            assert(cur.acc == prev.acc);
        }
        assert forall|j: int|
            1 <= j <= k && #[trigger] parent_sets(gs, parents, bound, stack, memo, j, f) && (forall|
                i: int,
            | j < i <= k ==> !parent_sets(gs, parents, bound, stack, memo, i, f)) implies f(cur.acc)
            == f(parent_group_step(gs, parents, bound, stack, memo, j).unwrap()) by {
            if j < k {
                assert(!parent_sets(gs, parents, bound, stack, memo, k as int, f));
            }
        }
        assert((forall|i: int|
            1 <= i <= k ==> !#[trigger] parent_sets(gs, parents, bound, stack, memo, i, f)) ==> f(
            cur.acc,
        ) == f(empty_node())) by {
            if forall|i: int| 1 <= i <= k ==> !#[trigger] parent_sets(gs, parents, bound, stack, memo, i, f) {
                assert(!parent_sets(gs, parents, bound, stack, memo, k as int, f));
            }
        }
    }
}

/// A group's parents apply in order: for a field the group leaves unset, the
/// resolved group holds the value of the last of its parents (each as
/// resolved) that sets it, and nothing when no parent does; a field the group
/// sets is its own.
pub proof fn law_later_parents_win(
    gs: Seq<(Seq<char>, NodeView)>,
    name: Seq<char>,
    stack: Seq<Seq<char>>,
    memo: Seq<(Seq<char>, NodeView)>,
    j: int,
)
    requires
        seq_lookup(memo, name) is None,
        !stack.contains(name),
        seq_lookup(gs, name) is Some,
    ensures
        ({
            let g = seq_lookup(gs, name).unwrap();
            let parents = parent_names(g);
            let inner = stack.push(name);
            let bound = unvisited(gs, inner);
            let r = resolve_group_spec(gs, name, stack, memo).result.unwrap();
            let f_hostname = |n: NodeView| n.hostname;
            let f_port = |n: NodeView| n.port;
            let f_username = |n: NodeView| n.username;
            let f_password = |n: NodeView| n.password;
            let f_platform = |n: NodeView| n.platform;
            &&& g.hostname is Some ==> r.hostname == g.hostname
            &&& g.port is Some ==> r.port == g.port
            &&& g.username is Some ==> r.username == g.username
            &&& g.password is Some ==> r.password == g.password
            &&& g.platform is Some ==> r.platform == g.platform
            &&& (g.hostname is None && 1 <= j <= parents.len() && parent_sets(gs, parents, bound, inner, memo, j, f_hostname)
                && (forall|i: int| j < i <= parents.len() ==> !parent_sets(gs, parents, bound, inner, memo, i, f_hostname)))
                ==> r.hostname == parent_group_step(gs, parents, bound, inner, memo, j).unwrap().hostname
            &&& (g.hostname is None && (forall|i: int|
                1 <= i <= parents.len() ==> !#[trigger] parent_sets(gs, parents, bound, inner, memo, i, f_hostname)))
                ==> r.hostname is None
            &&& (g.port is None && 1 <= j <= parents.len() && parent_sets(gs, parents, bound, inner, memo, j, f_port)
                && (forall|i: int| j < i <= parents.len() ==> !parent_sets(gs, parents, bound, inner, memo, i, f_port)))
                ==> r.port == parent_group_step(gs, parents, bound, inner, memo, j).unwrap().port
            &&& (g.port is None && (forall|i: int|
                1 <= i <= parents.len() ==> !#[trigger] parent_sets(gs, parents, bound, inner, memo, i, f_port)))
                ==> r.port is None
            &&& (g.username is None && 1 <= j <= parents.len() && parent_sets(gs, parents, bound, inner, memo, j, f_username)
                && (forall|i: int| j < i <= parents.len() ==> !parent_sets(gs, parents, bound, inner, memo, i, f_username)))
                ==> r.username == parent_group_step(gs, parents, bound, inner, memo, j).unwrap().username
            &&& (g.username is None && (forall|i: int|
                1 <= i <= parents.len() ==> !#[trigger] parent_sets(gs, parents, bound, inner, memo, i, f_username)))
                ==> r.username is None
            &&& (g.password is None && 1 <= j <= parents.len() && parent_sets(gs, parents, bound, inner, memo, j, f_password)
                && (forall|i: int| j < i <= parents.len() ==> !parent_sets(gs, parents, bound, inner, memo, i, f_password)))
                ==> r.password == parent_group_step(gs, parents, bound, inner, memo, j).unwrap().password
            &&& (g.password is None && (forall|i: int|
                1 <= i <= parents.len() ==> !#[trigger] parent_sets(gs, parents, bound, inner, memo, i, f_password)))
                ==> r.password is None
            &&& (g.platform is None && 1 <= j <= parents.len() && parent_sets(gs, parents, bound, inner, memo, j, f_platform)
                && (forall|i: int| j < i <= parents.len() ==> !parent_sets(gs, parents, bound, inner, memo, i, f_platform)))
                ==> r.platform == parent_group_step(gs, parents, bound, inner, memo, j).unwrap().platform
            &&& (g.platform is None && (forall|i: int|
                1 <= i <= parents.len() ==> !#[trigger] parent_sets(gs, parents, bound, inner, memo, i, f_platform)))
                ==> r.platform is None
        }),
{
    let g = seq_lookup(gs, name).unwrap();
    let parents = parent_names(g);
    let inner = stack.push(name);
    let bound = unvisited(gs, inner);
    let f_hostname = |n: NodeView| n.hostname;
    let f_port = |n: NodeView| n.port;
    let f_username = |n: NodeView| n.username;
    let f_password = |n: NodeView| n.password;
    let f_platform = |n: NodeView| n.platform;
    assert(group_overlaid_field(f_hostname));
    lemma_fold_parents_field(gs, parents, bound, inner, memo, parents.len(), f_hostname);
    assert(group_overlaid_field(f_port));
    lemma_fold_parents_field(gs, parents, bound, inner, memo, parents.len(), f_port);
    assert(group_overlaid_field(f_username));
    lemma_fold_parents_field(gs, parents, bound, inner, memo, parents.len(), f_username);
    assert(group_overlaid_field(f_password));
    lemma_fold_parents_field(gs, parents, bound, inner, memo, parents.len(), f_password);
    assert(group_overlaid_field(f_platform));
    lemma_fold_parents_field(gs, parents, bound, inner, memo, parents.len(), f_platform);
}

/// A group's data is merged over what it inherits from its parents: with no
/// data of its own it keeps the inherited data, and when both are objects a
/// key reads the group's value if the group has the key and the inherited
/// value otherwise, so a key present only in a parent's data stays. Its
/// connection options are merged over the inherited ones per connection type.
pub proof fn law_group_data_merges_over_parents(
    gs: Seq<(Seq<char>, NodeView)>,
    name: Seq<char>,
    stack: Seq<Seq<char>>,
    memo: Seq<(Seq<char>, NodeView)>,
    key: Seq<char>,
    connection_type: Seq<char>,
)
    requires
        seq_lookup(memo, name) is None,
        !stack.contains(name),
        seq_lookup(gs, name) matches Some(g) && (g.data matches Some(JsonValue::Object(f)) ==> fields_unique(f))
            && (g.connection_options matches Some(m) ==> keys_unique(m)),
    ensures
        ({
            let g = seq_lookup(gs, name).unwrap();
            let parents = parent_names(g);
            let inner = stack.push(name);
            let inherited = fold_parents_spec(gs, parents, parents.len(), unvisited(gs, inner), inner, memo).acc;
            let r = resolve_group_spec(gs, name, stack, memo).result.unwrap();
            &&& g.data is None ==> r.data == inherited.data
            &&& match (inherited.data, g.data) {
                (Some(JsonValue::Object(pf)), Some(JsonValue::Object(gf))) => r.data matches Some(
                    JsonValue::Object(rf),
                ) && fields_get(rf, key) == match fields_get(gf, key) {
                    Some(v) => Some(v),
                    None => fields_get(pf, key),
                },
                _ => true,
            }
            &&& options_for(r.connection_options, connection_type) == inherited_options(
                options_for(inherited.connection_options, connection_type),
                options_for(g.connection_options, connection_type),
            )
        }),
{
    let g = seq_lookup(gs, name).unwrap();
    let parents = parent_names(g);
    let inner = stack.push(name);
    let inherited = fold_parents_spec(gs, parents, parents.len(), unvisited(gs, inner), inner, memo).acc;
    if let (Some(JsonValue::Object(pf)), Some(JsonValue::Object(gf))) = (inherited.data, g.data) {
        lemma_merge_get(pf, gf, key);
    }
    law_merged_options_per_type(inherited.connection_options, g.connection_options, connection_type);
}

/// Connection parameters for a type: each field the options registered for
/// that type set is theirs, and each field they leave unset (or every field,
/// when the type has no options) is the host's own, the hostname defaulting
/// to empty.
pub proof fn law_params_fall_back_to_host(host: NodeView, connection_type: Seq<char>)
    ensures
        ({
            let p = resolve_params_spec(host, connection_type);
            let own_hostname = match host.hostname {
                Some(h) => h,
                None => Seq::<char>::empty(),
            };
            match options_for(host.connection_options, connection_type) {
                None => {
                    &&& p.hostname == own_hostname
                    &&& p.port == host.port
                    &&& p.username == host.username
                    &&& p.password == host.password
                    &&& p.platform == host.platform
                    &&& p.extras is None
                },
                Some(o) => {
                    &&& o.hostname matches Some(h) ==> p.hostname == h
                    &&& o.hostname is None ==> p.hostname == own_hostname
                    &&& o.port is Some ==> p.port == o.port
                    &&& o.port is None ==> p.port == host.port
                    &&& o.username is Some ==> p.username == o.username
                    &&& o.username is None ==> p.username == host.username
                    &&& o.password is Some ==> p.password == o.password
                    &&& o.password is None ==> p.password == host.password
                    &&& o.platform is Some ==> p.platform == o.platform
                    &&& o.platform is None ==> p.platform == host.platform
                    &&& o.extras is Some ==> p.extras == o.extras
                    &&& o.extras is None ==> p.extras is None
                },
            }
        }),
{
}

} // verus!
