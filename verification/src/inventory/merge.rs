//! How inventory layers are merged: a later layer's set fields override, data
//! objects are merged key by key, and connection options are merged per
//! connection type and field by field.
use vstd::prelude::*;
use crate::json::{fields_get, fields_merge, fields_unique, lemma_merge_get, JsonFields, JsonValue};
use crate::text::{clone_opt, opt_view};
use crate::types::{keys_unique, seq_insert, seq_lookup, lemma_index_of, lemma_insert_lookup, CustomTreeMap};
use super::models::{
    clone_data, clone_extras, clone_groups, data_view, empty_node, extras_view, groups_view,
    options_map_view, ConnectionOptions, Data, Defaults, Group, Host, NodeView, OptionsView,
};

verus! {

/// `s` when it is set, else `t`.
pub open spec fn or_else<A>(s: Option<A>, t: Option<A>) -> Option<A> {
    if s is Some {
        s
    } else {
        t
    }
}

/// Data after merging `source` into `target`: two objects are merged key by key
/// (source keys win); otherwise a present source replaces the target.
pub open spec fn merged_data(target: Option<JsonValue>, source: Option<JsonValue>) -> Option<JsonValue> {
    match source {
        None => target,
        Some(s) => match (target, s) {
            (Some(JsonValue::Object(tf)), JsonValue::Object(sf)) => Some(
                JsonValue::Object(fields_merge(tf, sf)),
            ),
            _ => Some(s),
        },
    }
}

/// Options `target` with every field that `source` sets taken from `source`.
pub open spec fn options_overlay(target: OptionsView, source: OptionsView) -> OptionsView {
    OptionsView {
        hostname: or_else(source.hostname, target.hostname),
        port: or_else(source.port, target.port),
        username: or_else(source.username, target.username),
        password: or_else(source.password, target.password),
        platform: or_else(source.platform, target.platform),
        extras: or_else(source.extras, target.extras),
    }
}

/// An options map with one `(name, options)` entry merged in: an existing entry
/// is overlaid field by field, a new one is added.
pub open spec fn merge_entry(
    target: Seq<(Seq<char>, OptionsView)>,
    name: Seq<char>,
    options: OptionsView,
) -> Seq<(Seq<char>, OptionsView)> {
    match seq_lookup(target, name) {
        Some(existing) => seq_insert(target, name, options_overlay(existing, options)),
        None => seq_insert(target, name, options),
    }
}

/// `target` with the first `n` entries of `source` merged in, in order.
pub open spec fn merge_entries(
    target: Seq<(Seq<char>, OptionsView)>,
    source: Seq<(Seq<char>, OptionsView)>,
    n: int,
) -> Seq<(Seq<char>, OptionsView)>
    decreases n,
{
    if n <= 0 {
        target
    } else {
        let prev = merge_entries(target, source, n - 1);
        merge_entry(prev, source[n - 1].0, source[n - 1].1)
    }
}

/// Connection options after merging `source` into `target`.
pub open spec fn merged_options(
    target: Option<Seq<(Seq<char>, OptionsView)>>,
    source: Option<Seq<(Seq<char>, OptionsView)>>,
) -> Option<Seq<(Seq<char>, OptionsView)>> {
    match source {
        None => target,
        Some(s) => Some(
            merge_entries(
                match target {
                    Some(t) => t,
                    None => Seq::empty(),
                },
                s,
                s.len() as int,
            ),
        ),
    }
}

/// `target` overlaid with `source`: set scalar fields of `source` win, data and
/// connection options are merged; parent groups are kept from `target`.
pub open spec fn overlay(target: NodeView, source: NodeView) -> NodeView {
    NodeView {
        hostname: or_else(source.hostname, target.hostname),
        port: or_else(source.port, target.port),
        username: or_else(source.username, target.username),
        password: or_else(source.password, target.password),
        platform: or_else(source.platform, target.platform),
        groups: target.groups,
        data: merged_data(target.data, source.data),
        connection_options: merged_options(target.connection_options, source.connection_options),
    }
}

/// Like [`overlay`], and the parent groups of `source` replace those of `target` when set.
pub open spec fn overlay_with_groups(target: NodeView, source: NodeView) -> NodeView {
    NodeView { groups: or_else(source.groups, target.groups), ..overlay(target, source) }
}

/// Merging the options of one connection type: each field the source sets
/// is the source's value, and each field it leaves unset keeps the target's.
pub proof fn law_options_overlay_fields(target: OptionsView, source: OptionsView)
    ensures
        ({
            let r = options_overlay(target, source);
            &&& source.hostname is Some ==> r.hostname == source.hostname
            &&& source.hostname is None ==> r.hostname == target.hostname
            &&& source.port is Some ==> r.port == source.port
            &&& source.port is None ==> r.port == target.port
            &&& source.username is Some ==> r.username == source.username
            &&& source.username is None ==> r.username == target.username
            &&& source.password is Some ==> r.password == source.password
            &&& source.password is None ==> r.password == target.password
            &&& source.platform is Some ==> r.platform == source.platform
            &&& source.platform is None ==> r.platform == target.platform
            &&& source.extras is Some ==> r.extras == source.extras
            &&& source.extras is None ==> r.extras == target.extras
        }),
{
}

/// Merging one layer over another: each scalar field the upper layer sets is
/// its value, each it leaves unset keeps the lower layer's, and the parent
/// groups are the lower layer's unless the upper one sets them (for a group or
/// host merged with its groups).
pub proof fn law_overlay_fields(target: NodeView, source: NodeView)
    ensures
        ({
            let r = overlay(target, source);
            let rg = overlay_with_groups(target, source);
            &&& source.hostname is Some ==> r.hostname == source.hostname && rg.hostname == source.hostname
            &&& source.hostname is None ==> r.hostname == target.hostname && rg.hostname == target.hostname
            &&& source.port is Some ==> r.port == source.port && rg.port == source.port
            &&& source.port is None ==> r.port == target.port && rg.port == target.port
            &&& source.username is Some ==> r.username == source.username && rg.username == source.username
            &&& source.username is None ==> r.username == target.username && rg.username == target.username
            &&& source.password is Some ==> r.password == source.password && rg.password == source.password
            &&& source.password is None ==> r.password == target.password && rg.password == target.password
            &&& source.platform is Some ==> r.platform == source.platform && rg.platform == source.platform
            &&& source.platform is None ==> r.platform == target.platform && rg.platform == target.platform
            &&& r.groups == target.groups
            &&& source.groups is Some ==> rg.groups == source.groups
            &&& source.groups is None ==> rg.groups == target.groups
            &&& source.data is None ==> r.data == target.data && rg.data == target.data
            &&& source.connection_options is None ==> r.connection_options == target.connection_options
                && rg.connection_options == target.connection_options
        }),
{
}

/// Merging data objects: the result is an object in which a key reads the
/// source's value when the source has it, and the target's otherwise.
pub proof fn law_merge_data_objects(target: JsonFields, source: JsonFields, key: Seq<char>)
    requires
        fields_unique(source),
    ensures
        merged_data(Some(JsonValue::Object(target)), Some(JsonValue::Object(source))) == Some(
            JsonValue::Object(fields_merge(target, source)),
        ),
        fields_get(fields_merge(target, source), key) == match fields_get(source, key) {
            Some(v) => Some(v),
            None => fields_get(target, key),
        },
{
    lemma_merge_get(target, source, key);
}

/// Merging data otherwise: no source leaves the target; a source that is not
/// merged key by key (either side not an object) replaces the target.
pub proof fn law_merge_data_replaces(target: Option<JsonValue>, source: JsonValue)
    requires
        !(target matches Some(JsonValue::Object(_)) && source is Object),
    ensures
        merged_data(target, None) == target,
        merged_data(target, Some(source)) == Some(source),
{
}

/// Merging connection options (source names distinct): a connection type the
/// source does not name keeps the target's options; one it names gets the
/// target's options overlaid field by field with the source's, or the source's
/// options when the target has none.
pub proof fn law_merge_connection_options(
    target: Seq<(Seq<char>, OptionsView)>,
    source: Seq<(Seq<char>, OptionsView)>,
    name: Seq<char>,
)
    requires
        keys_unique(source),
    ensures
        seq_lookup(merge_entries(target, source, source.len() as int), name) == match seq_lookup(
            source,
            name,
        ) {
            None => seq_lookup(target, name),
            Some(o) => Some(
                match seq_lookup(target, name) {
                    Some(e) => options_overlay(e, o),
                    None => o,
                },
            ),
        },
{
    lemma_merge_entries_lookup(target, source, source.len() as int, name);
    lemma_index_of(source, name);
    if let Some(i) = crate::types::seq_index_of(source, name) {
        assert(source.subrange(0, source.len() as int) =~= source);
    }
}

/// The lookup of `name` after merging the first `n` source entries.
proof fn lemma_merge_entries_lookup(
    target: Seq<(Seq<char>, OptionsView)>,
    source: Seq<(Seq<char>, OptionsView)>,
    n: int,
    name: Seq<char>,
)
    requires
        keys_unique(source),
        0 <= n <= source.len(),
    ensures
        (forall|j: int| 0 <= j < n ==> source[j].0 != name) ==> seq_lookup(
            merge_entries(target, source, n),
            name,
        ) == seq_lookup(target, name),
        forall|j: int|
            0 <= j < n && source[j].0 == name ==> seq_lookup(merge_entries(target, source, n), name)
                == Some(
                match seq_lookup(target, name) {
                    Some(e) => options_overlay(e, source[j].1),
                    None => source[j].1,
                },
            ),
    decreases n,
{
    if n > 0 {
        lemma_merge_entries_lookup(target, source, n - 1, name);
        let prev = merge_entries(target, source, n - 1);
        let k = source[n - 1].0;
        let o = source[n - 1].1;
        match seq_lookup(prev, k) {
            Some(existing) => {
                lemma_insert_lookup(prev, k, options_overlay(existing, o), name);
            },
            None => {
                lemma_insert_lookup(prev, k, o, name);
            },
        }
        if k == name {
            assert forall|j: int| 0 <= j < n - 1 implies source[j].0 != name by {
                assert(source[j].0 != source[n - 1].0);
            }
        }
    }
}

/// Overrides `target` with `source` when `source` is set.
pub fn merge_option_string(target: &mut Option<String>, source: &Option<String>)
    ensures
        opt_view(*final(target)) == or_else(opt_view(*source), opt_view(*old(target))),
{
    if source.is_some() {
        *target = clone_opt(source);
    }
}

/// Overrides `target` with `source` when `source` is set.
pub fn merge_option<T: Copy>(target: &mut Option<T>, source: &Option<T>)
    ensures
        *final(target) == or_else(*source, *old(target)),
{
    if let Some(value) = source {
        *target = Some(*value);
    }
}

/// Merges `source` data into `target`; see [`merged_data`].
pub fn merge_data(target: &mut Option<Data>, source: &Option<Data>)
    ensures
        data_view(*final(target)) == merged_data(data_view(*old(target)), data_view(*source)),
{
    match source {
        None => {},
        Some(source_data) => {
            let both_objects = match target {
                Some(t) => t.0.is_object() && source_data.0.is_object(),
                None => false,
            };
            if both_objects {
                let taken = target.take();
                let t = taken.unwrap();
                match (t.0, &source_data.0) {
                    (JsonValue::Object(tf), JsonValue::Object(sf)) => {
                        let merged = tf.merge_from(sf);
                        *target = Some(Data(JsonValue::Object(merged)));
                    },
                    (other, _) => {
                        *target = Some(Data(other));
                    },
                }
            } else {
                *target = Some(source_data.clone());
            }
        },
    }
}

/// Overrides each field of `target` that `source` sets.
pub fn merge_connection_options_fields(target: &mut ConnectionOptions, source: &ConnectionOptions)
    ensures
        final(target)@ == options_overlay(old(target)@, source@),
        source@.hostname is Some ==> final(target)@.hostname == source@.hostname,
        source@.hostname is None ==> final(target)@.hostname == old(target)@.hostname,
        source@.port is Some ==> final(target)@.port == source@.port,
        source@.port is None ==> final(target)@.port == old(target)@.port,
        source@.username is Some ==> final(target)@.username == source@.username,
        source@.username is None ==> final(target)@.username == old(target)@.username,
        source@.password is Some ==> final(target)@.password == source@.password,
        source@.password is None ==> final(target)@.password == old(target)@.password,
        source@.platform is Some ==> final(target)@.platform == source@.platform,
        source@.platform is None ==> final(target)@.platform == old(target)@.platform,
        source@.extras is Some ==> final(target)@.extras == source@.extras,
        source@.extras is None ==> final(target)@.extras == old(target)@.extras,
{
    if source.hostname.is_some() {
        target.hostname = clone_opt(&source.hostname);
    }
    if source.port.is_some() {
        target.port = source.port;
    }
    if source.username.is_some() {
        target.username = clone_opt(&source.username);
    }
    if source.password.is_some() {
        target.password = clone_opt(&source.password);
    }
    if source.platform.is_some() {
        target.platform = clone_opt(&source.platform);
    }
    if source.extras.is_some() {
        target.extras = clone_extras(&source.extras);
    }
}

/// Merges the connection options of `source` into `target`; see [`merged_options`].
pub fn merge_connection_options(
    target: &mut Option<CustomTreeMap<ConnectionOptions>>,
    source: &Option<CustomTreeMap<ConnectionOptions>>,
)
    ensures
        options_map_view(*final(target)) == merged_options(
            options_map_view(*old(target)),
            options_map_view(*source),
        ),
{
    let source_map = match source {
        Some(m) => m,
        None => return ,
    };
    let mut map = match target.take() {
        Some(m) => m,
        None => CustomTreeMap::new(),
    };
    let ghost start = map@;
    let mut i: usize = 0;
    while i < source_map.len()
        invariant
            i <= source_map@.len(),
            map@ == merge_entries(start, source_map@, i as int),
        decreases source_map@.len() - i,
    {
        let name = source_map.key_at(i);
        let options = source_map.value_at(i);
        proof {
            lemma_index_of(map@, name@);
        }
        match map.index_of(name.as_str()) {
            Some(k) => {
                let mut existing = map.value_at(k).clone();
                merge_connection_options_fields(&mut existing, options);
                map.insert(name.as_str(), existing);
            },
            None => {
                map.insert(name.as_str(), options.clone());
            },
        }
        i = i + 1;
    }
    *target = Some(map);
}

/// Applies `source` over `target`, keeping `target`'s parent groups.
pub fn merge_defaults_into_host(target: &mut Host, defaults: &Defaults)
    ensures
        final(target)@ == overlay(old(target)@, defaults@),
{
    merge_option_string(&mut target.hostname, &defaults.hostname);
    merge_option(&mut target.port, &defaults.port);
    merge_option_string(&mut target.username, &defaults.username);
    merge_option_string(&mut target.password, &defaults.password);
    merge_option_string(&mut target.platform, &defaults.platform);
    merge_data(&mut target.data, &defaults.data);
    merge_connection_options(&mut target.connection_options, &defaults.connection_options);
}

/// Applies a group over a host, keeping the host's parent groups.
pub fn merge_group_into_host(target: &mut Host, group: &Group)
    ensures
        final(target)@ == overlay(old(target)@, group@),
{
    merge_option_string(&mut target.hostname, &group.hostname);
    merge_option(&mut target.port, &group.port);
    merge_option_string(&mut target.username, &group.username);
    merge_option_string(&mut target.password, &group.password);
    merge_option_string(&mut target.platform, &group.platform);
    merge_data(&mut target.data, &group.data);
    merge_connection_options(&mut target.connection_options, &group.connection_options);
}

/// Applies a host over a host; its parent groups replace the target's when set.
pub fn merge_host_into_host(target: &mut Host, host: &Host)
    ensures
        final(target)@ == overlay_with_groups(old(target)@, host@),
{
    merge_option_string(&mut target.hostname, &host.hostname);
    merge_option(&mut target.port, &host.port);
    merge_option_string(&mut target.username, &host.username);
    merge_option_string(&mut target.password, &host.password);
    merge_option_string(&mut target.platform, &host.platform);
    merge_data(&mut target.data, &host.data);
    merge_connection_options(&mut target.connection_options, &host.connection_options);
    if host.groups.is_some() {
        target.groups = clone_groups(&host.groups);
    }
}

/// Applies a group over a group; its parent groups replace the target's when set.
pub fn merge_group_into_group(target: &mut Group, group: &Group)
    ensures
        final(target)@ == overlay_with_groups(old(target)@, group@),
{
    merge_option_string(&mut target.hostname, &group.hostname);
    merge_option(&mut target.port, &group.port);
    merge_option_string(&mut target.username, &group.username);
    merge_option_string(&mut target.password, &group.password);
    merge_option_string(&mut target.platform, &group.platform);
    merge_data(&mut target.data, &group.data);
    merge_connection_options(&mut target.connection_options, &group.connection_options);
    if group.groups.is_some() {
        target.groups = clone_groups(&group.groups);
    }
}

} // verus!
