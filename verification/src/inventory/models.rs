//! Inventory models: hosts, groups, defaults, connection options and their builders.
//!
//! Hosts and groups share the same optional fields; defaults have them all but
//! `groups`. Each model has an abstract view in which strings are character
//! sequences and name-keyed maps are sequences of `(name, value)` entries.
use vstd::prelude::*;
use crate::json::{json_get, opt_deref, JsonFields, JsonValue};
use crate::text::{clone_opt, opt_view, str_eq};
use crate::types::{seq_lookup, CloneView, CustomTreeMap};

verus! {

/// Free-form connection settings for one connection type.
#[derive(Debug)]
pub struct Extras(pub JsonValue);

impl Extras {
    /// Wraps a JSON value.
    pub fn new(value: JsonValue) -> (res: Self)
        ensures
            res.0 == value,
    {
        Extras(value)
    }

    /// The wrapped JSON value.
    pub fn value(&self) -> (res: &JsonValue)
        ensures
            *res == self.0,
    {
        &self.0
    }

    /// The value under `key` when the extras are an object.
    pub fn get(&self, key: &str) -> (res: Option<&JsonValue>)
        ensures
            opt_deref(res) == json_get(self.0, key@),
    {
        self.0.get(key)
    }
}

impl Clone for Extras {
    fn clone(&self) -> (res: Self)
        ensures
            res.0 == self.0,
    {
        Extras(self.0.deep_clone())
    }
}

/// Free-form data attached to a host, group or defaults.
#[derive(Debug)]
pub struct Data(pub JsonValue);

impl Data {
    /// Wraps a JSON value.
    pub fn new(data: JsonValue) -> (res: Self)
        ensures
            res.0 == data,
    {
        Data(data)
    }

    /// The wrapped JSON value.
    pub fn value(&self) -> (res: &JsonValue)
        ensures
            *res == self.0,
    {
        &self.0
    }

    /// The members when the data is an object.
    pub fn as_object(&self) -> (res: Option<&crate::json::JsonFields>)
        ensures
            match self.0 {
                JsonValue::Object(f) => res == Some(&f),
                _ => res is None,
            },
    {
        self.0.as_object()
    }

    /// The value under `key` when the data is an object.
    pub fn get(&self, key: &str) -> (res: Option<&JsonValue>)
        ensures
            opt_deref(res) == json_get(self.0, key@),
    {
        self.0.get(key)
    }
}

impl Clone for Data {
    fn clone(&self) -> (res: Self)
        ensures
            res.0 == self.0,
    {
        Data(self.0.deep_clone())
    }
}

/// The JSON value of optional extras.
pub open spec fn extras_view(e: Option<Extras>) -> Option<JsonValue> {
    match e {
        Some(x) => Some(x.0),
        None => None,
    }
}

/// The JSON value of optional data.
pub open spec fn data_view(d: Option<Data>) -> Option<JsonValue> {
    match d {
        Some(x) => Some(x.0),
        None => None,
    }
}

/// A copy of optional extras.
pub fn clone_extras(e: &Option<Extras>) -> (res: Option<Extras>)
    ensures
        extras_view(res) == extras_view(*e),
{
    match e {
        Some(x) => Some(x.clone()),
        None => None,
    }
}

/// A copy of optional data.
pub fn clone_data(d: &Option<Data>) -> (res: Option<Data>)
    ensures
        data_view(res) == data_view(*d),
{
    match d {
        Some(x) => Some(x.clone()),
        None => None,
    }
}

/// The abstract value of connection options.
pub struct OptionsView {
    pub hostname: Option<Seq<char>>,
    pub port: Option<u16>,
    pub username: Option<Seq<char>>,
    pub password: Option<Seq<char>>,
    pub platform: Option<Seq<char>>,
    pub extras: Option<JsonValue>,
}

/// Per-connection-type overrides of the connection parameters.
#[derive(Debug)]
pub struct ConnectionOptions {
    pub hostname: Option<String>,
    pub port: Option<u16>,
    pub username: Option<String>,
    pub password: Option<String>,
    pub platform: Option<String>,
    pub extras: Option<Extras>,
}

impl View for ConnectionOptions {
    type V = OptionsView;

    open spec fn view(&self) -> OptionsView {
        OptionsView {
            hostname: opt_view(self.hostname),
            port: self.port,
            username: opt_view(self.username),
            password: opt_view(self.password),
            platform: opt_view(self.platform),
            extras: extras_view(self.extras),
        }
    }
}

/// Options with no field set.
pub open spec fn empty_options() -> OptionsView {
    OptionsView {
        hostname: None,
        port: None,
        username: None,
        password: None,
        platform: None,
        extras: None,
    }
}

impl Clone for ConnectionOptions {
    fn clone(&self) -> (res: Self)
        ensures
            res@ == self@,
    {
        ConnectionOptions {
            hostname: clone_opt(&self.hostname),
            port: self.port,
            username: clone_opt(&self.username),
            password: clone_opt(&self.password),
            platform: clone_opt(&self.platform),
            extras: clone_extras(&self.extras),
        }
    }
}

impl CloneView for ConnectionOptions {
    fn clone_view(&self) -> (res: Self) {
        self.clone()
    }
}

impl Default for ConnectionOptions {
    fn default() -> (res: Self)
        ensures
            res@ == empty_options(),
    {
        ConnectionOptions::builder().build()
    }
}

impl ConnectionOptions {
    /// A builder with no field set.
    pub fn builder() -> (res: ConnectionOptionsBuilder)
        ensures
            res.fields() == empty_options(),
    {
        ConnectionOptionsBuilder::new()
    }

    pub fn hostname(&self) -> (res: Option<&str>)
        ensures
            opt_str(res) == opt_view(self.hostname),
    {
        as_deref(&self.hostname)
    }

    pub fn port(&self) -> (res: Option<u16>)
        ensures
            res == self.port,
    {
        self.port
    }

    pub fn username(&self) -> (res: Option<&str>)
        ensures
            opt_str(res) == opt_view(self.username),
    {
        as_deref(&self.username)
    }

    pub fn password(&self) -> (res: Option<&str>)
        ensures
            opt_str(res) == opt_view(self.password),
    {
        as_deref(&self.password)
    }

    pub fn platform(&self) -> (res: Option<&str>)
        ensures
            opt_str(res) == opt_view(self.platform),
    {
        as_deref(&self.platform)
    }

    pub fn extras(&self) -> (res: Option<&Extras>)
        ensures
            res == match self.extras {
                Some(e) => Some(&e),
                None => None::<&Extras>,
            },
    {
        self.extras.as_ref()
    }

    /// A builder preloaded with these options.
    pub fn to_builder(&self) -> (res: ConnectionOptionsBuilder)
        ensures
            res.fields() == self@,
    {
        ConnectionOptionsBuilder {
            hostname: clone_opt(&self.hostname),
            port: self.port,
            username: clone_opt(&self.username),
            password: clone_opt(&self.password),
            platform: clone_opt(&self.platform),
            extras: clone_extras(&self.extras),
        }
    }
}

/// The character view of an optional string slice.
pub open spec fn opt_str(o: Option<&str>) -> Option<Seq<char>> {
    match o {
        Some(s) => Some(s@),
        None => None,
    }
}

/// An optional string, borrowed as a slice.
pub fn as_deref(o: &Option<String>) -> (res: Option<&str>)
    ensures
        opt_str(res) == opt_view(*o),
{
    match o {
        Some(s) => Some(s.as_str()),
        None => None,
    }
}

/// Builder for [`ConnectionOptions`].
pub struct ConnectionOptionsBuilder {
    hostname: Option<String>,
    port: Option<u16>,
    username: Option<String>,
    password: Option<String>,
    platform: Option<String>,
    extras: Option<Extras>,
}

impl ConnectionOptionsBuilder {
    /// The options this builder would build.
    pub closed spec fn fields(&self) -> OptionsView {
        OptionsView {
            hostname: opt_view(self.hostname),
            port: self.port,
            username: opt_view(self.username),
            password: opt_view(self.password),
            platform: opt_view(self.platform),
            extras: extras_view(self.extras),
        }
    }

    /// A builder with no field set.
    pub fn new() -> (res: Self)
        ensures
            res.fields() == empty_options(),
    {
        Self {
            hostname: None,
            port: None,
            username: None,
            password: None,
            platform: None,
            extras: None,
        }
    }

    pub fn hostname(self, hostname: &str) -> (res: Self)
        ensures
            res.fields() == (OptionsView { hostname: Some(hostname@), ..self.fields() }),
    {
        ConnectionOptionsBuilder { hostname: Some(String::from_str(hostname)), ..self }
    }

    pub fn port(self, port: u16) -> (res: Self)
        ensures
            res.fields() == (OptionsView { port: Some(port), ..self.fields() }),
    {
        ConnectionOptionsBuilder { port: Some(port), ..self }
    }

    pub fn username(self, username: &str) -> (res: Self)
        ensures
            res.fields() == (OptionsView { username: Some(username@), ..self.fields() }),
    {
        ConnectionOptionsBuilder { username: Some(String::from_str(username)), ..self }
    }

    pub fn password(self, password: &str) -> (res: Self)
        ensures
            res.fields() == (OptionsView { password: Some(password@), ..self.fields() }),
    {
        ConnectionOptionsBuilder { password: Some(String::from_str(password)), ..self }
    }

    pub fn platform(self, platform: &str) -> (res: Self)
        ensures
            res.fields() == (OptionsView { platform: Some(platform@), ..self.fields() }),
    {
        ConnectionOptionsBuilder { platform: Some(String::from_str(platform)), ..self }
    }

    pub fn extras(self, extras: Extras) -> (res: Self)
        ensures
            res.fields() == (OptionsView { extras: Some(extras.0), ..self.fields() }),
    {
        ConnectionOptionsBuilder { extras: Some(extras), ..self }
    }

    /// The built options.
    pub fn build(self) -> (res: ConnectionOptions)
        ensures
            res@ == self.fields(),
    {
        ConnectionOptions {
            hostname: self.hostname,
            port: self.port,
            username: self.username,
            password: self.password,
            platform: self.platform,
            extras: self.extras,
        }
    }
}

impl Default for ConnectionOptionsBuilder {
    fn default() -> (res: Self)
        ensures
            res.fields() == empty_options(),
    {
        Self::new()
    }
}

/// The abstract value of resolved connection parameters.
pub struct ParamsView {
    pub hostname: Seq<char>,
    pub port: Option<u16>,
    pub username: Option<Seq<char>>,
    pub password: Option<Seq<char>>,
    pub platform: Option<Seq<char>>,
    pub extras: Option<JsonValue>,
}

/// Connection parameters for one host and connection type.
#[derive(Debug)]
pub struct ResolvedConnectionParams {
    pub hostname: String,
    pub port: Option<u16>,
    pub username: Option<String>,
    pub password: Option<String>,
    pub platform: Option<String>,
    pub extras: Option<Extras>,
}

impl View for ResolvedConnectionParams {
    type V = ParamsView;

    open spec fn view(&self) -> ParamsView {
        ParamsView {
            hostname: self.hostname@,
            port: self.port,
            username: opt_view(self.username),
            password: opt_view(self.password),
            platform: opt_view(self.platform),
            extras: extras_view(self.extras),
        }
    }
}

impl Clone for ResolvedConnectionParams {
    fn clone(&self) -> (res: Self)
        ensures
            res@ == self@,
    {
        ResolvedConnectionParams {
            hostname: self.hostname.clone(),
            port: self.port,
            username: clone_opt(&self.username),
            password: clone_opt(&self.password),
            platform: clone_opt(&self.platform),
            extras: clone_extras(&self.extras),
        }
    }
}

impl CloneView for ResolvedConnectionParams {
    fn clone_view(&self) -> (res: Self) {
        self.clone()
    }
}

/// Names of the parent groups of a host or group, without repetition.
#[derive(Debug)]
pub struct ParentGroups(pub Vec<String>);

/// The character views of a list of strings.
pub open spec fn names_view(v: Seq<String>) -> Seq<Seq<char>> {
    v.map_values(|s: String| s@)
}

/// `names` with every repeated name dropped, keeping first occurrences in order.
pub open spec fn dedup(names: Seq<Seq<char>>) -> Seq<Seq<char>>
    decreases names.len(),
{
    if names.len() == 0 {
        names
    } else {
        let prefix = dedup(names.drop_last());
        if prefix.contains(names.last()) {
            prefix
        } else {
            prefix.push(names.last())
        }
    }
}

/// Reading parent groups drops repeats only: the result names each name of the
/// input, nothing else, and no name twice.
pub proof fn law_dedup(names: Seq<Seq<char>>)
    ensures
        forall|x: Seq<char>| #[trigger] dedup(names).contains(x) == names.contains(x),
        forall|i: int, j: int|
            0 <= i < j < dedup(names).len() ==> #[trigger] dedup(names)[i] != #[trigger] dedup(names)[j],
    decreases names.len(),
{
    if names.len() > 0 {
        let rest = names.drop_last();
        law_dedup(rest);
        let prefix = dedup(rest);
        assert forall|x: Seq<char>| #[trigger] dedup(names).contains(x) == names.contains(x) by {
            if names.contains(x) && x != names.last() {
                let k = choose|k: int| 0 <= k < names.len() && names[k] == x;
                assert(rest[k] == x);
                assert(rest.contains(x));
            }
            if rest.contains(x) {
                let k = choose|k: int| 0 <= k < rest.len() && rest[k] == x;
                assert(names[k] == x);
            }
            if x == names.last() {
                assert(names[names.len() - 1] == x);
                if !prefix.contains(x) {
                    assert(prefix.push(x)[prefix.len() as int] == x);
                }
            }
            if !prefix.contains(names.last()) {
                if prefix.contains(x) {
                    let k = choose|k: int| 0 <= k < prefix.len() && prefix[k] == x;
                    assert(prefix.push(names.last())[k] == x);
                }
                if prefix.push(names.last()).contains(x) {
                    let k = choose|k: int| 0 <= k < prefix.len() + 1 && prefix.push(names.last())[k] == x;
                    if k < prefix.len() {
                        assert(prefix[k] == x);
                    }
                }
            }
        }
        if !prefix.contains(names.last()) {
            assert forall|i: int, j: int|
                0 <= i < j < dedup(names).len() implies #[trigger] dedup(names)[i] != #[trigger] dedup(names)[j] by {
                if j == prefix.len() {
                    assert(dedup(names)[i] == prefix[i]);
                } else {
                    assert(dedup(names)[i] == prefix[i]);
                    assert(dedup(names)[j] == prefix[j]);
                }
            }
        }
    }
}

impl View for ParentGroups {
    type V = Seq<Seq<char>>;

    open spec fn view(&self) -> Seq<Seq<char>> {
        names_view(self.0@)
    }
}

impl ParentGroups {
    /// No parent groups.
    pub fn new() -> (res: Self)
        ensures
            res@ == Seq::<Seq<char>>::empty(),
    {
        let res = ParentGroups(Vec::new());
        proof {
            assert(res@ =~= Seq::<Seq<char>>::empty());
        }
        res
    }

    /// Parent groups from a list of names, keeping the first occurrence of each
    /// name in order (how a deserialized list of groups is read).
    pub fn from_names(names: Vec<String>) -> (res: Self)
        ensures
            res@ == dedup(names_view(names@)),
    {
        let mut groups: Vec<String> = Vec::new();
        let ghost all = names_view(names@);
        let mut i: usize = 0;
        while i < names.len()
            invariant
                i <= names@.len(),
                all == names_view(names@),
                names_view(groups@) == dedup(all.subrange(0, i as int)),
            decreases names.len() - i,
        {
            let name = &names[i];
            proof {
                assert(all.subrange(0, i + 1).drop_last() =~= all.subrange(0, i as int));
                assert(all.subrange(0, i + 1).last() == name@);
            }
            let mut found = false;
            let mut j: usize = 0;
            while j < groups.len()
                invariant
                    j <= groups@.len(),
                    found == exists|k: int| 0 <= k < j && groups@[k]@ == name@,
                decreases groups.len() - j,
            {
                if str_eq(groups[j].as_str(), name.as_str()) {
                    found = true;
                }
                j = j + 1;
            }
            proof {
                let d = names_view(groups@);
                if found {
                    let k = choose|k: int| 0 <= k < groups@.len() && groups@[k]@ == name@;
                    assert(d[k] == name@);
                } else {
                    assert forall|k: int| 0 <= k < d.len() implies d[k] != name@ by {
                        assert(d[k] == groups@[k]@);
                    }
                }
            }
            if !found {
                let ghost prev = groups@;
                groups.push(name.clone());
                proof {
                    assert(names_view(groups@) =~= names_view(prev).push(name@));
                }
            }
            i = i + 1;
        }
        proof {
            assert(all.subrange(0, names@.len() as int) =~= all);
        }
        ParentGroups(groups)
    }

    /// Adds a parent group name at the end.
    pub fn push(&mut self, name: String)
        ensures
            final(self)@ == old(self)@.push(name@),
    {
        self.0.push(name);
        proof {
            assert(self@ =~= old(self)@.push(name@));
        }
    }

    /// The number of names.
    pub fn len(&self) -> (res: usize)
        ensures
            res == self@.len(),
    {
        self.0.len()
    }

    /// Whether there are no names.
    pub fn is_empty(&self) -> (res: bool)
        ensures
            res == (self@.len() == 0),
    {
        self.0.len() == 0
    }

    /// The name at position `i`.
    pub fn get(&self, i: usize) -> (res: &String)
        requires
            i < self@.len(),
        ensures
            res@ == self@[i as int],
    {
        &self.0[i]
    }

    /// The names, in order.
    pub fn names(&self) -> (res: &Vec<String>)
        ensures
            names_view(res@) == self@,
    {
        &self.0
    }
}

impl Clone for ParentGroups {
    fn clone(&self) -> (res: Self)
        ensures
            res@ == self@,
    {
        let mut v: Vec<String> = Vec::new();
        let mut i: usize = 0;
        while i < self.0.len()
            invariant
                i <= self.0@.len(),
                names_view(v@) == self@.subrange(0, i as int),
            decreases self.0.len() - i,
        {
            let ghost prev = v@;
            v.push(self.0[i].clone());
            proof {
                assert(names_view(v@) =~= names_view(prev).push(self.0@[i as int]@));
                assert(self@.subrange(0, i + 1) =~= self@.subrange(0, i as int).push(
                    self.0@[i as int]@,
                ));
            }
            i = i + 1;
        }
        proof {
            assert(self@.subrange(0, self@.len() as int) =~= self@);
        }
        ParentGroups(v)
    }
}

impl Default for ParentGroups {
    fn default() -> (res: Self)
        ensures
            res@ == Seq::<Seq<char>>::empty(),
    {
        Self::new()
    }
}

/// The abstract value of a host, a group or the defaults (which never have groups).
pub struct NodeView {
    pub hostname: Option<Seq<char>>,
    pub port: Option<u16>,
    pub username: Option<Seq<char>>,
    pub password: Option<Seq<char>>,
    pub platform: Option<Seq<char>>,
    pub groups: Option<Seq<Seq<char>>>,
    pub data: Option<JsonValue>,
    pub connection_options: Option<Seq<(Seq<char>, OptionsView)>>,
}

/// A node with no field set.
pub open spec fn empty_node() -> NodeView {
    NodeView {
        hostname: None,
        port: None,
        username: None,
        password: None,
        platform: None,
        groups: None,
        data: None,
        connection_options: None,
    }
}

/// The view of optional parent groups.
pub open spec fn groups_view(g: Option<ParentGroups>) -> Option<Seq<Seq<char>>> {
    match g {
        Some(x) => Some(x@),
        None => None,
    }
}

/// The view of an optional options map.
pub open spec fn options_map_view(m: Option<CustomTreeMap<ConnectionOptions>>) -> Option<
    Seq<(Seq<char>, OptionsView)>,
> {
    match m {
        Some(x) => Some(x@),
        None => None,
    }
}

/// A copy of optional parent groups.
pub fn clone_groups(g: &Option<ParentGroups>) -> (res: Option<ParentGroups>)
    ensures
        groups_view(res) == groups_view(*g),
{
    match g {
        Some(x) => Some(x.clone()),
        None => None,
    }
}

/// A copy of an optional options map.
pub fn clone_options_map(m: &Option<CustomTreeMap<ConnectionOptions>>) -> (res: Option<
    CustomTreeMap<ConnectionOptions>,
>)
    ensures
        options_map_view(res) == options_map_view(*m),
{
    match m {
        Some(x) => Some(x.clone_map()),
        None => None,
    }
}

/// `m` (or a new map) with `name` bound to `options`.
pub open spec fn with_option(m: Option<Seq<(Seq<char>, OptionsView)>>, name: Seq<char>, options: OptionsView) -> Option<Seq<(Seq<char>, OptionsView)>> {
    match m {
        Some(s) => Some(crate::types::seq_insert(s, name, options)),
        None => Some(crate::types::seq_insert(Seq::empty(), name, options)),
    }
}

/// Adds `name -> options` to an optional map, creating it when absent.
pub fn insert_option(m: &mut Option<CustomTreeMap<ConnectionOptions>>, name: &str, options: ConnectionOptions)
    ensures
        options_map_view(*final(m)) == with_option(options_map_view(*old(m)), name@, options@),
{
    match m {
        Some(map) => {
            map.insert(name, options);
        },
        None => {
            let mut map = CustomTreeMap::new();
            map.insert(name, options);
            *m = Some(map);
        },
    }
}

/// Defaults whose every field is unset or empty: no scalar field set, data
/// unset or an empty JSON object, connection options unset or an empty map.
pub open spec fn blank_defaults(n: NodeView) -> bool {
    &&& n.hostname is None
    &&& n.port is None
    &&& n.username is None
    &&& n.password is None
    &&& n.platform is None
    &&& (n.data is None || n.data == Some(JsonValue::Object(JsonFields::Nil)))
    &&& (n.connection_options is None || n.connection_options.unwrap().len() == 0)
}

/// Defaults applied to every host before its groups and its own settings.
#[derive(Debug)]
pub struct Defaults {
    pub hostname: Option<String>,
    pub port: Option<u16>,
    pub username: Option<String>,
    pub password: Option<String>,
    pub platform: Option<String>,
    pub data: Option<Data>,
    pub connection_options: Option<CustomTreeMap<ConnectionOptions>>,
}

impl View for Defaults {
    type V = NodeView;

    open spec fn view(&self) -> NodeView {
        NodeView {
            hostname: opt_view(self.hostname),
            port: self.port,
            username: opt_view(self.username),
            password: opt_view(self.password),
            platform: opt_view(self.platform),
            groups: None,
            data: data_view(self.data),
            connection_options: options_map_view(self.connection_options),
        }
    }
}

impl Clone for Defaults {
    fn clone(&self) -> (res: Self)
        ensures
            res@ == self@,
    {
        Defaults {
            hostname: clone_opt(&self.hostname),
            port: self.port,
            username: clone_opt(&self.username),
            password: clone_opt(&self.password),
            platform: clone_opt(&self.platform),
            data: clone_data(&self.data),
            connection_options: clone_options_map(&self.connection_options),
        }
    }
}

impl CloneView for Defaults {
    fn clone_view(&self) -> (res: Self) {
        self.clone()
    }
}

impl Defaults {
    /// A builder with no field set.
    pub fn builder() -> (res: DefaultsBuilder)
        ensures
            res.fields() == empty_node(),
    {
        DefaultsBuilder::new()
    }

    /// A builder preloaded with these defaults.
    pub fn to_builder(&self) -> (res: DefaultsBuilder)
        ensures
            res.fields() == self@,
    {
        DefaultsBuilder {
            hostname: clone_opt(&self.hostname),
            port: self.port,
            username: clone_opt(&self.username),
            password: clone_opt(&self.password),
            platform: clone_opt(&self.platform),
            data: clone_data(&self.data),
            connection_options: clone_options_map(&self.connection_options),
        }
    }

    /// Defaults with no field set.
    pub fn new() -> (res: Self)
        ensures
            res@ == empty_node(),
    {
        Defaults {
            hostname: None,
            port: None,
            username: None,
            password: None,
            platform: None,
            data: None,
            connection_options: None,
        }
    }

    /// Whether every field is unset or empty: no scalar field is set, the data
    /// is unset or an empty JSON object, and the connection options are unset
    /// or an empty map.
    pub fn is_empty(&self) -> (res: bool)
        ensures
            res == blank_defaults(self@),
    {
        let data_empty = match &self.data {
            None => true,
            Some(d) => match &d.0 {
                JsonValue::Object(JsonFields::Nil) => true,
                _ => false,
            },
        };
        let options_empty = match &self.connection_options {
            None => true,
            Some(m) => m.len() == 0,
        };
        self.hostname.is_none() && self.port.is_none() && self.username.is_none()
            && self.password.is_none() && self.platform.is_none() && data_empty && options_empty
    }

    pub fn hostname(&self) -> (res: Option<&str>)
        ensures
            opt_str(res) == opt_view(self.hostname),
    {
        as_deref(&self.hostname)
    }

    pub fn port(&self) -> (res: Option<u16>)
        ensures
            res == self.port,
    {
        self.port
    }

    pub fn username(&self) -> (res: Option<&str>)
        ensures
            opt_str(res) == opt_view(self.username),
    {
        as_deref(&self.username)
    }

    pub fn password(&self) -> (res: Option<&str>)
        ensures
            opt_str(res) == opt_view(self.password),
    {
        as_deref(&self.password)
    }

    pub fn platform(&self) -> (res: Option<&str>)
        ensures
            opt_str(res) == opt_view(self.platform),
    {
        as_deref(&self.platform)
    }

    pub fn data(&self) -> (res: Option<&Data>)
        ensures
            res == match self.data {
                Some(d) => Some(&d),
                None => None::<&Data>,
            },
    {
        self.data.as_ref()
    }

    pub fn connection_options(&self) -> (res: Option<&CustomTreeMap<ConnectionOptions>>)
        ensures
            res == match self.connection_options {
                Some(m) => Some(&m),
                None => None::<&CustomTreeMap<ConnectionOptions>>,
            },
    {
        self.connection_options.as_ref()
    }
}

impl Default for Defaults {
    fn default() -> (res: Self)
        ensures
            res@ == empty_node(),
    {
        Self::new()
    }
}

/// Builder for [`Defaults`].
pub struct DefaultsBuilder {
    hostname: Option<String>,
    port: Option<u16>,
    username: Option<String>,
    password: Option<String>,
    platform: Option<String>,
    data: Option<Data>,
    connection_options: Option<CustomTreeMap<ConnectionOptions>>,
}

impl DefaultsBuilder {
    /// The defaults this builder would build.
    pub closed spec fn fields(&self) -> NodeView {
        NodeView {
            hostname: opt_view(self.hostname),
            port: self.port,
            username: opt_view(self.username),
            password: opt_view(self.password),
            platform: opt_view(self.platform),
            groups: None,
            data: data_view(self.data),
            connection_options: options_map_view(self.connection_options),
        }
    }

    /// A builder with no field set.
    pub fn new() -> (res: Self)
        ensures
            res.fields() == empty_node(),
    {
        Self {
            hostname: None,
            port: None,
            username: None,
            password: None,
            platform: None,
            data: None,
            connection_options: None,
        }
    }

    pub fn hostname(self, hostname: &str) -> (res: Self)
        ensures
            res.fields() == (NodeView { hostname: Some(hostname@), ..self.fields() }),
    {
        DefaultsBuilder { hostname: Some(String::from_str(hostname)), ..self }
    }

    pub fn port(self, port: u16) -> (res: Self)
        ensures
            res.fields() == (NodeView { port: Some(port), ..self.fields() }),
    {
        DefaultsBuilder { port: Some(port), ..self }
    }

    pub fn username(self, username: &str) -> (res: Self)
        ensures
            res.fields() == (NodeView { username: Some(username@), ..self.fields() }),
    {
        DefaultsBuilder { username: Some(String::from_str(username)), ..self }
    }

    pub fn password(self, password: &str) -> (res: Self)
        ensures
            res.fields() == (NodeView { password: Some(password@), ..self.fields() }),
    {
        DefaultsBuilder { password: Some(String::from_str(password)), ..self }
    }

    pub fn platform(self, platform: &str) -> (res: Self)
        ensures
            res.fields() == (NodeView { platform: Some(platform@), ..self.fields() }),
    {
        DefaultsBuilder { platform: Some(String::from_str(platform)), ..self }
    }

    pub fn data(self, data: Data) -> (res: Self)
        ensures
            res.fields() == (NodeView { data: Some(data.0), ..self.fields() }),
    {
        DefaultsBuilder { data: Some(data), ..self }
    }

    /// Adds (or replaces) the options for connection type `name`.
    pub fn connection_options(self, name: &str, options: ConnectionOptions) -> (res: Self)
        ensures
            res.fields() == (NodeView {
                connection_options: with_option(self.fields().connection_options, name@, options@),
                ..self.fields()
            }),
    {
        let mut b = self;
        insert_option(&mut b.connection_options, name, options);
        b
    }

    /// The built defaults.
    pub fn build(self) -> (res: Defaults)
        ensures
            res@ == self.fields(),
    {
        Defaults {
            hostname: self.hostname,
            port: self.port,
            username: self.username,
            password: self.password,
            platform: self.platform,
            data: self.data,
            connection_options: self.connection_options,
        }
    }
}

impl Default for DefaultsBuilder {
    fn default() -> (res: Self)
        ensures
            res.fields() == empty_node(),
    {
        Self::new()
    }
}

/// A managed device.
#[derive(Debug)]
pub struct Host {
    pub hostname: Option<String>,
    pub port: Option<u16>,
    pub username: Option<String>,
    pub password: Option<String>,
    pub platform: Option<String>,
    pub groups: Option<ParentGroups>,
    pub data: Option<Data>,
    pub connection_options: Option<CustomTreeMap<ConnectionOptions>>,
}

impl View for Host {
    type V = NodeView;

    open spec fn view(&self) -> NodeView {
        NodeView {
            hostname: opt_view(self.hostname),
            port: self.port,
            username: opt_view(self.username),
            password: opt_view(self.password),
            platform: opt_view(self.platform),
            groups: groups_view(self.groups),
            data: data_view(self.data),
            connection_options: options_map_view(self.connection_options),
        }
    }
}

impl Clone for Host {
    fn clone(&self) -> (res: Self)
        ensures
            res@ == self@,
    {
        Host {
            hostname: clone_opt(&self.hostname),
            port: self.port,
            username: clone_opt(&self.username),
            password: clone_opt(&self.password),
            platform: clone_opt(&self.platform),
            groups: clone_groups(&self.groups),
            data: clone_data(&self.data),
            connection_options: clone_options_map(&self.connection_options),
        }
    }
}

impl CloneView for Host {
    fn clone_view(&self) -> (res: Self) {
        self.clone()
    }
}

/// The connection parameters of `host` for `connection_type`: the host's own
/// fields (hostname defaulting to empty), each overridden by the options
/// registered for that connection type when they set it.
pub open spec fn resolve_params_spec(host: NodeView, connection_type: Seq<char>) -> ParamsView {
    let base = ParamsView {
        hostname: match host.hostname {
            Some(h) => h,
            None => Seq::empty(),
        },
        port: host.port,
        username: host.username,
        password: host.password,
        platform: host.platform,
        extras: None,
    };
    match host.connection_options {
        Some(m) => match seq_lookup(m, connection_type) {
            Some(o) => ParamsView {
                hostname: match o.hostname {
                    Some(h) => h,
                    None => base.hostname,
                },
                port: if o.port is Some {
                    o.port
                } else {
                    base.port
                },
                username: if o.username is Some {
                    o.username
                } else {
                    base.username
                },
                password: if o.password is Some {
                    o.password
                } else {
                    base.password
                },
                platform: if o.platform is Some {
                    o.platform
                } else {
                    base.platform
                },
                extras: if o.extras is Some {
                    o.extras
                } else {
                    base.extras
                },
            },
            None => base,
        },
        None => base,
    }
}

impl Host {
    /// A host with no field set.
    pub fn new() -> (res: Host)
        ensures
            res@ == empty_node(),
    {
        Host {
            hostname: None,
            port: None,
            username: None,
            password: None,
            platform: None,
            groups: None,
            data: None,
            connection_options: None,
        }
    }

    /// A builder with no field set.
    pub fn builder() -> (res: HostBuilder)
        ensures
            res.fields() == empty_node(),
    {
        HostBuilder::new()
    }

    /// A builder preloaded with this host.
    pub fn to_builder(&self) -> (res: HostBuilder)
        ensures
            res.fields() == self@,
    {
        HostBuilder {
            hostname: clone_opt(&self.hostname),
            port: self.port,
            username: clone_opt(&self.username),
            password: clone_opt(&self.password),
            platform: clone_opt(&self.platform),
            groups: clone_groups(&self.groups),
            data: clone_data(&self.data),
            connection_options: clone_options_map(&self.connection_options),
        }
    }

    pub fn hostname(&self) -> (res: Option<&str>)
        ensures
            opt_str(res) == opt_view(self.hostname),
    {
        as_deref(&self.hostname)
    }

    pub fn port(&self) -> (res: Option<u16>)
        ensures
            res == self.port,
    {
        self.port
    }

    pub fn username(&self) -> (res: Option<&str>)
        ensures
            opt_str(res) == opt_view(self.username),
    {
        as_deref(&self.username)
    }

    pub fn password(&self) -> (res: Option<&str>)
        ensures
            opt_str(res) == opt_view(self.password),
    {
        as_deref(&self.password)
    }

    pub fn platform(&self) -> (res: Option<&str>)
        ensures
            opt_str(res) == opt_view(self.platform),
    {
        as_deref(&self.platform)
    }

    pub fn groups(&self) -> (res: Option<&ParentGroups>)
        ensures
            res == match self.groups {
                Some(g) => Some(&g),
                None => None::<&ParentGroups>,
            },
    {
        self.groups.as_ref()
    }

    pub fn data(&self) -> (res: Option<&Data>)
        ensures
            res == match self.data {
                Some(d) => Some(&d),
                None => None::<&Data>,
            },
    {
        self.data.as_ref()
    }

    pub fn connection_options(&self) -> (res: Option<&CustomTreeMap<ConnectionOptions>>)
        ensures
            res == match self.connection_options {
                Some(m) => Some(&m),
                None => None::<&CustomTreeMap<ConnectionOptions>>,
            },
    {
        self.connection_options.as_ref()
    }

    /// The parameters for connecting to this host with `connection_type`.
    pub fn resolve_connection_params(&self, connection_type: &str) -> (res: ResolvedConnectionParams)
        ensures
            res@ == resolve_params_spec(self@, connection_type@),
    {
        let mut resolved = ResolvedConnectionParams {
            hostname: match &self.hostname {
                Some(h) => h.clone(),
                None => String::new(),
            },
            port: self.port,
            username: clone_opt(&self.username),
            password: clone_opt(&self.password),
            platform: clone_opt(&self.platform),
            extras: None,
        };
        if let Some(options_map) = &self.connection_options {
            if let Some(options) = options_map.get(connection_type) {
                if let Some(hostname) = &options.hostname {
                    resolved.hostname = hostname.clone();
                }
                if options.port.is_some() {
                    resolved.port = options.port;
                }
                if options.username.is_some() {
                    resolved.username = clone_opt(&options.username);
                }
                if options.password.is_some() {
                    resolved.password = clone_opt(&options.password);
                }
                if options.platform.is_some() {
                    resolved.platform = clone_opt(&options.platform);
                }
                if options.extras.is_some() {
                    resolved.extras = clone_extras(&options.extras);
                }
            }
        }
        resolved
    }
}

impl Default for Host {
    fn default() -> (res: Self)
        ensures
            res@ == empty_node(),
    {
        Self::new()
    }
}

/// Fluent setters shared by the host and group builders.
pub trait BaseBuilderHost: Sized {
    type Output;

    /// The node this builder would build.
    spec fn fields(&self) -> NodeView;

    fn hostname(self, hostname: &str) -> (res: Self)
        ensures
            res.fields() == (NodeView { hostname: Some(hostname@), ..self.fields() });

    fn port(self, port: u16) -> (res: Self)
        ensures
            res.fields() == (NodeView { port: Some(port), ..self.fields() });

    fn username(self, username: &str) -> (res: Self)
        ensures
            res.fields() == (NodeView { username: Some(username@), ..self.fields() });

    fn password(self, password: &str) -> (res: Self)
        ensures
            res.fields() == (NodeView { password: Some(password@), ..self.fields() });

    fn platform(self, platform: &str) -> (res: Self)
        ensures
            res.fields() == (NodeView { platform: Some(platform@), ..self.fields() });

    fn groups(self, groups: ParentGroups) -> (res: Self)
        ensures
            res.fields() == (NodeView { groups: Some(groups@), ..self.fields() });

    fn data(self, data: Data) -> (res: Self)
        ensures
            res.fields() == (NodeView { data: Some(data.0), ..self.fields() });

    fn connection_options(self, name: &str, options: ConnectionOptions) -> (res: Self)
        ensures
            res.fields() == (NodeView {
                connection_options: with_option(self.fields().connection_options, name@, options@),
                ..self.fields()
            });

    fn build(self) -> Self::Output;
}

/// Builder for [`Host`].
pub struct HostBuilder {
    hostname: Option<String>,
    port: Option<u16>,
    username: Option<String>,
    password: Option<String>,
    platform: Option<String>,
    groups: Option<ParentGroups>,
    data: Option<Data>,
    connection_options: Option<CustomTreeMap<ConnectionOptions>>,
}

impl HostBuilder {
    /// A builder with no field set.
    pub fn new() -> (res: Self)
        ensures
            res.fields() == empty_node(),
    {
        HostBuilder {
            hostname: None,
            port: None,
            username: None,
            password: None,
            platform: None,
            groups: None,
            data: None,
            connection_options: None,
        }
    }

    /// The built host (the same as [`BaseBuilderHost::build`]).
    pub fn build_host(self) -> (res: Host)
        ensures
            res@ == self.fields(),
    {
        Host {
            hostname: self.hostname,
            port: self.port,
            username: self.username,
            password: self.password,
            platform: self.platform,
            groups: self.groups,
            data: self.data,
            connection_options: self.connection_options,
        }
    }
}

impl Default for HostBuilder {
    fn default() -> (res: Self)
        ensures
            res.fields() == empty_node(),
    {
        Self::new()
    }
}

impl BaseBuilderHost for HostBuilder {
    type Output = Host;

    closed spec fn fields(&self) -> NodeView {
        NodeView {
            hostname: opt_view(self.hostname),
            port: self.port,
            username: opt_view(self.username),
            password: opt_view(self.password),
            platform: opt_view(self.platform),
            groups: groups_view(self.groups),
            data: data_view(self.data),
            connection_options: options_map_view(self.connection_options),
        }
    }

    fn hostname(self, hostname: &str) -> (res: Self) {
        HostBuilder { hostname: Some(String::from_str(hostname)), ..self }
    }

    fn port(self, port: u16) -> (res: Self) {
        HostBuilder { port: Some(port), ..self }
    }

    fn username(self, username: &str) -> (res: Self) {
        HostBuilder { username: Some(String::from_str(username)), ..self }
    }

    fn password(self, password: &str) -> (res: Self) {
        HostBuilder { password: Some(String::from_str(password)), ..self }
    }

    fn platform(self, platform: &str) -> (res: Self) {
        HostBuilder { platform: Some(String::from_str(platform)), ..self }
    }

    fn groups(self, groups: ParentGroups) -> (res: Self) {
        HostBuilder { groups: Some(groups), ..self }
    }

    fn data(self, data: Data) -> (res: Self) {
        HostBuilder { data: Some(data), ..self }
    }

    fn connection_options(self, name: &str, options: ConnectionOptions) -> (res: Self) {
        let mut b = self;
        insert_option(&mut b.connection_options, name, options);
        b
    }

    fn build(self) -> (res: Host)
        ensures
            res@ == self.fields(),
    {
        self.build_host()
    }
}

/// A named collection of shared settings that hosts and other groups inherit.
#[derive(Debug)]
pub struct Group {
    pub hostname: Option<String>,
    pub port: Option<u16>,
    pub username: Option<String>,
    pub password: Option<String>,
    pub platform: Option<String>,
    pub groups: Option<ParentGroups>,
    pub data: Option<Data>,
    pub connection_options: Option<CustomTreeMap<ConnectionOptions>>,
}

impl View for Group {
    type V = NodeView;

    open spec fn view(&self) -> NodeView {
        NodeView {
            hostname: opt_view(self.hostname),
            port: self.port,
            username: opt_view(self.username),
            password: opt_view(self.password),
            platform: opt_view(self.platform),
            groups: groups_view(self.groups),
            data: data_view(self.data),
            connection_options: options_map_view(self.connection_options),
        }
    }
}

impl Clone for Group {
    fn clone(&self) -> (res: Self)
        ensures
            res@ == self@,
    {
        Group {
            hostname: clone_opt(&self.hostname),
            port: self.port,
            username: clone_opt(&self.username),
            password: clone_opt(&self.password),
            platform: clone_opt(&self.platform),
            groups: clone_groups(&self.groups),
            data: clone_data(&self.data),
            connection_options: clone_options_map(&self.connection_options),
        }
    }
}

impl CloneView for Group {
    fn clone_view(&self) -> (res: Self) {
        self.clone()
    }
}

impl Group {
    /// A group with no field set.
    pub fn empty() -> (res: Group)
        ensures
            res@ == empty_node(),
    {
        Group {
            hostname: None,
            port: None,
            username: None,
            password: None,
            platform: None,
            groups: None,
            data: None,
            connection_options: None,
        }
    }

    /// A builder with no field set.
    pub fn builder() -> (res: GroupBuilder)
        ensures
            res.fields() == empty_node(),
    {
        GroupBuilder::new()
    }

    /// A builder preloaded with this group.
    pub fn to_builder(&self) -> (res: GroupBuilder)
        ensures
            res.fields() == self@,
    {
        GroupBuilder {
            hostname: clone_opt(&self.hostname),
            port: self.port,
            username: clone_opt(&self.username),
            password: clone_opt(&self.password),
            platform: clone_opt(&self.platform),
            groups: clone_groups(&self.groups),
            data: clone_data(&self.data),
            connection_options: clone_options_map(&self.connection_options),
        }
    }

    pub fn hostname(&self) -> (res: Option<&str>)
        ensures
            opt_str(res) == opt_view(self.hostname),
    {
        as_deref(&self.hostname)
    }

    pub fn port(&self) -> (res: Option<u16>)
        ensures
            res == self.port,
    {
        self.port
    }

    pub fn username(&self) -> (res: Option<&str>)
        ensures
            opt_str(res) == opt_view(self.username),
    {
        as_deref(&self.username)
    }

    pub fn password(&self) -> (res: Option<&str>)
        ensures
            opt_str(res) == opt_view(self.password),
    {
        as_deref(&self.password)
    }

    pub fn platform(&self) -> (res: Option<&str>)
        ensures
            opt_str(res) == opt_view(self.platform),
    {
        as_deref(&self.platform)
    }

    pub fn groups(&self) -> (res: Option<&ParentGroups>)
        ensures
            res == match self.groups {
                Some(g) => Some(&g),
                None => None::<&ParentGroups>,
            },
    {
        self.groups.as_ref()
    }

    pub fn data(&self) -> (res: Option<&Data>)
        ensures
            res == match self.data {
                Some(d) => Some(&d),
                None => None::<&Data>,
            },
    {
        self.data.as_ref()
    }

    pub fn connection_options(&self) -> (res: Option<&CustomTreeMap<ConnectionOptions>>)
        ensures
            res == match self.connection_options {
                Some(m) => Some(&m),
                None => None::<&CustomTreeMap<ConnectionOptions>>,
            },
    {
        self.connection_options.as_ref()
    }
}

/// Builder for [`Group`].
pub struct GroupBuilder {
    hostname: Option<String>,
    port: Option<u16>,
    username: Option<String>,
    password: Option<String>,
    platform: Option<String>,
    groups: Option<ParentGroups>,
    data: Option<Data>,
    connection_options: Option<CustomTreeMap<ConnectionOptions>>,
}

impl GroupBuilder {
    /// A builder with no field set.
    pub fn new() -> (res: Self)
        ensures
            res.fields() == empty_node(),
    {
        GroupBuilder {
            hostname: None,
            port: None,
            username: None,
            password: None,
            platform: None,
            groups: None,
            data: None,
            connection_options: None,
        }
    }

    /// The built group (the same as [`BaseBuilderHost::build`]).
    pub fn build_group(self) -> (res: Group)
        ensures
            res@ == self.fields(),
    {
        Group {
            hostname: self.hostname,
            port: self.port,
            username: self.username,
            password: self.password,
            platform: self.platform,
            groups: self.groups,
            data: self.data,
            connection_options: self.connection_options,
        }
    }
}

impl Default for GroupBuilder {
    fn default() -> (res: Self)
        ensures
            res.fields() == empty_node(),
    {
        Self::new()
    }
}

impl BaseBuilderHost for GroupBuilder {
    type Output = Group;

    closed spec fn fields(&self) -> NodeView {
        NodeView {
            hostname: opt_view(self.hostname),
            port: self.port,
            username: opt_view(self.username),
            password: opt_view(self.password),
            platform: opt_view(self.platform),
            groups: groups_view(self.groups),
            data: data_view(self.data),
            connection_options: options_map_view(self.connection_options),
        }
    }

    fn hostname(self, hostname: &str) -> (res: Self) {
        GroupBuilder { hostname: Some(String::from_str(hostname)), ..self }
    }

    fn port(self, port: u16) -> (res: Self) {
        GroupBuilder { port: Some(port), ..self }
    }

    fn username(self, username: &str) -> (res: Self) {
        GroupBuilder { username: Some(String::from_str(username)), ..self }
    }

    fn password(self, password: &str) -> (res: Self) {
        GroupBuilder { password: Some(String::from_str(password)), ..self }
    }

    fn platform(self, platform: &str) -> (res: Self) {
        GroupBuilder { platform: Some(String::from_str(platform)), ..self }
    }

    fn groups(self, groups: ParentGroups) -> (res: Self) {
        GroupBuilder { groups: Some(groups), ..self }
    }

    fn data(self, data: Data) -> (res: Self) {
        GroupBuilder { data: Some(data), ..self }
    }

    fn connection_options(self, name: &str, options: ConnectionOptions) -> (res: Self) {
        let mut b = self;
        insert_option(&mut b.connection_options, name, options);
        b
    }

    fn build(self) -> (res: Group)
        ensures
            res@ == self.fields(),
    {
        self.build_group()
    }
}

/// All hosts of an inventory, by name.
#[derive(Debug)]
pub struct Hosts(pub CustomTreeMap<Host>);

impl View for Hosts {
    type V = Seq<(Seq<char>, NodeView)>;

    open spec fn view(&self) -> Seq<(Seq<char>, NodeView)> {
        self.0@
    }
}

impl Hosts {
    /// No hosts.
    pub fn new() -> (res: Self)
        ensures
            res@ == Seq::<(Seq<char>, NodeView)>::empty(),
    {
        Hosts(CustomTreeMap::new())
    }

    /// Adds (or replaces) the host named `name`.
    pub fn add_host(&mut self, name: &str, host: Host)
        ensures
            final(self)@ == crate::types::seq_insert(old(self)@, name@, host@),
    {
        self.0.insert(name, host);
    }

    /// The host named `name`, if any.
    pub fn get(&self, name: &str) -> (res: Option<&Host>)
        ensures
            match res {
                Some(h) => seq_lookup(self@, name@) == Some(h@),
                None => seq_lookup(self@, name@) is None,
            },
    {
        self.0.get(name)
    }

    /// The number of hosts.
    pub fn len(&self) -> (res: usize)
        ensures
            res == self@.len(),
    {
        self.0.len()
    }

    /// Whether there are no hosts.
    pub fn is_empty(&self) -> (res: bool)
        ensures
            res == (self@.len() == 0),
    {
        self.0.is_empty()
    }
}

impl Default for Hosts {
    fn default() -> (res: Self)
        ensures
            res@ == Seq::<(Seq<char>, NodeView)>::empty(),
    {
        Self::new()
    }
}

/// All groups of an inventory, by name.
#[derive(Debug)]
pub struct Groups(pub CustomTreeMap<Group>);

impl View for Groups {
    type V = Seq<(Seq<char>, NodeView)>;

    open spec fn view(&self) -> Seq<(Seq<char>, NodeView)> {
        self.0@
    }
}

impl Groups {
    /// No groups.
    pub fn new() -> (res: Self)
        ensures
            res@ == Seq::<(Seq<char>, NodeView)>::empty(),
    {
        Groups(CustomTreeMap::new())
    }

    /// Adds (or replaces) the group named `name`.
    pub fn add_group(&mut self, name: &str, group: Group)
        ensures
            final(self)@ == crate::types::seq_insert(old(self)@, name@, group@),
    {
        self.0.insert(name, group);
    }

    /// The group named `name`, if any.
    pub fn get(&self, name: &str) -> (res: Option<&Group>)
        ensures
            match res {
                Some(g) => seq_lookup(self@, name@) == Some(g@),
                None => seq_lookup(self@, name@) is None,
            },
    {
        self.0.get(name)
    }

    /// The number of groups.
    pub fn len(&self) -> (res: usize)
        ensures
            res == self@.len(),
    {
        self.0.len()
    }

    /// Whether there are no groups.
    pub fn is_empty(&self) -> (res: bool)
        ensures
            res == (self@.len() == 0),
    {
        self.0.is_empty()
    }
}

impl Default for Groups {
    fn default() -> (res: Self)
        ensures
            res@ == Seq::<(Seq<char>, NodeView)>::empty(),
    {
        Self::new()
    }
}

/// The value a wrapper type stands for (what it reads through to).
pub trait DerefTarget {
    type Target;
}

impl DerefTarget for Extras {
    type Target = JsonValue;
}

impl DerefTarget for Data {
    type Target = JsonValue;
}

impl DerefTarget for ParentGroups {
    type Target = Vec<String>;
}

impl DerefTarget for Hosts {
    type Target = CustomTreeMap<Host>;
}

impl DerefTarget for Groups {
    type Target = CustomTreeMap<Group>;
}

} // verus!
