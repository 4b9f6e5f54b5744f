//! Core error types for Genja.
//!
//! Configuration, inventory, SSH and runtime failures are reported through the
//! enums of this module. Each error renders a human-readable message through
//! its `to_string` method, whose text is fixed by the spec functions below.
use vstd::prelude::*;
use crate::text::{opt_view, chars_of, find_exec, find_from, occurs_at, split_once, string_from_chars};
use vstd::utf8::{
    encode_scalar, encode_utf8, has_width_1_encoding, has_width_2_encoding, has_width_3_encoding,
};

verus! {

/// Logical inventory section associated with an inventory load error.
#[derive(Debug, Clone, Copy, PartialEq, Eq, Structural)]
pub enum InventoryFileKind {
    /// The hosts inventory file.
    Hosts,
    /// The groups inventory file.
    Groups,
    /// The defaults inventory file.
    Defaults,
}

/// The name under which an inventory section is shown in messages.
pub open spec fn kind_text(kind: InventoryFileKind) -> Seq<char> {
    match kind {
        InventoryFileKind::Hosts => "hosts"@,
        InventoryFileKind::Groups => "groups"@,
        InventoryFileKind::Defaults => "defaults"@,
    }
}

impl InventoryFileKind {
    /// The section name: `hosts`, `groups` or `defaults`.
    pub fn as_str(&self) -> (res: &'static str)
        ensures
            res@ == kind_text(*self),
    {
        match self {
            InventoryFileKind::Hosts => "hosts",
            InventoryFileKind::Groups => "groups",
            InventoryFileKind::Defaults => "defaults",
        }
    }

    /// The section name as an owned string.
    pub fn to_string(&self) -> (res: String)
        ensures
            res@ == kind_text(*self),
    {
        String::from_str(self.as_str())
    }
}

/// Error returned when inventory loading fails.
#[derive(Debug, Clone)]
pub enum InventoryLoadError {
    /// Reading an inventory file failed.
    Read { kind: InventoryFileKind, path: String, message: String },
    /// Parsing a JSON inventory file failed.
    ParseJson { kind: InventoryFileKind, path: String, message: String },
    /// Parsing a YAML inventory file failed.
    ParseYaml { kind: InventoryFileKind, path: String, message: String },
    /// The inventory file extension is not supported.
    UnsupportedFormat { kind: InventoryFileKind, path: String },
    /// A configured transform plugin was not found.
    TransformPluginNotFound { name: String },
    /// A configured plugin exists but is not a transform-function plugin.
    NotTransformPlugin { name: String },
    /// A human-readable fallback error message.
    Message(String),
}

/// The message shown for an inventory load error.
pub open spec fn inventory_load_error_text(e: InventoryLoadError) -> Seq<char> {
    match e {
        InventoryLoadError::Read { kind, path, message } => "failed to read "@ + kind_text(kind)
            + " inventory file "@ + path@ + ": "@ + message@,
        InventoryLoadError::ParseJson { kind, path, message } => "failed to parse "@ + kind_text(
            kind,
        ) + " inventory JSON file "@ + path@ + ": "@ + message@,
        InventoryLoadError::ParseYaml { kind, path, message } => "failed to parse "@ + kind_text(
            kind,
        ) + " inventory YAML file "@ + path@ + ": "@ + message@,
        InventoryLoadError::UnsupportedFormat { kind, path } => "unsupported "@ + kind_text(kind)
            + " inventory file format for "@ + path@ + ". Use .json, .yaml, or .yml"@,
        InventoryLoadError::TransformPluginNotFound { name } => "transform plugin '"@ + name@
            + "' not found"@,
        InventoryLoadError::NotTransformPlugin { name } => "plugin '"@ + name@
            + "' is not a transform function plugin"@,
        InventoryLoadError::Message(msg) => msg@,
    }
}

/// `a + b + c` built into a fresh string.
fn cat3(a: &str, b: &str, c: &str) -> (res: String)
    ensures
        res@ == a@ + b@ + c@,
{
    let mut s = String::from_str(a);
    s.append(b);
    s.append(c);
    s
}

impl InventoryLoadError {
    /// The human-readable message of this error.
    pub fn to_string(&self) -> (res: String)
        ensures
            res@ == inventory_load_error_text(*self),
    {
        match self {
            InventoryLoadError::Read { kind, path, message } => {
                let mut s = cat3("failed to read ", kind.as_str(), " inventory file ");
                s.append(path.as_str());
                s.append(": ");
                s.append(message.as_str());
                s
            },
            InventoryLoadError::ParseJson { kind, path, message } => {
                let mut s = cat3("failed to parse ", kind.as_str(), " inventory JSON file ");
                s.append(path.as_str());
                s.append(": ");
                s.append(message.as_str());
                s
            },
            InventoryLoadError::ParseYaml { kind, path, message } => {
                let mut s = cat3("failed to parse ", kind.as_str(), " inventory YAML file ");
                s.append(path.as_str());
                s.append(": ");
                s.append(message.as_str());
                s
            },
            InventoryLoadError::UnsupportedFormat { kind, path } => {
                let mut s = cat3("unsupported ", kind.as_str(), " inventory file format for ");
                s.append(path.as_str());
                s.append(". Use .json, .yaml, or .yml");
                s
            },
            InventoryLoadError::TransformPluginNotFound { name } => {
                cat3("transform plugin '", name.as_str(), "' not found")
            },
            InventoryLoadError::NotTransformPlugin { name } => {
                cat3("plugin '", name.as_str(), "' is not a transform function plugin")
            },
            InventoryLoadError::Message(msg) => msg.clone(),
        }
    }

    /// Wraps a plain message, as converting a string does.
    pub fn from_message(message: &str) -> (res: Self)
        ensures
            res matches InventoryLoadError::Message(m) && m@ == message@,
    {
        InventoryLoadError::Message(String::from_str(message))
    }
}

/// Error returned when SSH configuration validation or parsing fails.
#[derive(Debug, Clone)]
pub enum SshConfigError {
    /// The SSH config file path does not exist.
    NotFound { path: String },
    /// The SSH config file exists but access was denied.
    PermissionDenied { path: String, message: String },
    /// Checking whether the SSH config file exists failed.
    CheckFailed { path: String, message: String },
    /// Opening the SSH config file failed.
    OpenFailed { path: String, message: String },
    /// Parsing the SSH config file failed.
    ParseFailed { path: String, message: String },
}

/// The message shown for an SSH configuration error.
pub open spec fn ssh_config_error_text(e: SshConfigError) -> Seq<char> {
    match e {
        SshConfigError::NotFound { path } => "SSH config file not found: "@ + path@,
        SshConfigError::PermissionDenied { path, message } =>
            "SSH config file exists but permission denied: "@ + path@ + ": "@ + message@,
        SshConfigError::CheckFailed { path, message } => "Failed to check SSH config file "@
            + path@ + ": "@ + message@,
        SshConfigError::OpenFailed { path, message } => "Failed to open SSH config file "@ + path@
            + ": "@ + message@,
        SshConfigError::ParseFailed { path, message } => "Failed to parse SSH config file "@
            + path@ + ": "@ + message@,
    }
}

impl SshConfigError {
    /// The human-readable message of this error.
    pub fn to_string(&self) -> (res: String)
        ensures
            res@ == ssh_config_error_text(*self),
    {
        match self {
            SshConfigError::NotFound { path } => {
                let mut s = String::from_str("SSH config file not found: ");
                s.append(path.as_str());
                s
            },
            SshConfigError::PermissionDenied { path, message } => {
                let mut s = cat3(
                    "SSH config file exists but permission denied: ",
                    path.as_str(),
                    ": ",
                );
                s.append(message.as_str());
                s
            },
            SshConfigError::CheckFailed { path, message } => {
                let mut s = cat3("Failed to check SSH config file ", path.as_str(), ": ");
                s.append(message.as_str());
                s
            },
            SshConfigError::OpenFailed { path, message } => {
                let mut s = cat3("Failed to open SSH config file ", path.as_str(), ": ");
                s.append(message.as_str());
                s
            },
            SshConfigError::ParseFailed { path, message } => {
                let mut s = cat3("Failed to parse SSH config file ", path.as_str(), ": ");
                s.append(message.as_str());
                s
            },
        }
    }
}

/// Error returned when loading the top-level settings file fails.
#[derive(Clone)]
pub enum ConfigLoadError {
    /// The settings file extension is not supported.
    UnsupportedFormat { path: String },
    /// Building the config source from disk failed.
    Read { path: String, message: String },
    /// Deserializing settings from the config source failed.
    Deserialize { path: String, message: String },
    /// SSH configuration referenced by settings failed validation.
    SshConfig(SshConfigError),
}

/// The message shown for a settings load error.
pub open spec fn config_load_error_text(e: ConfigLoadError) -> Seq<char> {
    match e {
        ConfigLoadError::UnsupportedFormat { path } => "unsupported settings file format for "@
            + path@ + ". Use .json, .yaml, or .yml"@,
        ConfigLoadError::Read { path, message } => "failed to read settings from "@ + path@ + ": "@
            + message@,
        ConfigLoadError::Deserialize { path, message } => "failed to deserialize settings from "@
            + path@ + ": "@ + deserialize_message_text(message@),
        ConfigLoadError::SshConfig(err) => ssh_config_error_text(err),
    }
}

impl ConfigLoadError {
    /// The human-readable message of this error; a deserialization failure that
    /// names an unknown field is rendered in the structured form of
    /// [`format_settings_deserialize_message`].
    pub fn to_string(&self) -> (res: String)
        requires
            self matches ConfigLoadError::Deserialize { message, .. } ==> message@.len()
                < usize::MAX,
        ensures
            res@ == config_load_error_text(*self),
    {
        match self {
            ConfigLoadError::UnsupportedFormat { path } => {
                cat3(
                    "unsupported settings file format for ",
                    path.as_str(),
                    ". Use .json, .yaml, or .yml",
                )
            },
            ConfigLoadError::Read { path, message } => {
                let mut s = cat3("failed to read settings from ", path.as_str(), ": ");
                s.append(message.as_str());
                s
            },
            ConfigLoadError::Deserialize { path, message } => {
                let mut s = cat3("failed to deserialize settings from ", path.as_str(), ": ");
                let body = format_settings_deserialize_message(message.as_str());
                s.append(body.as_str());
                s
            },
            ConfigLoadError::SshConfig(err) => err.to_string(),
        }
    }
}

// ----- structured rendering of "unknown field" deserialization failures -----

/// The text between the first `prefix` and the next `suffix` after it.
pub open spec fn between_spec(value: Seq<char>, prefix: Seq<char>, suffix: Seq<char>) -> Option<
    Seq<char>,
> {
    match split_once(value, prefix) {
        Some((_, rest)) => match split_once(rest, suffix) {
            Some((matched, _)) => Some(matched),
            None => None,
        },
        None => None,
    }
}

/// The section named after ` for key ``, up to the closing backtick.
pub open spec fn section_spec(message: Seq<char>) -> Option<Seq<char>> {
    match split_once(message, " for key `"@) {
        Some((_, rest)) => match split_once(rest, "`"@) {
            Some((section, _)) => Some(section),
            None => None,
        },
        None => None,
    }
}

/// The list of expected fields as written after `, expected `.
pub open spec fn expected_spec(message: Seq<char>) -> Seq<char> {
    match split_once(message, ", expected "@) {
        Some((_, rest)) => match split_once(rest, " for key `"@) {
            Some((expected, _)) => expected,
            None => rest,
        },
        None => Seq::empty(),
    }
}

/// The scan state used to read backtick-quoted items: the items found so far,
/// whether the scan is inside a quote, and the current item.
pub open spec fn quote_scan(s: Seq<char>) -> (Seq<Seq<char>>, bool, Seq<char>)
    decreases s.len(),
{
    if s.len() == 0 {
        (Seq::empty(), false, Seq::empty())
    } else {
        let (items, inside, cur) = quote_scan(s.drop_last());
        if s.last() == '`' {
            if inside {
                (items.push(cur), false, Seq::empty())
            } else {
                (items, true, Seq::empty())
            }
        } else if inside {
            (items, true, cur.push(s.last()))
        } else {
            (items, false, cur)
        }
    }
}

/// The odd-numbered pieces of `s` split at backticks: the quoted items.
pub open spec fn quoted_items(s: Seq<char>) -> Seq<Seq<char>> {
    let (items, inside, cur) = quote_scan(s);
    if inside {
        items.push(cur)
    } else {
        items
    }
}

/// The pieces of an "unknown field" message: field, expected fields, section.
pub open spec fn unknown_field_spec(message: Seq<char>) -> Option<
    (Seq<char>, Seq<Seq<char>>, Option<Seq<char>>),
> {
    match between_spec(message, "unknown field `"@, "`"@) {
        Some(field) => Some(
            (field, quoted_items(expected_spec(message)), section_spec(message)),
        ),
        None => None,
    }
}

/// Edit distance between two character sequences.
pub open spec fn lev(a: Seq<char>, b: Seq<char>) -> nat
    decreases a.len() + b.len(),
{
    if a.len() == 0 {
        b.len()
    } else if b.len() == 0 {
        a.len()
    } else {
        let ins = lev(a, b.drop_last()) + 1;
        let del = lev(a.drop_last(), b) + 1;
        let sub = lev(a.drop_last(), b.drop_last()) + if a.last() == b.last() {
            0nat
        } else {
            1nat
        };
        if ins <= del && ins <= sub {
            ins
        } else if del <= sub {
            del
        } else {
            sub
        }
    }
}

/// Length of the longest common prefix of `a` and `b`.
pub open spec fn is_common_prefix_len(a: Seq<char>, b: Seq<char>, k: int) -> bool {
    &&& 0 <= k <= a.len()
    &&& k <= b.len()
    &&& forall|i: int| 0 <= i < k ==> a[i] == b[i]
    &&& (k == a.len() || k == b.len() || a[k] != b[k])
}

/// The common-prefix length, as a function.
pub open spec fn cpl(a: Seq<char>, b: Seq<char>) -> int {
    choose|k: int| is_common_prefix_len(a, b, k)
}

/// The length of `s` in UTF-8 bytes.
pub open spec fn byte_len(s: Seq<char>) -> int {
    encode_utf8(s).len() as int
}

/// The number of bytes in the UTF-8 encoding of `c`.
pub open spec fn utf8_width(c: char) -> int {
    let v = c as u32;
    if has_width_1_encoding(v) {
        1
    } else if has_width_2_encoding(v) {
        2
    } else if has_width_3_encoding(v) {
        3
    } else {
        4
    }
}

/// Encoding one more character adds its width to the encoded length.
proof fn lemma_encode_len_push(s: Seq<char>, c: char)
    ensures
        encode_utf8(s.push(c)).len() == encode_utf8(s).len() + utf8_width(c),
    decreases s.len(),
{
    reveal_with_fuel(encode_utf8, 2);
    let v = c as u32;
    assert(encode_scalar(v).len() == utf8_width(c));
    if s.len() == 0 {
        assert(s.push(c).drop_first() =~= Seq::<char>::empty());
        assert(s.push(c)[0] == c);
    } else {
        assert(s.push(c).drop_first() =~= s.drop_first().push(c));
        assert(s.push(c)[0] == s[0]);
        lemma_encode_len_push(s.drop_first(), c);
    }
}

/// The UTF-8 byte length of `s` (std's `str::len`), computed from its characters.
pub fn utf8_byte_len(s: &str) -> (res: u128)
    ensures
        res == byte_len(s@),
{
    let v = chars_of(s);
    let mut acc: u128 = 0;
    let mut i: usize = 0;
    while i < v.len()
        invariant
            i <= v.len(),
            acc <= 4 * i,
            acc == byte_len(v@.subrange(0, i as int)),
        decreases v.len() - i,
    {
        let c = v[i];
        let x = c as u32;
        let w: u128 = if x <= 0x7F {
            1
        } else if x <= 0x7FF {
            2
        } else if x <= 0xFFFF && !(0xD800 <= x && x <= 0xDFFF) {
            3
        } else {
            4
        };
        proof {
            assert(v@.subrange(0, i + 1) =~= v@.subrange(0, i as int).push(c));
            lemma_encode_len_push(v@.subrange(0, i as int), c);
        }
        acc = acc + w;
        i = i + 1;
    }
    proof {
        assert(v@.subrange(0, v.len() as int) =~= v@);
    }
    acc
}

/// Whether `expected` is close enough to `field` to be suggested.
pub open spec fn is_suggestion(field: Seq<char>, expected: Seq<char>) -> bool {
    let max_len = if byte_len(field) >= byte_len(expected) {
        byte_len(field)
    } else {
        byte_len(expected)
    };
    lev(field, expected) <= 3 || (cpl(field, expected) >= 4 && cpl(field, expected) * 2 >= max_len)
}

/// Among the first `n` expected fields, the first suggestion with the
/// smallest edit distance.
pub open spec fn closest_among(field: Seq<char>, expected: Seq<Seq<char>>, n: int) -> Option<int>
    decreases n,
{
    if n <= 0 {
        None
    } else {
        let best = closest_among(field, expected, n - 1);
        if !is_suggestion(field, expected[n - 1]) {
            best
        } else {
            match best {
                None => Some(n - 1),
                Some(k) => if lev(field, expected[n - 1]) < lev(field, expected[k]) {
                    Some(n - 1)
                } else {
                    best
                },
            }
        }
    }
}

/// The suggested replacement for `field`.
pub open spec fn closest_spec(field: Seq<char>, expected: Seq<Seq<char>>) -> Option<Seq<char>> {
    match closest_among(field, expected, expected.len() as int) {
        Some(k) => Some(expected[k]),
        None => None,
    }
}

/// `items` each wrapped in backticks and joined with `, `.
pub open spec fn backticked_list(items: Seq<Seq<char>>) -> Seq<char>
    decreases items.len(),
{
    if items.len() == 0 {
        Seq::empty()
    } else if items.len() == 1 {
        "`"@ + items[0] + "`"@
    } else {
        backticked_list(items.drop_last()) + ", "@ + "`"@ + items.last() + "`"@
    }
}

/// The suggestion line appended to the structured message.
pub open spec fn suggestion_text(suggestion: Option<Seq<char>>) -> Seq<char> {
    match suggestion {
        Some(s) => "\n  suggestion: did you mean `"@ + s + "`?"@,
        None => "\n  suggestion: remove this field, or move plugin-specific values into an explicit options map such as `runner.options` or `inventory.transform_function_options`"@,
    }
}

/// How a settings deserialization failure message is rendered.
pub open spec fn deserialize_message_text(message: Seq<char>) -> Seq<char> {
    match unknown_field_spec(message) {
        None => message,
        Some((field, expected, section)) => {
            let with_section = match section {
                Some(sec) => "unknown settings field"@ + "\n  section: `"@ + sec + "`"@,
                None => "unknown settings field"@,
            };
            let with_field = with_section + "\n  field: `"@ + field + "`"@;
            let with_expected = if expected.len() == 0 {
                with_field
            } else {
                with_field + "\n  expected fields: "@ + backticked_list(expected)
            };
            with_expected + suggestion_text(closest_spec(field, expected))
        },
    }
}

/// A parsed "unknown field" deserialization failure.
pub struct UnknownFieldError {
    pub field: String,
    pub expected_fields: Vec<String>,
    pub section: Option<String>,
}

/// The character views of a list of strings.
pub open spec fn strings_view(v: Seq<String>) -> Seq<Seq<char>> {
    v.map_values(|s: String| s@)
}

/// The text between the first `prefix` and the following `suffix`.
pub fn between(value: &str, prefix: &str, suffix: &str) -> (res: Option<String>)
    ensures
        opt_view(res) == between_spec(value@, prefix@, suffix@),
{
    let v = chars_of(value);
    let p = chars_of(prefix);
    let s = chars_of(suffix);
    match split_once_exec(&v, &p) {
        Some((_, rest)) => match split_once_exec(&rest, &s) {
            Some((matched, _)) => Some(string_from_chars(&matched)),
            None => None,
        },
        None => None,
    }
}

/// `s` split around the first occurrence of `pat`.
pub fn split_once_exec(s: &Vec<char>, pat: &Vec<char>) -> (res: Option<(Vec<char>, Vec<char>)>)
    ensures
        res matches Some((a, b)) ==> split_once(s@, pat@) == Some((a@, b@)),
        res is None ==> split_once(s@, pat@) is None,
{
    match find_exec(s, pat, 0) {
        Some(i) => {
            proof {
                lemma_find_from_occurs(s@, pat@, 0);
            }
            let mut a: Vec<char> = Vec::new();
            let mut k: usize = 0;
            while k < i
                invariant
                    i + pat.len() <= s.len(),
                    k <= i,
                    a@ == s@.subrange(0, k as int),
                decreases i - k,
            {
                a.push(s[k]);
                k = k + 1;
            }
            let start = i + pat.len();
            let mut b: Vec<char> = Vec::new();
            let mut k: usize = start;
            while k < s.len()
                invariant
                    start <= k <= s.len(),
                    b@ == s@.subrange(start as int, k as int),
                decreases s.len() - k,
            {
                b.push(s[k]);
                k = k + 1;
            }
            Some((a, b))
        },
        None => None,
    }
}

/// A found occurrence lies inside `s`.
pub proof fn lemma_find_from_occurs(s: Seq<char>, pat: Seq<char>, i: int)
    requires
        0 <= i,
    ensures
        find_from(s, pat, i) matches Some(k) ==> i <= k && k + pat.len() <= s.len(),
    decreases s.len() + 1 - i,
{
    if i + pat.len() > s.len() {
    } else if occurs_at(s, pat, i) {
    } else {
        lemma_find_from_occurs(s, pat, i + 1);
    }
}

/// The backtick-quoted items of `s`.
fn quoted_items_exec(s: &Vec<char>) -> (res: Vec<String>)
    ensures
        strings_view(res@) == quoted_items(s@),
{
    let mut items: Vec<String> = Vec::new();
    let mut inside = false;
    let mut cur: Vec<char> = Vec::new();
    let mut i: usize = 0;
    while i < s.len()
        invariant
            i <= s.len(),
            quote_scan(s@.subrange(0, i as int)) == (strings_view(items@), inside, cur@),
        decreases s.len() - i,
    {
        let c = s[i];
        proof {
            assert(s@.subrange(0, i + 1).drop_last() =~= s@.subrange(0, i as int));
        }
        if c == '`' {
            if inside {
                let item = string_from_chars(&cur);
                let ghost prev = items@;
                items.push(item);
                cur = Vec::new();
                inside = false;
                proof {
                    assert(strings_view(items@) =~= strings_view(prev).push(item@));
                }
            } else {
                cur = Vec::new();
                inside = true;
            }
        } else if inside {
            cur.push(c);
        }
        i = i + 1;
    }
    proof {
        assert(s@.subrange(0, s.len() as int) =~= s@);
    }
    if inside {
        let item = string_from_chars(&cur);
        let ghost prev = items@;
        items.push(item);
        proof {
            assert(strings_view(items@) =~= strings_view(prev).push(item@));
        }
    }
    items
}

/// Every quoted item, and the item being read, is no longer than the text.
proof fn lemma_quote_scan_bounded(s: Seq<char>)
    ensures
        forall|i: int|
            0 <= i < quote_scan(s).0.len() ==> #[trigger] quote_scan(s).0[i].len() <= s.len(),
        quote_scan(s).2.len() <= s.len(),
    decreases s.len(),
{
    if s.len() > 0 {
        lemma_quote_scan_bounded(s.drop_last());
    }
}

/// The pieces read from a message are no longer than the message.
proof fn lemma_parts_shorter(message: Seq<char>)
    ensures
        unknown_field_spec(message) matches Some((f, e, _)) ==> f.len() <= message.len() && (
        forall|i: int| 0 <= i < e.len() ==> #[trigger] e[i].len() <= message.len()),
{
    let ex = expected_spec(message);
    assert(ex.len() <= message.len()) by {
        match split_once(message, ", expected "@) {
            Some((_, rest)) => {
                lemma_find_from_occurs(message, ", expected "@, 0);
                match split_once(rest, " for key `"@) {
                    Some((e, _)) => {
                        lemma_find_from_occurs(rest, " for key `"@, 0);
                    },
                    None => {},
                }
            },
            None => {},
        }
    }
    lemma_quote_scan_bounded(ex);
    match split_once(message, "unknown field `"@) {
        Some((_, rest)) => {
            lemma_find_from_occurs(message, "unknown field `"@, 0);
            match split_once(rest, "`"@) {
                Some((m, _)) => {
                    lemma_find_from_occurs(rest, "`"@, 0);
                },
                None => {},
            }
        },
        None => {},
    }
}

/// The character length of the common prefix of `left` and `right`.
pub fn common_prefix_len(left: &str, right: &str) -> (res: usize)
    ensures
        is_common_prefix_len(left@, right@, res as int),
        res == cpl(left@, right@),
{
    let a = chars_of(left);
    let b = chars_of(right);
    let mut k: usize = 0;
    while k < a.len() && k < b.len() && a[k] == b[k]
        invariant
            k <= a.len(),
            k <= b.len(),
            forall|i: int| 0 <= i < k ==> a@[i] == b@[i],
        decreases a.len() - k,
    {
        k = k + 1;
    }
    proof {
        lemma_cpl_unique(left@, right@, k as int);
    }
    k
}

/// The common-prefix length is unique.
pub proof fn lemma_cpl_unique(a: Seq<char>, b: Seq<char>, k: int)
    requires
        is_common_prefix_len(a, b, k),
    ensures
        cpl(a, b) == k,
{
    let c = cpl(a, b);
    assert(is_common_prefix_len(a, b, c));
    if c < k {
        assert(a[c] == b[c]);
    } else if k < c {
        assert(a[k] == b[k]);
    }
}

/// The edit distance never exceeds the longer length.
pub proof fn lemma_lev_bound(a: Seq<char>, b: Seq<char>)
    ensures
        lev(a, b) <= a.len() || lev(a, b) <= b.len(),
        lev(a, b) <= if a.len() >= b.len() {
            a.len()
        } else {
            b.len()
        },
    decreases a.len() + b.len(),
{
    if a.len() > 0 && b.len() > 0 {
        lemma_lev_bound(a.drop_last(), b.drop_last());
    }
}

/// The triangle law of edit distance: going through `b` is never shorter.
pub proof fn law_lev_triangle(a: Seq<char>, b: Seq<char>, c: Seq<char>)
    ensures
        lev(a, c) <= lev(a, b) + lev(b, c),
    decreases a.len() + b.len() + c.len(),
{
    if a.len() == 0 {
        lemma_lev_lower(b, c);
    } else if c.len() == 0 {
        lemma_lev_lower(a, b);
    } else if b.len() == 0 {
        lemma_lev_bound(a, c);
    } else {
        let a1 = a.drop_last();
        let b1 = b.drop_last();
        let c1 = c.drop_last();
        law_lev_triangle(a, b, c1);
        law_lev_triangle(a1, b, c);
        law_lev_triangle(a, b1, c);
        law_lev_triangle(a, b1, c1);
        law_lev_triangle(a1, b1, c);
        law_lev_triangle(a1, b1, c1);
    }
}

/// Edit distance laws: a string is at distance zero from itself, at its own
/// length from the empty string, the distance is symmetric, and it lies
/// between the difference of the lengths and the larger length.
pub proof fn law_lev(a: Seq<char>, b: Seq<char>)
    ensures
        lev(a, a) == 0,
        lev(a, Seq::empty()) == a.len(),
        lev(a, b) == lev(b, a),
        (if a.len() >= b.len() { a.len() - b.len() } else { b.len() - a.len() }) <= lev(a, b),
        lev(a, b) <= if a.len() >= b.len() { a.len() } else { b.len() },
    decreases a.len() + b.len(),
{
    lemma_lev_bound(a, b);
    lemma_lev_self(a);
    lemma_lev_symmetric(a, b);
    lemma_lev_lower(a, b);
}

proof fn lemma_lev_self(a: Seq<char>)
    ensures
        lev(a, a) == 0,
    decreases a.len(),
{
    if a.len() > 0 {
        lemma_lev_self(a.drop_last());
    }
}

proof fn lemma_lev_symmetric(a: Seq<char>, b: Seq<char>)
    ensures
        lev(a, b) == lev(b, a),
    decreases a.len() + b.len(),
{
    if a.len() > 0 && b.len() > 0 {
        lemma_lev_symmetric(a, b.drop_last());
        lemma_lev_symmetric(a.drop_last(), b);
        lemma_lev_symmetric(a.drop_last(), b.drop_last());
    }
}

proof fn lemma_lev_lower(a: Seq<char>, b: Seq<char>)
    ensures
        (if a.len() >= b.len() { a.len() - b.len() } else { b.len() - a.len() }) <= lev(a, b),
    decreases a.len() + b.len(),
{
    if a.len() > 0 && b.len() > 0 {
        lemma_lev_lower(a, b.drop_last());
        lemma_lev_lower(a.drop_last(), b);
        lemma_lev_lower(a.drop_last(), b.drop_last());
    }
}

/// Edit (Levenshtein) distance between `left` and `right`, counted in characters.
pub fn levenshtein_distance(left: &str, right: &str) -> (res: usize)
    requires
        left@.len() < usize::MAX,
        right@.len() < usize::MAX,
    ensures
        res == lev(left@, right@),
{
    let a = chars_of(left);
    let b = chars_of(right);
    let n = a.len();
    let m = b.len();
    let mut previous: Vec<usize> = Vec::new();
    let mut j: usize = 0;
    while j <= m
        invariant
            m == b@.len(),
            m < usize::MAX,
            j <= m + 1,
            previous@.len() == j,
            forall|k: int| 0 <= k < j ==> previous@[k] == lev(Seq::<char>::empty(), b@.subrange(0, k)),
        decreases m + 1 - j,
    {
        previous.push(j);
        j = j + 1;
    }
    let mut current: Vec<usize> = Vec::new();
    let mut j: usize = 0;
    while j <= m
        invariant
            m < usize::MAX,
            j <= m + 1,
            current@.len() == j,
        decreases m + 1 - j,
    {
        current.push(0);
        j = j + 1;
    }
    let mut i: usize = 0;
    while i < n
        invariant
            n == a@.len(),
            m == b@.len(),
            n < usize::MAX,
            m < usize::MAX,
            i <= n,
            previous@.len() == m + 1,
            current@.len() == m + 1,
            forall|k: int|
                0 <= k <= m ==> previous@[k] == lev(a@.subrange(0, i as int), b@.subrange(0, k)),
        decreases n - i,
    {
        let ghost ai = a@.subrange(0, i as int);
        let ghost ai1 = a@.subrange(0, i + 1);
        proof {
            assert(ai1.drop_last() =~= ai);
        }
        current.set(0, i + 1);
        let mut j: usize = 0;
        while j < m
            invariant
                n == a@.len(),
                m == b@.len(),
                n < usize::MAX,
                m < usize::MAX,
                i < n,
                j <= m,
                ai == a@.subrange(0, i as int),
                ai1 == a@.subrange(0, i + 1),
                ai1.drop_last() == ai,
                previous@.len() == m + 1,
                current@.len() == m + 1,
                forall|k: int| 0 <= k <= m ==> previous@[k] == lev(ai, b@.subrange(0, k)),
                forall|k: int| 0 <= k <= j ==> current@[k] == lev(ai1, b@.subrange(0, k)),
            decreases m - j,
        {
            let ghost bj = b@.subrange(0, j as int);
            let ghost bj1 = b@.subrange(0, j + 1);
            proof {
                assert(bj1.drop_last() =~= bj);
                lemma_lev_bound(ai1, bj);
                lemma_lev_bound(ai, bj1);
                lemma_lev_bound(ai, bj);
                assert(previous@[j as int] == lev(ai, bj));
                assert(previous@[j + 1] == lev(ai, bj1));
                assert(current@[j as int] == lev(ai1, bj));
            }
            let insertion = current[j] + 1;
            let deletion = previous[j + 1] + 1;
            let cost: usize = if a[i] != b[j] {
                1
            } else {
                0
            };
            let substitution = previous[j] + cost;
            let mut best = insertion;
            if deletion < best {
                best = deletion;
            }
            if substitution < best {
                best = substitution;
            }
            proof {
                assert(ai1.last() == a@[i as int]);
                assert(bj1.last() == b@[j as int]);
                assert(best == lev(ai1, bj1));
            }
            current.set(j + 1, best);
            j = j + 1;
        }
        std::mem::swap(&mut previous, &mut current);
        i = i + 1;
    }
    proof {
        assert(a@.subrange(0, n as int) =~= a@);
        assert(b@.subrange(0, m as int) =~= b@);
    }
    previous[m]
}

impl UnknownFieldError {
    /// The field, expected fields and section of this error, as character sequences.
    pub open spec fn view_parts(&self) -> (Seq<char>, Seq<Seq<char>>, Option<Seq<char>>) {
        (self.field@, strings_view(self.expected_fields@), opt_view(self.section))
    }

    /// Reads an "unknown field" message as produced by the settings deserializer.
    /// Returns `None` when the message names no unknown field.
    pub fn parse(message: &str) -> (res: Option<Self>)
        ensures
            res is None <==> unknown_field_spec(message@) is None,
            res matches Some(e) ==> Some(e.view_parts()) == unknown_field_spec(message@),
    {
        let field = between(message, "unknown field `", "`");
        let field = match field {
            Some(f) => f,
            None => return None,
        };
        let m = chars_of(message);
        let for_key = chars_of(" for key `");
        let tick = chars_of("`");
        let expected_marker = chars_of(", expected ");
        let section = match split_once_exec(&m, &for_key) {
            Some((_, rest)) => match split_once_exec(&rest, &tick) {
                Some((sec, _)) => Some(string_from_chars(&sec)),
                None => None,
            },
            None => None,
        };
        let expected: Vec<char> = match split_once_exec(&m, &expected_marker) {
            Some((_, rest)) => match split_once_exec(&rest, &for_key) {
                Some((e, _)) => e,
                None => rest,
            },
            None => Vec::new(),
        };
        proof {
            if split_once(m@, ", expected "@) is None {
                assert(expected@ =~= Seq::<char>::empty());
            }
        }
        let expected_fields = quoted_items_exec(&expected);
        Some(UnknownFieldError { field, expected_fields, section })
    }

    /// The expected field that most likely was meant, if any is close enough:
    /// within edit distance 3, or sharing a prefix of at least 4 characters
    /// that covers at least half of the longer name (in bytes). Among those,
    /// the first with the smallest edit distance.
    pub fn closest_expected_field(&self) -> (res: Option<&str>)
        requires
            self.field@.len() < usize::MAX,
            forall|i: int|
                0 <= i < self.expected_fields@.len() ==> #[trigger] self.expected_fields@[i]@.len()
                    < usize::MAX,
        ensures
            opt_view_str(res) == closest_spec(self.field@, strings_view(self.expected_fields@)),
    {
        let ghost exps = strings_view(self.expected_fields@);
        let mut best: Option<usize> = None;
        let mut best_distance: usize = 0;
        let mut i: usize = 0;
        while i < self.expected_fields.len()
            invariant
                i <= self.expected_fields@.len(),
                exps == strings_view(self.expected_fields@),
                self.field@.len() < usize::MAX,
                forall|k: int|
                    0 <= k < self.expected_fields@.len() ==> #[trigger] self.expected_fields@[k]@.len()
                        < usize::MAX,
                match best {
                    Some(k) => closest_among(self.field@, exps, i as int) == Some(k as int) && k < i
                        && best_distance == lev(self.field@, exps[k as int]),
                    None => closest_among(self.field@, exps, i as int) is None,
                },
            decreases self.expected_fields@.len() - i,
        {
            let expected = &self.expected_fields[i];
            let distance = levenshtein_distance(self.field.as_str(), expected.as_str());
            let prefix_len = common_prefix_len(self.field.as_str(), expected.as_str());
            let field_bytes = utf8_byte_len(self.field.as_str());
            let expected_bytes = utf8_byte_len(expected.as_str());
            let max_len = if field_bytes >= expected_bytes {
                field_bytes
            } else {
                expected_bytes
            };
            let close = distance <= 3 || (prefix_len >= 4 && (prefix_len as u128) * 2 >= max_len);
            proof {
                assert(exps[i as int] == expected@);
                assert(close == is_suggestion(self.field@, exps[i as int]));
            }
            if close {
                match best {
                    None => {
                        best = Some(i);
                        best_distance = distance;
                    },
                    Some(_) => {
                        if distance < best_distance {
                            best = Some(i);
                            best_distance = distance;
                        }
                    },
                }
            }
            i = i + 1;
        }
        match best {
            Some(k) => Some(self.expected_fields[k].as_str()),
            None => None,
        }
    }
}

/// The character view of an optional string slice.
pub open spec fn opt_view_str(o: Option<&str>) -> Option<Seq<char>> {
    match o {
        Some(s) => Some(s@),
        None => None,
    }
}

/// Renders a settings deserialization failure. A message that names an unknown
/// field becomes a structured, multi-line explanation with the section, the
/// field, the expected fields and a suggestion; any other message is kept as is.
pub fn format_settings_deserialize_message(message: &str) -> (res: String)
    requires
        message@.len() < usize::MAX,
    ensures
        res@ == deserialize_message_text(message@),
{
    let error = match UnknownFieldError::parse(message) {
        Some(e) => e,
        None => return String::from_str(message),
    };
    proof {
        lemma_parts_shorter(message@);
        let parts = unknown_field_spec(message@).unwrap();
        assert(parts == error.view_parts());
        assert forall|i: int| 0 <= i < error.expected_fields@.len() implies #[trigger]
            error.expected_fields@[i]@.len() < usize::MAX by {
            assert(parts.1[i] == error.expected_fields@[i]@);
            assert(parts.1[i].len() <= message@.len());
        }
    }
    let mut formatted = String::from_str("unknown settings field");
    match &error.section {
        Some(section) => {
            formatted.append("\n  section: `");
            formatted.append(section.as_str());
            formatted.append("`");
        },
        None => {},
    }
    formatted.append("\n  field: `");
    formatted.append(error.field.as_str());
    formatted.append("`");
    let ghost exps = strings_view(error.expected_fields@);
    if error.expected_fields.len() > 0 {
        formatted.append("\n  expected fields: ");
        let mut i: usize = 0;
        let ghost base = formatted@;
        while i < error.expected_fields.len()
            invariant
                i <= error.expected_fields@.len(),
                exps == strings_view(error.expected_fields@),
                formatted@ == base + backticked_list(exps.subrange(0, i as int)),
            decreases error.expected_fields@.len() - i,
        {
            proof {
                assert(exps.subrange(0, i + 1).drop_last() =~= exps.subrange(0, i as int));
            }
            if i > 0 {
                formatted.append(", ");
            }
            formatted.append("`");
            formatted.append(error.expected_fields[i].as_str());
            formatted.append("`");
            proof {
                if i == 0 {
                    assert(exps.subrange(0, 1)[0] == error.expected_fields@[0]@);
                }
            }
            i = i + 1;
        }
        proof {
            assert(exps.subrange(0, exps.len() as int) =~= exps);
        }
    }
    match error.closest_expected_field() {
        Some(suggestion) => {
            formatted.append("\n  suggestion: did you mean `");
            formatted.append(suggestion);
            formatted.append("`?");
        },
        None => {
            formatted.append(
                "\n  suggestion: remove this field, or move plugin-specific values into an explicit options map such as `runner.options` or `inventory.transform_function_options`",
            );
        },
    }
    formatted
}

/// Generic error type for core Genja operations.
#[derive(Clone)]
pub enum GenjaError {
    /// Plugins have not been loaded for the runtime.
    PluginsNotLoaded,
    /// Inventory has not been loaded for the runtime.
    InventoryNotLoaded,
    /// A requested plugin name could not be found.
    PluginNotFound(String),
    /// The named plugin is not an inventory plugin.
    NotInventoryPlugin(String),
    /// The named plugin is an async-only inventory plugin and requires async construction.
    AsyncInventoryPluginRequiresAsyncConstruction(String),
    /// The named plugin is a sync-only inventory plugin and requires sync construction.
    SyncInventoryPluginRequiresSyncConstruction(String),
    /// The named plugin is not a runner plugin.
    NotRunnerPlugin(String),
    /// A plugin failed to load.
    PluginLoad(String),
    /// The configuration file could not be read, parsed, or validated.
    ConfigLoad(ConfigLoadError),
    /// Inventory loading failed.
    InventoryLoad(InventoryLoadError),
    /// A human-readable error message.
    Message(String),
    /// Functionality is not implemented yet.
    NotImplemented(&'static str),
}

/// The message shown for a core error.
pub open spec fn genja_error_text(e: GenjaError) -> Seq<char> {
    match e {
        GenjaError::PluginsNotLoaded => "plugins have not been loaded"@,
        GenjaError::InventoryNotLoaded => "inventory has not been loaded"@,
        GenjaError::PluginNotFound(name) => "plugin '"@ + name@ + "' not found"@,
        GenjaError::NotInventoryPlugin(name) => "plugin '"@ + name@
            + "' is not an inventory plugin"@,
        GenjaError::AsyncInventoryPluginRequiresAsyncConstruction(name) => "async inventory plugin '"@
            + name@
            + "' requires async runtime construction.\n\nUse one of:\n- `Genja::from_settings_async(...)`\n- `Genja::from_settings_file_async(...)`"@,
        GenjaError::SyncInventoryPluginRequiresSyncConstruction(name) => "sync inventory plugin '"@
            + name@
            + "' requires sync runtime construction.\n\nUse one of:\n- `Genja::from_settings(...)`\n- `Genja::from_settings_file(...)`\n\nOr change the inventory plugin to an async implementation before using an async constructor."@,
        GenjaError::NotRunnerPlugin(name) => "plugin '"@ + name@ + "' is not a runner plugin"@,
        GenjaError::PluginLoad(err) => "failed to load plugins: "@ + err@,
        GenjaError::ConfigLoad(err) => "failed to load settings: "@ + config_load_error_text(err),
        GenjaError::InventoryLoad(err) => "failed to load inventory: "@ + inventory_load_error_text(
            err,
        ),
        GenjaError::Message(msg) => msg@,
        GenjaError::NotImplemented(msg) => msg@,
    }
}

/// Whether rendering `e` stays within the limits of the settings message formatter.
pub open spec fn config_error_renderable(e: ConfigLoadError) -> bool {
    e matches ConfigLoadError::Deserialize { message, .. } ==> message@.len() < usize::MAX
}

impl GenjaError {
    /// The human-readable message of this error (also its debug rendering).
    pub fn to_string(&self) -> (res: String)
        requires
            *self matches GenjaError::ConfigLoad(err) ==> config_error_renderable(err),
        ensures
            res@ == genja_error_text(*self),
    {
        match self {
            GenjaError::PluginsNotLoaded => String::from_str("plugins have not been loaded"),
            GenjaError::InventoryNotLoaded => String::from_str("inventory has not been loaded"),
            GenjaError::PluginNotFound(name) => cat3("plugin '", name.as_str(), "' not found"),
            GenjaError::NotInventoryPlugin(name) => cat3(
                "plugin '",
                name.as_str(),
                "' is not an inventory plugin",
            ),
            GenjaError::AsyncInventoryPluginRequiresAsyncConstruction(name) => cat3(
                "async inventory plugin '",
                name.as_str(),
                "' requires async runtime construction.\n\nUse one of:\n- `Genja::from_settings_async(...)`\n- `Genja::from_settings_file_async(...)`",
            ),
            GenjaError::SyncInventoryPluginRequiresSyncConstruction(name) => cat3(
                "sync inventory plugin '",
                name.as_str(),
                "' requires sync runtime construction.\n\nUse one of:\n- `Genja::from_settings(...)`\n- `Genja::from_settings_file(...)`\n\nOr change the inventory plugin to an async implementation before using an async constructor.",
            ),
            GenjaError::NotRunnerPlugin(name) => cat3(
                "plugin '",
                name.as_str(),
                "' is not a runner plugin",
            ),
            GenjaError::PluginLoad(err) => {
                let mut s = String::from_str("failed to load plugins: ");
                s.append(err.as_str());
                s
            },
            GenjaError::ConfigLoad(err) => {
                let mut s = String::from_str("failed to load settings: ");
                let body = err.to_string();
                s.append(body.as_str());
                s
            },
            GenjaError::InventoryLoad(err) => {
                let mut s = String::from_str("failed to load inventory: ");
                let body = err.to_string();
                s.append(body.as_str());
                s
            },
            GenjaError::Message(msg) => msg.clone(),
            GenjaError::NotImplemented(msg) => String::from_str(msg),
        }
    }

    /// Wraps a plain message, as converting a string does.
    pub fn from_message(message: &str) -> (res: Self)
        ensures
            res matches GenjaError::Message(m) && m@ == message@,
    {
        GenjaError::Message(String::from_str(message))
    }
}

impl From<InventoryLoadError> for GenjaError {
    fn from(value: InventoryLoadError) -> (res: Self) {
        GenjaError::InventoryLoad(value)
    }
}

impl vstd::std_specs::convert::FromSpecImpl<InventoryLoadError> for GenjaError {
    open spec fn obeys_from_spec() -> bool {
        true
    }

    open spec fn from_spec(v: InventoryLoadError) -> Self {
        GenjaError::InventoryLoad(v)
    }
}

impl From<ConfigLoadError> for GenjaError {
    fn from(value: ConfigLoadError) -> (res: Self) {
        GenjaError::ConfigLoad(value)
    }
}

impl vstd::std_specs::convert::FromSpecImpl<ConfigLoadError> for GenjaError {
    open spec fn obeys_from_spec() -> bool {
        true
    }

    open spec fn from_spec(v: ConfigLoadError) -> Self {
        GenjaError::ConfigLoad(v)
    }
}

impl From<String> for GenjaError {
    fn from(value: String) -> (res: Self) {
        GenjaError::Message(value)
    }
}

impl vstd::std_specs::convert::FromSpecImpl<String> for GenjaError {
    open spec fn obeys_from_spec() -> bool {
        true
    }

    open spec fn from_spec(v: String) -> Self {
        GenjaError::Message(v)
    }
}

impl From<String> for InventoryLoadError {
    fn from(value: String) -> (res: Self) {
        InventoryLoadError::Message(value)
    }
}

impl vstd::std_specs::convert::FromSpecImpl<String> for InventoryLoadError {
    open spec fn obeys_from_spec() -> bool {
        true
    }

    open spec fn from_spec(v: String) -> Self {
        InventoryLoadError::Message(v)
    }
}

} // verus!
