use vstd::prelude::*;

use crate::config::{
    is_first, position, CheckerConfig, CheckerConfigView, FileConfig, Interval, Notifier, NotifierConfig,
    NotifierConfigView,
};

pub mod telegram_notifier;
pub mod slack_notifier;
pub mod hipchat_notifier;
pub mod command_notifier;
pub mod checker;
use crate::notifiers::strings_view;

verus! {

/// A YAML node as plain values.
#[derive(Debug)]
pub enum YamlValue {
    Str(String),
    Int(i64),
    Array(Vec<YamlValue>),
    /// A mapping, as its entries in document order.
    Hash(Vec<(YamlValue, YamlValue)>),
    /// Any other node (a float, a boolean, null, an alias), with its text.
    Other(String),
}

/// Why a configuration document could not be read.
#[derive(Clone, Debug, PartialEq, Eq)]
pub enum ConfigError {
    InvalidYaml { message: String },
    UnknownRootElement { name: String },
    GeneralError { message: String },
    UnknownCheckerAttribute { checker_id: String, attr_name: String },
    InvalidCheckerInterval { checker_id: String, interval: String },
    InvalidCheckerUrl { checker_id: String, url: String },
    InvalidNotifierType { notifier_id: String, type_value: String },
    UnknownNotifierAttribute { notifier_id: String, notifier_type: String, attr_name: String },
    FieldMissing { path: String },
}

pub enum ConfigErrorView {
    InvalidYaml { message: Seq<char> },
    UnknownRootElement { name: Seq<char> },
    GeneralError { message: Seq<char> },
    UnknownCheckerAttribute { checker_id: Seq<char>, attr_name: Seq<char> },
    InvalidCheckerInterval { checker_id: Seq<char>, interval: Seq<char> },
    InvalidCheckerUrl { checker_id: Seq<char>, url: Seq<char> },
    InvalidNotifierType { notifier_id: Seq<char>, type_value: Seq<char> },
    UnknownNotifierAttribute { notifier_id: Seq<char>, notifier_type: Seq<char>, attr_name: Seq<char> },
    FieldMissing { path: Seq<char> },
}

impl View for ConfigError {
    type V = ConfigErrorView;

    open spec fn view(&self) -> ConfigErrorView {
        match self {
            ConfigError::InvalidYaml { message } => ConfigErrorView::InvalidYaml { message: message@ },
            ConfigError::UnknownRootElement { name } => ConfigErrorView::UnknownRootElement { name: name@ },
            ConfigError::GeneralError { message } => ConfigErrorView::GeneralError { message: message@ },
            ConfigError::UnknownCheckerAttribute { checker_id, attr_name } =>
                ConfigErrorView::UnknownCheckerAttribute { checker_id: checker_id@, attr_name: attr_name@ },
            ConfigError::InvalidCheckerInterval { checker_id, interval } =>
                ConfigErrorView::InvalidCheckerInterval { checker_id: checker_id@, interval: interval@ },
            ConfigError::InvalidCheckerUrl { checker_id, url } =>
                ConfigErrorView::InvalidCheckerUrl { checker_id: checker_id@, url: url@ },
            ConfigError::InvalidNotifierType { notifier_id, type_value } =>
                ConfigErrorView::InvalidNotifierType { notifier_id: notifier_id@, type_value: type_value@ },
            ConfigError::UnknownNotifierAttribute { notifier_id, notifier_type, attr_name } =>
                ConfigErrorView::UnknownNotifierAttribute {
                    notifier_id: notifier_id@,
                    notifier_type: notifier_type@,
                    attr_name: attr_name@,
                },
            ConfigError::FieldMissing { path } => ConfigErrorView::FieldMissing { path: path@ },
        }
    }
}

/// The message shown to the operator for an error.
pub open spec fn error_message(e: ConfigErrorView) -> Seq<char> {
    match e {
        ConfigErrorView::InvalidYaml { message } => "Invalid YAML file: "@ + message,
        ConfigErrorView::UnknownRootElement { name } => "Unknown root element `"@ + name + "`"@,
        ConfigErrorView::GeneralError { message } => message,
        ConfigErrorView::UnknownCheckerAttribute { checker_id, attr_name } =>
            "Unknown checker attribute `"@ + attr_name + "` in checkers."@ + checker_id,
        ConfigErrorView::InvalidCheckerInterval { checker_id, interval } =>
            "Failed to parse interval `"@ + interval + "` in checkers."@ + checker_id + ".interval"@,
        ConfigErrorView::InvalidCheckerUrl { checker_id, url } =>
            "Failed to parse URL `"@ + url + "` in checkers."@ + checker_id + ".url"@,
        ConfigErrorView::InvalidNotifierType { notifier_id, type_value } =>
            "Invalid notifier type `"@ + type_value + "` in `notifiers."@ + notifier_id + ".type`"@,
        ConfigErrorView::UnknownNotifierAttribute { notifier_id, notifier_type, attr_name } =>
            "Unknown "@ + notifier_type + " notifier attribute `"@ + attr_name + "` in notifiers."@ + notifier_id,
        ConfigErrorView::FieldMissing { path } => "Field `"@ + path + "` is missing"@,
    }
}

impl ConfigError {
    /// The message shown to the operator.
    pub fn message(&self) -> (r: String)
        ensures
            r@ == error_message(self@),
    {
        let mut m: String;
        match self {
            ConfigError::InvalidYaml { message } => {
                m = String::from_str("Invalid YAML file: ");
                m.append(message.as_str());
            },
            ConfigError::UnknownRootElement { name } => {
                m = String::from_str("Unknown root element `");
                m.append(name.as_str());
                m.append("`");
            },
            ConfigError::GeneralError { message } => {
                m = message.clone();
            },
            ConfigError::UnknownCheckerAttribute { checker_id, attr_name } => {
                m = String::from_str("Unknown checker attribute `");
                m.append(attr_name.as_str());
                m.append("` in checkers.");
                m.append(checker_id.as_str());
            },
            ConfigError::InvalidCheckerInterval { checker_id, interval } => {
                m = String::from_str("Failed to parse interval `");
                m.append(interval.as_str());
                m.append("` in checkers.");
                m.append(checker_id.as_str());
                m.append(".interval");
            },
            ConfigError::InvalidCheckerUrl { checker_id, url } => {
                m = String::from_str("Failed to parse URL `");
                m.append(url.as_str());
                m.append("` in checkers.");
                m.append(checker_id.as_str());
                m.append(".url");
            },
            ConfigError::InvalidNotifierType { notifier_id, type_value } => {
                m = String::from_str("Invalid notifier type `");
                m.append(type_value.as_str());
                m.append("` in `notifiers.");
                m.append(notifier_id.as_str());
                m.append(".type`");
            },
            ConfigError::UnknownNotifierAttribute { notifier_id, notifier_type, attr_name } => {
                m = String::from_str("Unknown ");
                m.append(notifier_type.as_str());
                m.append(" notifier attribute `");
                m.append(attr_name.as_str());
                m.append("` in notifiers.");
                m.append(notifier_id.as_str());
            },
            ConfigError::FieldMissing { path } => {
                m = String::from_str("Field `");
                m.append(path.as_str());
                m.append("` is missing");
            },
        }
        m
    }
}

pub open spec fn digit_char(d: nat) -> char {
    if d == 0 { '0' } else if d == 1 { '1' } else if d == 2 { '2' } else if d == 3 { '3' }
    else if d == 4 { '4' } else if d == 5 { '5' } else if d == 6 { '6' } else if d == 7 { '7' }
    else if d == 8 { '8' } else { '9' }
}

pub open spec fn digits(n: nat) -> Seq<char>
    decreases n,
{
    if n < 10 {
        seq![digit_char(n)]
    } else {
        digits(n / 10).push(digit_char(n % 10))
    }
}

/// `n` in decimal, with a leading `-` when negative.
pub open spec fn decimal(n: int) -> Seq<char> {
    if n < 0 {
        seq!['-'] + digits((-n) as nat)
    } else {
        digits(n as nat)
    }
}

/// Relies on the `Display` of `i64` (through `to_string`): decimal digits, `-` first when negative.
#[verifier::external_body]
fn decimal_text(n: i64) -> (r: String)
    ensures
        r@ == decimal(n as int),
{
    n.to_string()
}

/// The canonical text of the URI that `s` denotes, or `None` when `s` is no valid URI.
pub uninterp spec fn uri_text(s: Seq<char>) -> Option<Seq<char>>;

/// Relies on `hyper::Uri`'s `FromStr` to validate `s`, and on its `Display` for the text kept.
#[verifier::external_body]
fn parse_uri(s: &str) -> (r: Option<String>)
    ensures
        r matches Some(t) ==> uri_text(s@) == Some(t@),
        r is None ==> uri_text(s@) is None,
{
    match s.parse::<hyper::Uri>() {
        Ok(u) => Some(u.to_string()),
        Err(_) => None,
    }
}

/// The duration, as seconds and nanoseconds, that the human-readable `s` (`10s`, `1m 30s`)
/// denotes, or `None` when `s` does not read as one.
pub uninterp spec fn duration_of(s: Seq<char>) -> Option<(u64, u32)>;

/// The most digits an interval's text may hold.
pub const MAX_INTERVAL_DIGITS: usize = 11;

/// How many of the characters of `s` are ASCII digits.
pub open spec fn digit_count(s: Seq<char>) -> nat
    decreases s.len(),
{
    if s.len() == 0 {
        0
    } else {
        digit_count(s.drop_last()) + if '0' <= s.last() && s.last() <= '9' {
            1nat
        } else {
            0nat
        }
    }
}

pub fn count_digits(s: &str) -> (r: usize)
    ensures
        r == digit_count(s@),
{
    let n = s.unicode_len();
    let mut count: usize = 0;
    let mut i: usize = 0;
    while i < n
        invariant
            n == s@.len(),
            0 <= i <= n,
            count <= i,
            count == digit_count(s@.subrange(0, i as int)),
        decreases n - i,
    {
        let c = s.get_char(i);
        assert(s@.subrange(0, i + 1).drop_last() =~= s@.subrange(0, i as int));
        if '0' <= c && c <= '9' {
            count = count + 1;
        }
        i = i + 1;
    }
    assert(s@.subrange(0, n as int) =~= s@);
    count
}

/// Relies on `humantime::Duration`'s `FromStr`; a `std::time::Duration` keeps its
/// nanoseconds under one second. The parser ends in `Duration::new`, which panics when
/// carrying a full second into `u64::MAX` seconds; with at most eleven digits the seconds
/// stay below 4e18, so the text is limited to that.
#[verifier::external_body]
fn parse_duration(s: &str) -> (r: Option<Interval>)
    requires
        digit_count(s@) <= MAX_INTERVAL_DIGITS,
    ensures
        r matches Some(i) ==> duration_of(s@) == Some((i.secs, i.nanos)) && i.wf(),
        r is None ==> duration_of(s@) is None,
{
    match s.parse::<humantime::Duration>() {
        Ok(d) => {
            let d: std::time::Duration = d.into();
            Some(Interval { secs: d.as_secs(), nanos: d.subsec_nanos() })
        },
        Err(_) => None,
    }
}

/// How a node is named in messages.
pub open spec fn description(v: YamlValue) -> Seq<char> {
    match v {
        YamlValue::Str(_) => "a string"@,
        YamlValue::Int(_) => "an integer"@,
        YamlValue::Array(_) => "an array"@,
        YamlValue::Hash(_) => "a hash"@,
        YamlValue::Other(t) => t@,
    }
}

pub fn describe(v: &YamlValue) -> (r: String)
    ensures
        r@ == description(*v),
{
    match v {
        YamlValue::Str(_) => String::from_str("a string"),
        YamlValue::Int(_) => String::from_str("an integer"),
        YamlValue::Array(_) => String::from_str("an array"),
        YamlValue::Hash(_) => String::from_str("a hash"),
        YamlValue::Other(t) => t.clone(),
    }
}

pub open spec fn general(message: Seq<char>) -> ConfigErrorView {
    ConfigErrorView::GeneralError { message }
}

pub open spec fn text_result(r: Result<String, ConfigError>) -> Result<Seq<char>, ConfigErrorView> {
    match r {
        Ok(s) => Ok(s@),
        Err(e) => Err(e@),
    }
}

/// A scalar's text: a string as it is, an integer in decimal; any other node is refused.
pub open spec fn scalar(v: YamlValue) -> Result<Seq<char>, ConfigErrorView> {
    match v {
        YamlValue::Str(s) => Ok(s@),
        YamlValue::Int(n) => Ok(decimal(n as int)),
        _ => Err(general("Key must be a string. Got "@ + description(v))),
    }
}

/// `message` followed by the description of `v`, as a general error.
fn general_error(message: &str, v: &YamlValue) -> (r: ConfigError)
    ensures
        r@ == general(message@ + description(*v)),
{
    let mut m = String::from_str(message);
    let d = describe(v);
    m.append(d.as_str());
    ConfigError::GeneralError { message: m }
}

/// The text of a key.
pub fn parse_key(key: &YamlValue) -> (r: Result<String, ConfigError>)
    ensures
        text_result(r) == scalar(*key),
{
    match key {
        YamlValue::Str(s) => Ok(s.clone()),
        YamlValue::Int(n) => Ok(decimal_text(*n)),
        _ => Err(general_error("Key must be a string. Got ", key)),
    }
}

/// The text of a scalar value.
pub fn parse_yaml_to_string(val: &YamlValue) -> (r: Result<String, ConfigError>)
    ensures
        text_result(r) == scalar(*val),
{
    parse_key(val)
}

/// The texts of the items of `items`; the first that is no scalar is refused.
pub open spec fn scalars(items: Seq<YamlValue>) -> Result<Seq<Seq<char>>, ConfigErrorView>
    decreases items.len(),
{
    if items.len() == 0 {
        Ok(seq![])
    } else {
        match scalars(items.drop_last()) {
            Err(e) => Err(e),
            Ok(texts) => match scalar(items.last()) {
                Ok(t) => Ok(texts.push(t)),
                Err(e) => Err(e),
            },
        }
    }
}

/// An array of scalars, as their texts.
pub open spec fn scalar_list(v: YamlValue) -> Result<Seq<Seq<char>>, ConfigErrorView> {
    match v {
        YamlValue::Array(items) => scalars(items@),
        _ => Err(general("Value must be an array. Got "@ + description(v))),
    }
}

pub open spec fn list_result(r: Result<Vec<String>, ConfigError>) -> Result<Seq<Seq<char>>, ConfigErrorView> {
    match r {
        Ok(v) => Ok(crate::notifiers::strings_view(v@)),
        Err(e) => Err(e@),
    }
}

/// The texts of an array of scalars.
pub fn parse_yaml_to_vec(val: &YamlValue) -> (r: Result<Vec<String>, ConfigError>)
    ensures
        list_result(r) == scalar_list(*val),
{
    match val {
        YamlValue::Array(arr) => {
            let mut items: Vec<String> = Vec::new();
            let mut i: usize = 0;
            assert(arr@.subrange(0, 0) =~= Seq::<YamlValue>::empty());
            assert(crate::notifiers::strings_view(items@) =~= Seq::<Seq<char>>::empty());
            while i < arr.len()
                invariant
                    0 <= i <= arr@.len(),
                    *val == YamlValue::Array(*arr),
                    scalars(arr@.subrange(0, i as int)) == Ok::<Seq<Seq<char>>, ConfigErrorView>(
                        crate::notifiers::strings_view(items@),
                    ),
                decreases arr@.len() - i,
            {
                assert(arr@.subrange(0, i + 1).drop_last() =~= arr@.subrange(0, i as int));
                assert(arr@.subrange(0, i + 1).last() == arr@[i as int]);
                let item = match parse_yaml_to_string(&arr[i]) {
                    Ok(item) => item,
                    Err(e) => {
                        proof {
                            assert(scalars(arr@.subrange(0, i + 1)) == Err::<Seq<Seq<char>>, ConfigErrorView>(e@));
                            lemma_scalars_stop(arr@, i as int + 1);
                            assert(scalars(arr@) == Err::<Seq<Seq<char>>, ConfigErrorView>(e@));
                            assert(scalar_list(*val) == scalars(arr@));
                        }
                        return Err(e);
                    },
                };
                let ghost before = items@;
                items.push(item);
                assert(crate::notifiers::strings_view(items@) =~= crate::notifiers::strings_view(before).push(item@));
                i = i + 1;
            }
            assert(arr@.subrange(0, i as int) =~= arr@);
            Ok(items)
        },
        _ => Err(general_error("Value must be an array. Got ", val)),
    }
}

/// A refusal within the first `n` items is the refusal of the whole array.
proof fn lemma_scalars_stop(items: Seq<YamlValue>, n: int)
    requires
        0 < n <= items.len(),
        scalars(items.subrange(0, n)) is Err,
    ensures
        scalars(items) == scalars(items.subrange(0, n)),
    decreases items.len() - n,
{
    if n < items.len() {
        assert(items.subrange(0, n + 1).drop_last() =~= items.subrange(0, n));
        lemma_scalars_stop(items, n + 1);
    } else {
        assert(items.subrange(0, n) =~= items);
    }
}

/// The entries of a mapping.
pub fn parse_yaml_to_hash(val: &YamlValue) -> (r: Result<&Vec<(YamlValue, YamlValue)>, ConfigError>)
    ensures
        r matches Ok(h) ==> *val == YamlValue::Hash(*h),
        r matches Err(e) ==> !(val is Hash) && e@ == general("Value must be a hash. Got "@ + description(*val)),
{
    match val {
        YamlValue::Hash(hash) => Ok(hash),
        _ => Err(general_error("Value must be a hash. Got ", val)),
    }
}

/// Whose attributes a mapping holds, for the messages about it.
#[derive(Clone, Copy, Debug, PartialEq, Eq, Structural)]
pub enum Scope {
    /// The attributes of a notifier; its `type` key is read elsewhere and skipped here.
    Notifier,
    /// The credentials of a checker.
    Auth,
}

/// How an attribute's value is read.
#[derive(Clone, Copy, Debug, PartialEq, Eq, Structural)]
pub enum AttrKind {
    /// A scalar, as its text.
    Text,
    /// A scalar that must be a valid URL, as the URL's canonical text.
    Url,
    /// A non-empty array of scalars: a command and its arguments.
    Command,
}

/// The value read for an attribute.
#[derive(Clone, Debug)]
pub enum AttrValue {
    Text(String),
    Command(String, Vec<String>),
}

pub enum AttrValueView {
    Text(Seq<char>),
    Command(Seq<char>, Seq<Seq<char>>),
}

impl View for AttrValue {
    type V = AttrValueView;

    open spec fn view(&self) -> AttrValueView {
        match self {
            AttrValue::Text(t) => AttrValueView::Text(t@),
            AttrValue::Command(c, a) => AttrValueView::Command(c@, strings_view(a@)),
        }
    }
}

/// How the value `v` of attribute `key` of notifier `id` reads as `kind`.
pub open spec fn attr_value(id: Seq<char>, kind: AttrKind, key: Seq<char>, v: YamlValue) -> Result<AttrValueView, ConfigErrorView> {
    match kind {
        AttrKind::Text => match scalar(v) {
            Ok(t) => Ok(AttrValueView::Text(t)),
            Err(e) => Err(e),
        },
        AttrKind::Url => match scalar(v) {
            Err(e) => Err(e),
            Ok(t) => match uri_text(t) {
                Some(u) => Ok(AttrValueView::Text(u)),
                None => Err(general("`"@ + t + "` in `notifiers."@ + id + "."@ + key + "` is not a valid URL"@)),
            },
        },
        AttrKind::Command => match scalar_list(v) {
            Err(_) => Err(general("`notifiers."@ + id + ".command` must be an array."@)),
            Ok(l) => if l.len() == 0 {
                Err(general("`notifiers."@ + id + ".command` must have a command specified"@))
            } else {
                Ok(AttrValueView::Command(l[0], l.drop_first()))
            },
        },
    }
}

/// The error for the attribute `key` that the mapping may not hold.
pub open spec fn unknown_attr(scope: Scope, id: Seq<char>, kind_name: Seq<char>, key: Seq<char>) -> ConfigErrorView {
    match scope {
        Scope::Notifier => ConfigErrorView::UnknownNotifierAttribute { notifier_id: id, notifier_type: kind_name, attr_name: key },
        Scope::Auth => general("Unknown attribute checkers."@ + id + ".basic_auth."@ + key),
    }
}

/// The attributes `names` (read as `kinds`) of the entries of a mapping, read in order: each
/// key must be a scalar and one of `names` (or a notifier's `type`), each value must read as
/// its kind, and the first entry that fails gives the error. A later entry for the same name
/// replaces an earlier one.
pub open spec fn scan(
    scope: Scope,
    id: Seq<char>,
    kind_name: Seq<char>,
    names: Seq<Seq<char>>,
    kinds: Seq<AttrKind>,
    entries: Seq<(YamlValue, YamlValue)>,
) -> Result<Seq<Option<AttrValueView>>, ConfigErrorView>
    decreases entries.len(),
{
    if entries.len() == 0 {
        Ok(Seq::new(names.len(), |i: int| None))
    } else {
        match scan(scope, id, kind_name, names, kinds, entries.drop_last()) {
            Err(e) => Err(e),
            Ok(vals) => match scalar(entries.last().0) {
                Err(e) => Err(e),
                Ok(key) => if scope == Scope::Notifier && key == "type"@ {
                    Ok(vals)
                } else if names.contains(key) {
                    match attr_value(id, kinds[position(names, key)], key, entries.last().1) {
                        Ok(x) => Ok(vals.update(position(names, key), Some(x))),
                        Err(e) => Err(e),
                    }
                } else {
                    Err(unknown_attr(scope, id, kind_name, key))
                },
            },
        }
    }
}

/// The attributes of `body`, which must be a mapping.
pub open spec fn scan_body(
    scope: Scope,
    id: Seq<char>,
    kind_name: Seq<char>,
    names: Seq<Seq<char>>,
    kinds: Seq<AttrKind>,
    body: YamlValue,
) -> Result<Seq<Option<AttrValueView>>, ConfigErrorView> {
    match body {
        YamlValue::Hash(entries) => scan(scope, id, kind_name, names, kinds, entries@),
        _ => match scope {
            Scope::Notifier => Err(general("`notifiers."@ + id + "` must be a hash. Got "@ + description(body))),
            Scope::Auth => Err(general("basic_auth must be a hash. Got "@ + description(body))),
        },
    }
}

pub open spec fn values_view(vals: Seq<Option<AttrValue>>) -> Seq<Option<AttrValueView>> {
    vals.map_values(|v: Option<AttrValue>| match v {
        Some(x) => Some(x@),
        None => None,
    })
}

pub open spec fn scan_result(r: Result<Vec<Option<AttrValue>>, ConfigError>) -> Result<Seq<Option<AttrValueView>>, ConfigErrorView> {
    match r {
        Ok(v) => Ok(values_view(v@)),
        Err(e) => Err(e@),
    }
}

/// The first position of `key` in `names`.
fn index_of(names: &Vec<String>, key: &String) -> (r: Option<usize>)
    ensures
        r is None ==> !strings_view(names@).contains(key@),
        r matches Some(i) ==> is_first(strings_view(names@), key@, i as int),
{
    let mut i: usize = 0;
    while i < names.len()
        invariant
            0 <= i <= names@.len(),
            forall|j: int| 0 <= j < i ==> strings_view(names@)[j] != key@,
        decreases names@.len() - i,
    {
        if names[i] == *key {
            return Some(i);
        }
        i = i + 1;
    }
    proof {
        if strings_view(names@).contains(key@) {
            let w = choose|w: int| 0 <= w < strings_view(names@).len() && #[trigger] strings_view(names@)[w] == key@;
            assert(strings_view(names@)[w] != key@);
        }
    }
    None
}

/// Reads the value `v` of attribute `key` of notifier `id` as `kind`.
fn read_attr(id: &String, kind: AttrKind, key: &String, v: &YamlValue) -> (r: Result<AttrValue, ConfigError>)
    ensures
        match r {
            Ok(x) => attr_value(id@, kind, key@, *v) == Ok::<AttrValueView, ConfigErrorView>(x@),
            Err(e) => attr_value(id@, kind, key@, *v) == Err::<AttrValueView, ConfigErrorView>(e@),
        },
{
    match kind {
        AttrKind::Text => match parse_yaml_to_string(v) {
            Ok(t) => Ok(AttrValue::Text(t)),
            Err(e) => Err(e),
        },
        AttrKind::Url => {
            let t = match parse_yaml_to_string(v) {
                Ok(t) => t,
                Err(e) => return Err(e),
            };
            match parse_uri(t.as_str()) {
                Some(u) => Ok(AttrValue::Text(u)),
                None => {
                    let mut m = String::from_str("`");
                    m.append(t.as_str());
                    m.append("` in `notifiers.");
                    m.append(id.as_str());
                    m.append(".");
                    m.append(key.as_str());
                    m.append("` is not a valid URL");
                    Err(ConfigError::GeneralError { message: m })
                },
            }
        },
        AttrKind::Command => {
            let mut vals = match parse_yaml_to_vec(v) {
                Ok(vals) => vals,
                Err(_) => {
                    let mut m = String::from_str("`notifiers.");
                    m.append(id.as_str());
                    m.append(".command` must be an array.");
                    return Err(ConfigError::GeneralError { message: m });
                },
            };
            if vals.len() == 0 {
                let mut m = String::from_str("`notifiers.");
                m.append(id.as_str());
                m.append(".command` must have a command specified");
                return Err(ConfigError::GeneralError { message: m });
            }
            let ghost all = strings_view(vals@);
            let command = vals.remove(0);
            assert(strings_view(vals@) =~= all.drop_first());
            Ok(AttrValue::Command(command, vals))
        },
    }
}

/// Reads the attributes `names` (as `kinds`) from the entries of a mapping.
fn scan_attributes(
    scope: Scope,
    id: &String,
    kind_name: &str,
    names: &Vec<String>,
    kinds: &Vec<AttrKind>,
    entries: &Vec<(YamlValue, YamlValue)>,
) -> (r: Result<Vec<Option<AttrValue>>, ConfigError>)
    requires
        names@.len() == kinds@.len(),
    ensures
        scan_result(r) == scan(scope, id@, kind_name@, strings_view(names@), kinds@, entries@),
        r matches Ok(vals) ==> vals@.len() == names@.len(),
{
    let ghost spec_names = strings_view(names@);
    let mut vals: Vec<Option<AttrValue>> = Vec::new();
    let mut i: usize = 0;
    while i < names.len()
        invariant
            0 <= i <= names@.len(),
            vals@.len() == i,
            forall|j: int| 0 <= j < i ==> vals@[j] is None,
        decreases names@.len() - i,
    {
        vals.push(None);
        i = i + 1;
    }
    assert(values_view(vals@) =~= Seq::new(names@.len(), |i: int| None::<AttrValueView>));
    assert(entries@.subrange(0, 0) =~= Seq::<(YamlValue, YamlValue)>::empty());
    let mut n: usize = 0;
    while n < entries.len()
        invariant
            0 <= n <= entries@.len(),
            names@.len() == kinds@.len(),
            spec_names == strings_view(names@),
            vals@.len() == names@.len(),
            scan(scope, id@, kind_name@, spec_names, kinds@, entries@.subrange(0, n as int))
                == Ok::<Seq<Option<AttrValueView>>, ConfigErrorView>(values_view(vals@)),
        decreases entries@.len() - n,
    {
        let ghost prefix = entries@.subrange(0, n + 1);
        assert(prefix.drop_last() =~= entries@.subrange(0, n as int));
        assert(prefix.last() == entries@[n as int]);
        let (k, v) = &entries[n];
        let key = match parse_key(k) {
            Ok(key) => key,
            Err(e) => {
                proof { lemma_scan_stop(scope, id@, kind_name@, spec_names, kinds@, entries@, n as int + 1); }
                return Err(e);
            },
        };
        let skip = match scope {
            Scope::Notifier => crate::config::same_text(&key, "type"),
            Scope::Auth => false,
        };
        if !skip {
            match index_of(names, &key) {
                Some(j) => {
                    proof { crate::config::lemma_first_unique(spec_names, key@, j as int); }
                    match read_attr(id, kinds[j], &key, v) {
                        Ok(x) => {
                            let ghost before = vals@;
                            vals.set(j, Some(x));
                            assert(values_view(vals@) =~= values_view(before).update(j as int, Some(x@)));
                        },
                        Err(e) => {
                            proof { lemma_scan_stop(scope, id@, kind_name@, spec_names, kinds@, entries@, n as int + 1); }
                            return Err(e);
                        },
                    }
                },
                None => {
                    let e = match scope {
                        Scope::Notifier => ConfigError::UnknownNotifierAttribute {
                            notifier_id: id.clone(),
                            notifier_type: String::from_str(kind_name),
                            attr_name: key,
                        },
                        Scope::Auth => {
                            let mut m = String::from_str("Unknown attribute checkers.");
                            m.append(id.as_str());
                            m.append(".basic_auth.");
                            m.append(key.as_str());
                            ConfigError::GeneralError { message: m }
                        },
                    };
                    proof { lemma_scan_stop(scope, id@, kind_name@, spec_names, kinds@, entries@, n as int + 1); }
                    return Err(e);
                },
            }
        }
        n = n + 1;
    }
    assert(entries@.subrange(0, n as int) =~= entries@);
    Ok(vals)
}

/// Reads the attributes `names` (as `kinds`) of `body`, which must be a mapping.
fn read_body(
    scope: Scope,
    id: &String,
    kind_name: &str,
    names: &Vec<String>,
    kinds: &Vec<AttrKind>,
    body: &YamlValue,
) -> (r: Result<Vec<Option<AttrValue>>, ConfigError>)
    requires
        names@.len() == kinds@.len(),
    ensures
        scan_result(r) == scan_body(scope, id@, kind_name@, strings_view(names@), kinds@, *body),
        r matches Ok(vals) ==> vals@.len() == names@.len(),
{
    match body {
        YamlValue::Hash(entries) => scan_attributes(scope, id, kind_name, names, kinds, entries),
        _ => match scope {
            Scope::Notifier => {
                let mut m = String::from_str("`notifiers.");
                m.append(id.as_str());
                m.append("` must be a hash. Got ");
                let d = describe(body);
                m.append(d.as_str());
                Err(ConfigError::GeneralError { message: m })
            },
            Scope::Auth => Err(general_error("basic_auth must be a hash. Got ", body)),
        },
    }
}

/// The error for a field that is not there: `prefix`, `id`, `suffix` make its path.
fn field_missing(prefix: &str, id: &String, suffix: &str) -> (r: ConfigError)
    ensures
        r@ == (ConfigErrorView::FieldMissing { path: prefix@ + id@ + suffix@ }),
{
    let mut path = String::from_str(prefix);
    path.append(id.as_str());
    path.append(suffix);
    ConfigError::FieldMissing { path }
}

/// The text of a value read.
pub open spec fn text_of(v: Option<AttrValueView>) -> Seq<char> {
    match v {
        Some(AttrValueView::Text(t)) => t,
        Some(AttrValueView::Command(c, _)) => c,
        None => seq![],
    }
}

/// The arguments of a command read.
pub open spec fn arguments_of(v: Option<AttrValueView>) -> Seq<Seq<char>> {
    match v {
        Some(AttrValueView::Command(_, a)) => a,
        _ => seq![],
    }
}

/// The text of the value read at `i`, if one was.
fn take_text(vals: &Vec<Option<AttrValue>>, i: usize) -> (r: Option<String>)
    requires
        i < vals@.len(),
    ensures
        r is None <==> values_view(vals@)[i as int] is None,
        r matches Some(t) ==> t@ == text_of(values_view(vals@)[i as int]),
{
    match &vals[i] {
        Some(AttrValue::Text(t)) => Some(t.clone()),
        Some(AttrValue::Command(c, _)) => Some(c.clone()),
        None => None,
    }
}

/// The command and arguments read at `i`, if any were.
fn take_command(vals: &Vec<Option<AttrValue>>, i: usize) -> (r: Option<(String, Vec<String>)>)
    requires
        i < vals@.len(),
    ensures
        r is None <==> values_view(vals@)[i as int] is None,
        r matches Some(c) ==> c.0@ == text_of(values_view(vals@)[i as int])
            && strings_view(c.1@) == arguments_of(values_view(vals@)[i as int]),
{
    match &vals[i] {
        Some(AttrValue::Command(c, a)) => Some((c.clone(), crate::notifiers::copy_strings(a))),
        Some(AttrValue::Text(t)) => {
            let none: Vec<String> = Vec::new();
            assert(strings_view(none@) =~= Seq::<Seq<char>>::empty());
            Some((t.clone(), none))
        },
        None => None,
    }
}

/// The username and password of checker `checker_id` read from `val`.
pub open spec fn auth_settings(checker_id: Seq<char>, val: YamlValue) -> Result<(Seq<char>, Seq<char>), ConfigErrorView> {
    match scan_body(Scope::Auth, checker_id, ""@, seq!["username"@, "password"@], seq![AttrKind::Text, AttrKind::Text], val) {
        Err(e) => Err(e),
        Ok(vals) => if vals[0] is None {
            Err(ConfigErrorView::FieldMissing { path: "checkers."@ + checker_id + ".basic_auth.username"@ })
        } else if vals[1] is None {
            Err(ConfigErrorView::FieldMissing { path: "checkers."@ + checker_id + ".basic_auth.password"@ })
        } else {
            Ok((text_of(vals[0]), text_of(vals[1])))
        },
    }
}

/// Reads the credentials of checker `checker_id`.
pub fn parse_basic_auth(checker_id: &str, val: &YamlValue) -> (r: Result<crate::config::BasicAuth, ConfigError>)
    ensures
        match r {
            Ok(a) => auth_settings(checker_id@, *val) == Ok::<(Seq<char>, Seq<char>), ConfigErrorView>((a.username@, a.password@)),
            Err(e) => auth_settings(checker_id@, *val) == Err::<(Seq<char>, Seq<char>), ConfigErrorView>(e@),
        },
{
    let id = checker_id.to_owned();
    let names = vec![String::from_str("username"), String::from_str("password")];
    let kinds = vec![AttrKind::Text, AttrKind::Text];
    assert(strings_view(names@) =~= seq!["username"@, "password"@]);
    assert(kinds@ =~= seq![AttrKind::Text, AttrKind::Text]);
    let vals = match read_body(Scope::Auth, &id, "", &names, &kinds, val) {
        Ok(vals) => vals,
        Err(e) => return Err(e),
    };
    let username = match take_text(&vals, 0) {
        Some(t) => t,
        None => return Err(field_missing("checkers.", &id, ".basic_auth.username")),
    };
    let password = match take_text(&vals, 1) {
        Some(t) => t,
        None => return Err(field_missing("checkers.", &id, ".basic_auth.password")),
    };
    Ok(crate::config::BasicAuth { username, password })
}

/// `k` is the key `type`.
pub open spec fn is_type_key(k: YamlValue) -> bool {
    match k {
        YamlValue::Str(s) => s@ == "type"@,
        _ => false,
    }
}

/// The entry at `i` is the first whose key is `type`.
pub open spec fn first_type_entry(entries: Seq<(YamlValue, YamlValue)>, i: int) -> bool {
    &&& 0 <= i < entries.len()
    &&& is_type_key(entries[i].0)
    &&& forall|j: int| 0 <= j < i ==> !is_type_key(#[trigger] entries[j].0)
}

/// The settings of notifier `id`, by the backend that its `type` names.
pub open spec fn notifier_settings(id: Seq<char>, body: YamlValue) -> Result<NotifierConfigView, ConfigErrorView> {
    match body {
        YamlValue::Hash(entries) => if exists|i: int| first_type_entry(entries@, i) {
            let i = choose|i: int| first_type_entry(entries@, i);
            match scalar(entries@[i].1) {
                Err(e) => Err(e),
                Ok(t) => if t == "telegram"@ {
                    match telegram_notifier::telegram_settings(id, body) {
                        Ok(c) => Ok(NotifierConfigView::Telegram { token: c.0, chat_id: c.1 }),
                        Err(e) => Err(e),
                    }
                } else if t == "command"@ {
                    match command_notifier::command_settings(id, body) {
                        Ok(c) => Ok(NotifierConfigView::Command { command: c.0, arguments: c.1 }),
                        Err(e) => Err(e),
                    }
                } else if t == "hipchat"@ {
                    match hipchat_notifier::hipchat_settings(id, body) {
                        Ok(c) => Ok(NotifierConfigView::Hipchat { token: c.0, room_id: c.1, base_url: c.2 }),
                        Err(e) => Err(e),
                    }
                } else if t == "slack"@ {
                    match slack_notifier::slack_settings(id, body) {
                        Ok(c) => Ok(NotifierConfigView::Slack { webhook_url: c }),
                        Err(e) => Err(e),
                    }
                } else {
                    Err(ConfigErrorView::InvalidNotifierType { notifier_id: id, type_value: t })
                },
            }
        } else {
            Err(ConfigErrorView::FieldMissing { path: "notifiers."@ + id + ".type"@ })
        },
        _ => Err(general("Value must be a hash. Got "@ + description(body))),
    }
}

/// The position of the first entry whose key is `type`.
fn find_type_entry(entries: &Vec<(YamlValue, YamlValue)>) -> (r: Option<usize>)
    ensures
        r matches Some(i) ==> first_type_entry(entries@, i as int),
        r is None ==> !exists|i: int| first_type_entry(entries@, i),
{
    let mut i: usize = 0;
    while i < entries.len()
        invariant
            0 <= i <= entries@.len(),
            forall|j: int| 0 <= j < i ==> !is_type_key(#[trigger] entries@[j].0),
        decreases entries@.len() - i,
    {
        let found = match &entries[i].0 {
            YamlValue::Str(s) => crate::config::same_text(s, "type"),
            _ => false,
        };
        if found {
            return Some(i);
        }
        i = i + 1;
    }
    None
}

/// Reads the settings of notifier `id` by the backend that its `type` names.
pub fn parse_notifier_config(id: &str, body: &YamlValue) -> (r: Result<NotifierConfig, ConfigError>)
    ensures
        match r {
            Ok(c) => notifier_settings(id@, *body) == Ok::<NotifierConfigView, ConfigErrorView>(c@),
            Err(e) => notifier_settings(id@, *body) == Err::<NotifierConfigView, ConfigErrorView>(e@),
        },
{
    let hash = match parse_yaml_to_hash(body) {
        Ok(h) => h,
        Err(e) => return Err(e),
    };
    let i = match find_type_entry(hash) {
        Some(i) => i,
        None => {
            let owned = id.to_owned();
            return Err(field_missing("notifiers.", &owned, ".type"));
        },
    };
    proof {
        let k = choose|k: int| first_type_entry(hash@, k);
        if k < i {
            assert(!is_type_key(hash@[k].0));
        } else if i < k {
            assert(!is_type_key(hash@[i as int].0));
        }
    }
    let type_val = match parse_yaml_to_string(&hash[i].1) {
        Ok(t) => t,
        Err(e) => return Err(e),
    };
    if crate::config::same_text(&type_val, "telegram") {
        match telegram_notifier::parse(id, body) {
            Ok(c) => Ok(NotifierConfig::Telegram(c)),
            Err(e) => Err(e),
        }
    } else if crate::config::same_text(&type_val, "command") {
        match command_notifier::parse(id, body) {
            Ok(c) => Ok(NotifierConfig::Command(c)),
            Err(e) => Err(e),
        }
    } else if crate::config::same_text(&type_val, "hipchat") {
        match hipchat_notifier::parse(id, body) {
            Ok(c) => Ok(NotifierConfig::Hipchat(c)),
            Err(e) => Err(e),
        }
    } else if crate::config::same_text(&type_val, "slack") {
        match slack_notifier::parse(id, body) {
            Ok(c) => Ok(NotifierConfig::Slack(c)),
            Err(e) => Err(e),
        }
    } else {
        Err(ConfigError::InvalidNotifierType { notifier_id: id.to_owned(), type_value: type_val })
    }
}

/// The notifier declared under `key` with settings `body`.
pub open spec fn notifier_entry(key: YamlValue, body: YamlValue) -> Result<(Seq<char>, NotifierConfigView), ConfigErrorView> {
    match scalar(key) {
        Err(e) => Err(e),
        Ok(id) => match notifier_settings(id, body) {
            Err(e) => Err(e),
            Ok(c) => Ok((id, c)),
        },
    }
}

/// Reads the notifier declared under `key` with settings `body`.
pub fn parse_notifier(key: &YamlValue, body: &YamlValue) -> (r: Result<Notifier, ConfigError>)
    ensures
        match r {
            Ok(n) => notifier_entry(*key, *body) == Ok::<(Seq<char>, NotifierConfigView), ConfigErrorView>(n@),
            Err(e) => notifier_entry(*key, *body) == Err::<(Seq<char>, NotifierConfigView), ConfigErrorView>(e@),
        },
{
    let id = match parse_key(key) {
        Ok(id) => id,
        Err(e) => return Err(e),
    };
    let config = match parse_notifier_config(id.as_str(), body) {
        Ok(c) => c,
        Err(e) => return Err(e),
    };
    Ok(Notifier { id, config })
}

/// The notifiers declared by the entries `entries`, in order, after those in `done`.
pub open spec fn notifier_list(
    done: Seq<(Seq<char>, NotifierConfigView)>,
    entries: Seq<(YamlValue, YamlValue)>,
) -> Result<Seq<(Seq<char>, NotifierConfigView)>, ConfigErrorView>
    decreases entries.len(),
{
    if entries.len() == 0 {
        Ok(done)
    } else {
        match notifier_entry(entries[0].0, entries[0].1) {
            Err(e) => Err(e),
            Ok(n) => notifier_list(done.push(n), entries.drop_first()),
        }
    }
}

/// The `notifiers` section: a mapping from identifier to settings.
pub open spec fn notifiers_section(v: YamlValue) -> Result<Seq<(Seq<char>, NotifierConfigView)>, ConfigErrorView> {
    match v {
        YamlValue::Hash(entries) => notifier_list(seq![], entries@),
        _ => Err(general("`notifiers` must be a hash. Got "@ + description(v))),
    }
}

pub open spec fn notifiers_view(v: Seq<Notifier>) -> Seq<(Seq<char>, NotifierConfigView)> {
    v.map_values(|n: Notifier| n@)
}

pub open spec fn checkers_view(v: Seq<CheckerConfig>) -> Seq<CheckerConfigView> {
    v.map_values(|c: CheckerConfig| c@)
}

/// Reads the `notifiers` section.
pub fn parse_notifiers(notifier_configs: &YamlValue) -> (r: Result<Vec<Notifier>, ConfigError>)
    ensures
        match r {
            Ok(l) => notifiers_section(*notifier_configs) == Ok::<Seq<(Seq<char>, NotifierConfigView)>, ConfigErrorView>(
                notifiers_view(l@),
            ),
            Err(e) => notifiers_section(*notifier_configs) == Err::<Seq<(Seq<char>, NotifierConfigView)>, ConfigErrorView>(e@),
        },
{
    let entries = match notifier_configs {
        YamlValue::Hash(entries) => entries,
        _ => return Err(general_error("`notifiers` must be a hash. Got ", notifier_configs)),
    };
    let mut notifiers: Vec<Notifier> = Vec::new();
    assert(notifiers_view(notifiers@) =~= seq![]);
    assert(entries@.subrange(0, entries@.len() as int) =~= entries@);
    let mut i: usize = 0;
    while i < entries.len()
        invariant
            0 <= i <= entries@.len(),
            *notifier_configs == YamlValue::Hash(*entries),
            notifier_list(seq![], entries@) == notifier_list(
                notifiers_view(notifiers@),
                entries@.subrange(i as int, entries@.len() as int),
            ),
        decreases entries@.len() - i,
    {
        let ghost rest = entries@.subrange(i as int, entries@.len() as int);
        assert(rest[0] == entries@[i as int]);
        assert(rest.drop_first() =~= entries@.subrange(i + 1, entries@.len() as int));
        let n = match parse_notifier(&entries[i].0, &entries[i].1) {
            Ok(n) => n,
            Err(e) => return Err(e),
        };
        let ghost before = notifiers@;
        notifiers.push(n);
        assert(notifiers_view(notifiers@) =~= notifiers_view(before).push(n@));
        i = i + 1;
    }
    assert(entries@.subrange(i as int, entries@.len() as int) =~= Seq::<(YamlValue, YamlValue)>::empty());
    Ok(notifiers)
}

/// The checkers declared by the entries `entries`, in order, after those in `done`.
pub open spec fn checker_list(done: Seq<CheckerConfigView>, entries: Seq<(YamlValue, YamlValue)>) -> Result<Seq<CheckerConfigView>, ConfigErrorView>
    decreases entries.len(),
{
    if entries.len() == 0 {
        Ok(done)
    } else {
        match checker::checker_settings(entries[0].0, entries[0].1) {
            Err(e) => Err(e),
            Ok(c) => checker_list(done.push(c), entries.drop_first()),
        }
    }
}

/// The `checkers` section: a mapping from identifier to attributes.
pub open spec fn checkers_section(v: YamlValue) -> Result<Seq<CheckerConfigView>, ConfigErrorView> {
    match v {
        YamlValue::Hash(entries) => checker_list(seq![], entries@),
        _ => Err(general("`checkers` must be a hash. Got "@ + description(v))),
    }
}

/// Reads the `checkers` section.
pub fn parse_checkers(checker_configs: &YamlValue) -> (r: Result<Vec<CheckerConfig>, ConfigError>)
    ensures
        match r {
            Ok(l) => checkers_section(*checker_configs) == Ok::<Seq<CheckerConfigView>, ConfigErrorView>(checkers_view(l@)),
            Err(e) => checkers_section(*checker_configs) == Err::<Seq<CheckerConfigView>, ConfigErrorView>(e@),
        },
{
    let entries = match checker_configs {
        YamlValue::Hash(entries) => entries,
        _ => return Err(general_error("`checkers` must be a hash. Got ", checker_configs)),
    };
    let mut checkers: Vec<CheckerConfig> = Vec::new();
    assert(checkers_view(checkers@) =~= seq![]);
    assert(entries@.subrange(0, entries@.len() as int) =~= entries@);
    let mut i: usize = 0;
    while i < entries.len()
        invariant
            0 <= i <= entries@.len(),
            *checker_configs == YamlValue::Hash(*entries),
            checker_list(seq![], entries@) == checker_list(
                checkers_view(checkers@),
                entries@.subrange(i as int, entries@.len() as int),
            ),
        decreases entries@.len() - i,
    {
        let ghost rest = entries@.subrange(i as int, entries@.len() as int);
        assert(rest[0] == entries@[i as int]);
        assert(rest.drop_first() =~= entries@.subrange(i + 1, entries@.len() as int));
        let c = match checker::parse(&entries[i].0, &entries[i].1) {
            Ok(c) => c,
            Err(e) => return Err(e),
        };
        let ghost before = checkers@;
        checkers.push(c);
        assert(checkers_view(checkers@) =~= checkers_view(before).push(c@));
        i = i + 1;
    }
    assert(entries@.subrange(i as int, entries@.len() as int) =~= Seq::<(YamlValue, YamlValue)>::empty());
    Ok(checkers)
}

/// What a configuration holds so far: its checkers and its notifiers.
pub type Sections = (Seq<CheckerConfigView>, Seq<(Seq<char>, NotifierConfigView)>);

/// Reads the root entries `entries` of a document into `st`: `checkers` and `notifiers`
/// replace what was read before; any other key is refused.
pub open spec fn root_scan(st: Sections, entries: Seq<(YamlValue, YamlValue)>) -> Result<Sections, ConfigErrorView>
    decreases entries.len(),
{
    if entries.len() == 0 {
        Ok(st)
    } else {
        match scalar(entries[0].0) {
            Err(e) => Err(e),
            Ok(key) => if key == "checkers"@ {
                match checkers_section(entries[0].1) {
                    Err(e) => Err(e),
                    Ok(c) => root_scan((c, st.1), entries.drop_first()),
                }
            } else if key == "notifiers"@ {
                match notifiers_section(entries[0].1) {
                    Err(e) => Err(e),
                    Ok(n) => root_scan((st.0, n), entries.drop_first()),
                }
            } else {
                Err(ConfigErrorView::UnknownRootElement { name: key })
            },
        }
    }
}

/// Reads the documents `docs` in order into `st`; each must be a mapping.
pub open spec fn docs_scan(st: Sections, docs: Seq<YamlValue>) -> Result<Sections, ConfigErrorView>
    decreases docs.len(),
{
    if docs.len() == 0 {
        Ok(st)
    } else {
        match docs[0] {
            YamlValue::Hash(entries) => match root_scan(st, entries@) {
                Err(e) => Err(e),
                Ok(next) => docs_scan(next, docs.drop_first()),
            },
            _ => Err(general("Root element of YAML must be Hash"@)),
        }
    }
}

/// The configuration that the YAML documents `docs` declare.
pub open spec fn config_of(docs: Seq<YamlValue>) -> Result<Sections, ConfigErrorView> {
    docs_scan((seq![], seq![]), docs)
}

/// Reads the configuration that the YAML documents `docs` declare.
pub fn parse_config(docs: &Vec<YamlValue>) -> (r: Result<FileConfig, ConfigError>)
    ensures
        match r {
            Ok(c) => config_of(docs@) == Ok::<Sections, ConfigErrorView>(
                (checkers_view(c.checkers@), notifiers_view(c.notifiers@)),
            ),
            Err(e) => config_of(docs@) == Err::<Sections, ConfigErrorView>(e@),
        },
{
    let mut checkers: Vec<CheckerConfig> = Vec::new();
    let mut notifiers: Vec<Notifier> = Vec::new();
    assert(checkers_view(checkers@) =~= seq![]);
    assert(notifiers_view(notifiers@) =~= seq![]);
    assert(docs@.subrange(0, docs@.len() as int) =~= docs@);
    let mut d: usize = 0;
    while d < docs.len()
        invariant
            0 <= d <= docs@.len(),
            config_of(docs@) == docs_scan(
                (checkers_view(checkers@), notifiers_view(notifiers@)),
                docs@.subrange(d as int, docs@.len() as int),
            ),
        decreases docs@.len() - d,
    {
        let ghost rest = docs@.subrange(d as int, docs@.len() as int);
        assert(rest[0] == docs@[d as int]);
        assert(rest.drop_first() =~= docs@.subrange(d + 1, docs@.len() as int));
        let root = match &docs[d] {
            YamlValue::Hash(root) => root,
            _ => {
                return Err(ConfigError::GeneralError { message: String::from_str("Root element of YAML must be Hash") });
            },
        };
        assert(root@.subrange(0, root@.len() as int) =~= root@);
        let mut i: usize = 0;
        while i < root.len()
            invariant
                0 <= i <= root@.len(),
                docs@[d as int] == YamlValue::Hash(*root),
                root_scan((checkers_view(checkers@), notifiers_view(notifiers@)), root@.subrange(i as int, root@.len() as int))
                    matches Ok(st) ==> docs_scan(st, docs@.subrange(d + 1, docs@.len() as int)) == config_of(docs@),
                root_scan((checkers_view(checkers@), notifiers_view(notifiers@)), root@.subrange(i as int, root@.len() as int))
                    matches Err(e) ==> config_of(docs@) == Err::<Sections, ConfigErrorView>(e),
            decreases root@.len() - i,
        {
            let ghost rest = root@.subrange(i as int, root@.len() as int);
            assert(rest[0] == root@[i as int]);
            assert(rest.drop_first() =~= root@.subrange(i + 1, root@.len() as int));
            let (k, v) = &root[i];
            let key = match parse_key(k) {
                Ok(key) => key,
                Err(e) => return Err(e),
            };
            if crate::config::same_text(&key, "checkers") {
                checkers = match parse_checkers(v) {
                    Ok(c) => c,
                    Err(e) => return Err(e),
                };
            } else if crate::config::same_text(&key, "notifiers") {
                notifiers = match parse_notifiers(v) {
                    Ok(n) => n,
                    Err(e) => return Err(e),
                };
            } else {
                return Err(ConfigError::UnknownRootElement { name: key });
            }
            i = i + 1;
        }
        assert(root@.subrange(i as int, root@.len() as int) =~= Seq::<(YamlValue, YamlValue)>::empty());
        d = d + 1;
    }
    assert(docs@.subrange(d as int, docs@.len() as int) =~= Seq::<YamlValue>::empty());
    Ok(FileConfig { checkers, notifiers })
}

/// An error within the first `n` entries is the error of the whole mapping.
proof fn lemma_scan_stop(
    scope: Scope,
    id: Seq<char>,
    kind_name: Seq<char>,
    names: Seq<Seq<char>>,
    kinds: Seq<AttrKind>,
    entries: Seq<(YamlValue, YamlValue)>,
    n: int,
)
    requires
        0 < n <= entries.len(),
        scan(scope, id, kind_name, names, kinds, entries.subrange(0, n)) is Err,
    ensures
        scan(scope, id, kind_name, names, kinds, entries) == scan(scope, id, kind_name, names, kinds, entries.subrange(0, n)),
    decreases entries.len() - n,
{
    if n < entries.len() {
        assert(entries.subrange(0, n + 1).drop_last() =~= entries.subrange(0, n));
        lemma_scan_stop(scope, id, kind_name, names, kinds, entries, n + 1);
    } else {
        assert(entries.subrange(0, n) =~= entries);
    }
}

} // verus!
