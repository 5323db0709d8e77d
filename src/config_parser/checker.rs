use vstd::prelude::*;

use crate::config::{same_text, BasicAuth, CheckerConfig, CheckerConfigView, Interval};
use crate::config_parser::{
    auth_settings, count_digits, describe, digit_count, duration_of, parse_basic_auth, MAX_INTERVAL_DIGITS, parse_duration, parse_key, parse_uri, parse_yaml_to_string,
    parse_yaml_to_vec, scalar, scalar_list, uri_text, description, general, ConfigError, ConfigErrorView,
    YamlValue,
};
use crate::notifiers::strings_view;

verus! {

/// What the attributes of a checker read so far give.
pub struct CheckerScan {
    pub interval: Interval,
    pub url: Option<Seq<char>>,
    pub notifiers: Seq<Seq<char>>,
    pub basic_auth: Option<(Seq<char>, Seq<char>)>,
}

/// Before any attribute: ten seconds between probes, no URL, no notifiers, no credentials.
pub open spec fn checker_defaults() -> CheckerScan {
    CheckerScan { interval: Interval { secs: 10, nanos: 0 }, url: None, notifiers: seq![], basic_auth: None }
}

/// Reads the attribute `key` with value `v` of checker `id` into `st`. An interval whose text
/// holds more than `MAX_INTERVAL_DIGITS` digits is refused as invalid.
pub open spec fn checker_step(id: Seq<char>, st: CheckerScan, key: Seq<char>, v: YamlValue) -> Result<CheckerScan, ConfigErrorView> {
    if key == "interval"@ {
        match scalar(v) {
            Err(e) => Err(e),
            Ok(t) => if digit_count(t) > MAX_INTERVAL_DIGITS {
                Err(ConfigErrorView::InvalidCheckerInterval { checker_id: id, interval: t })
            } else {
                match duration_of(t) {
                    Some(d) => Ok(CheckerScan { interval: Interval { secs: d.0, nanos: d.1 }, ..st }),
                    None => Err(ConfigErrorView::InvalidCheckerInterval { checker_id: id, interval: t }),
                }
            },
        }
    } else if key == "url"@ {
        match scalar(v) {
            Err(e) => Err(e),
            Ok(t) => match uri_text(t) {
                Some(u) => Ok(CheckerScan { url: Some(u), ..st }),
                None => Err(ConfigErrorView::InvalidCheckerUrl { checker_id: id, url: t }),
            },
        }
    } else if key == "notifiers"@ {
        match scalar_list(v) {
            Err(e) => Err(e),
            Ok(l) => Ok(CheckerScan { notifiers: l, ..st }),
        }
    } else if key == "basic_auth"@ {
        match auth_settings(id, v) {
            Err(e) => Err(e),
            Ok(a) => Ok(CheckerScan { basic_auth: Some(a), ..st }),
        }
    } else {
        Err(ConfigErrorView::UnknownCheckerAttribute { checker_id: id, attr_name: key })
    }
}

/// Reads the attribute entries of checker `id` in order, from `st`; the first that fails
/// gives the error.
pub open spec fn checker_scan(id: Seq<char>, st: CheckerScan, entries: Seq<(YamlValue, YamlValue)>) -> Result<CheckerScan, ConfigErrorView>
    decreases entries.len(),
{
    if entries.len() == 0 {
        Ok(st)
    } else {
        match scalar(entries[0].0) {
            Err(e) => Err(e),
            Ok(key) => match checker_step(id, st, key, entries[0].1) {
                Err(e) => Err(e),
                Ok(next) => checker_scan(id, next, entries.drop_first()),
            },
        }
    }
}

/// The checker declared under `key` with attributes `body`; its URL is required.
pub open spec fn checker_settings(key: YamlValue, body: YamlValue) -> Result<CheckerConfigView, ConfigErrorView> {
    match scalar(key) {
        Err(e) => Err(e),
        Ok(id) => match body {
            YamlValue::Hash(entries) => match checker_scan(id, checker_defaults(), entries@) {
                Err(e) => Err(e),
                Ok(st) => match st.url {
                    None => Err(ConfigErrorView::FieldMissing { path: "checkers."@ + id + ".url"@ }),
                    Some(u) => Ok(
                        CheckerConfigView {
                            id,
                            url: u,
                            interval: st.interval,
                            notifiers: st.notifiers,
                            basic_auth: st.basic_auth,
                        },
                    ),
                },
            },
            _ => Err(general("`checkers."@ + id + "` must be a hash. Got "@ + description(body))),
        },
    }
}

pub open spec fn scan_state(
    interval: Interval,
    url: Option<String>,
    notifiers: Seq<String>,
    basic_auth: Option<BasicAuth>,
) -> CheckerScan {
    CheckerScan {
        interval,
        url: match url {
            Some(u) => Some(u@),
            None => None,
        },
        notifiers: strings_view(notifiers),
        basic_auth: match basic_auth {
            Some(a) => Some((a.username@, a.password@)),
            None => None,
        },
    }
}

/// Reads the checker declared under `key` with attributes `body`.
pub fn parse(key: &YamlValue, body: &YamlValue) -> (r: Result<CheckerConfig, ConfigError>)
    ensures
        match r {
            Ok(c) => checker_settings(*key, *body) == Ok::<CheckerConfigView, ConfigErrorView>(c@),
            Err(e) => checker_settings(*key, *body) == Err::<CheckerConfigView, ConfigErrorView>(e@),
        },
{
    let id = match parse_key(key) {
        Ok(id) => id,
        Err(e) => return Err(e),
    };
    let entries = match body {
        YamlValue::Hash(entries) => entries,
        _ => {
            let mut m = String::from_str("`checkers.");
            m.append(id.as_str());
            m.append("` must be a hash. Got ");
            let d = describe(body);
            m.append(d.as_str());
            return Err(ConfigError::GeneralError { message: m });
        },
    };
    let mut interval = Interval::default_interval();
    let mut url_opt: Option<String> = None;
    let mut notifiers: Vec<String> = Vec::new();
    let mut basic_auth: Option<BasicAuth> = None;
    assert(strings_view(notifiers@) =~= Seq::<Seq<char>>::empty());
    assert(scan_state(interval, url_opt, notifiers@, basic_auth) == checker_defaults());
    assert(entries@.subrange(0, entries@.len() as int) =~= entries@);
    let mut i: usize = 0;
    while i < entries.len()
        invariant
            0 <= i <= entries@.len(),
            *body == YamlValue::Hash(*entries),
            scalar(*key) == Ok::<Seq<char>, ConfigErrorView>(id@),
            checker_scan(id@, checker_defaults(), entries@) == checker_scan(
                id@,
                scan_state(interval, url_opt, notifiers@, basic_auth),
                entries@.subrange(i as int, entries@.len() as int),
            ),
        decreases entries@.len() - i,
    {
        let ghost rest = entries@.subrange(i as int, entries@.len() as int);
        assert(rest[0] == entries@[i as int]);
        assert(rest.drop_first() =~= entries@.subrange(i + 1, entries@.len() as int));
        let (k, v) = &entries[i];
        let attr = match parse_key(k) {
            Ok(attr) => attr,
            Err(e) => return Err(e),
        };
        if same_text(&attr, "interval") {
            let text = match parse_key(v) {
                Ok(t) => t,
                Err(e) => return Err(e),
            };
            if count_digits(text.as_str()) > MAX_INTERVAL_DIGITS {
                return Err(ConfigError::InvalidCheckerInterval { checker_id: id, interval: text });
            }
            match parse_duration(text.as_str()) {
                Some(d) => {
                    interval = d;
                },
                None => return Err(ConfigError::InvalidCheckerInterval { checker_id: id, interval: text }),
            }
        } else if same_text(&attr, "url") {
            let text = match parse_yaml_to_string(v) {
                Ok(t) => t,
                Err(e) => return Err(e),
            };
            match parse_uri(text.as_str()) {
                Some(u) => {
                    url_opt = Some(u);
                },
                None => return Err(ConfigError::InvalidCheckerUrl { checker_id: id, url: text }),
            }
        } else if same_text(&attr, "notifiers") {
            notifiers = match parse_yaml_to_vec(v) {
                Ok(l) => l,
                Err(e) => return Err(e),
            };
        } else if same_text(&attr, "basic_auth") {
            let auth = match parse_basic_auth(id.as_str(), v) {
                Ok(a) => a,
                Err(e) => return Err(e),
            };
            basic_auth = Some(auth);
        } else {
            return Err(ConfigError::UnknownCheckerAttribute { checker_id: id, attr_name: attr });
        }
        i = i + 1;
    }
    assert(entries@.subrange(i as int, entries@.len() as int) =~= Seq::<(YamlValue, YamlValue)>::empty());
    let url = match url_opt {
        Some(u) => u,
        None => {
            let mut path = String::from_str("checkers.");
            path.append(id.as_str());
            path.append(".url");
            return Err(ConfigError::FieldMissing { path });
        },
    };
    let r = CheckerConfig { id, url, interval, notifiers, basic_auth };
    proof {
        assert(r@.notifiers == strings_view(r.notifiers@));
    }
    Ok(r)
}

} // verus!
