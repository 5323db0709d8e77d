use vstd::prelude::*;

use crate::config::HipchatNotifierConfig;
use crate::config_parser::{
    field_missing, read_body, scan_body, take_text, text_of, AttrKind, ConfigError, ConfigErrorView, Scope, YamlValue,
};
use crate::notifiers::strings_view;

verus! {

/// The token, room and server URL of the HipChat notifier `id` whose settings are `body`.
pub open spec fn hipchat_settings(id: Seq<char>, body: YamlValue) -> Result<(Seq<char>, Seq<char>, Seq<char>), ConfigErrorView> {
    match scan_body(
        Scope::Notifier,
        id,
        "hipchat"@,
        seq!["token"@, "room_id"@, "base_url"@],
        seq![AttrKind::Text, AttrKind::Text, AttrKind::Url],
        body,
    ) {
        Err(e) => Err(e),
        Ok(vals) => if vals[0] is None {
            Err(ConfigErrorView::FieldMissing { path: "notifiers."@ + id + ".token"@ })
        } else if vals[1] is None {
            Err(ConfigErrorView::FieldMissing { path: "notifiers."@ + id + ".room_id"@ })
        } else if vals[2] is None {
            Err(ConfigErrorView::FieldMissing { path: "notifiers."@ + id + ".base_url"@ })
        } else {
            Ok((text_of(vals[0]), text_of(vals[1]), text_of(vals[2])))
        },
    }
}

/// Reads the settings of the HipChat notifier `id`.
pub fn parse(id: &str, body: &YamlValue) -> (r: Result<HipchatNotifierConfig, ConfigError>)
    ensures
        match r {
            Ok(c) => hipchat_settings(id@, *body) == Ok::<(Seq<char>, Seq<char>, Seq<char>), ConfigErrorView>(
                (c.token@, c.room_id@, c.base_url@),
            ),
            Err(e) => hipchat_settings(id@, *body) == Err::<(Seq<char>, Seq<char>, Seq<char>), ConfigErrorView>(e@),
        },
{
    let id = id.to_owned();
    let names = vec![String::from_str("token"), String::from_str("room_id"), String::from_str("base_url")];
    let kinds = vec![AttrKind::Text, AttrKind::Text, AttrKind::Url];
    assert(strings_view(names@) =~= seq!["token"@, "room_id"@, "base_url"@]);
    assert(kinds@ =~= seq![AttrKind::Text, AttrKind::Text, AttrKind::Url]);
    let vals = match read_body(Scope::Notifier, &id, "hipchat", &names, &kinds, body) {
        Ok(vals) => vals,
        Err(e) => return Err(e),
    };
    let token = match take_text(&vals, 0) {
        Some(t) => t,
        None => return Err(field_missing("notifiers.", &id, ".token")),
    };
    let room_id = match take_text(&vals, 1) {
        Some(t) => t,
        None => return Err(field_missing("notifiers.", &id, ".room_id")),
    };
    let base_url = match take_text(&vals, 2) {
        Some(t) => t,
        None => return Err(field_missing("notifiers.", &id, ".base_url")),
    };
    Ok(HipchatNotifierConfig { base_url, token, room_id })
}

} // verus!
