use vstd::prelude::*;

use crate::config::TelegramNotifierConfig;
use crate::config_parser::{
    field_missing, read_body, scan_body, take_text, text_of, AttrKind, ConfigError, ConfigErrorView,
    Scope, YamlValue,
};
use crate::notifiers::strings_view;

verus! {

/// The token and chat of the Telegram notifier `id` whose settings are `body`.
pub open spec fn telegram_settings(id: Seq<char>, body: YamlValue) -> Result<(Seq<char>, Seq<char>), ConfigErrorView> {
    match scan_body(Scope::Notifier, id, "telegram"@, seq!["token"@, "chat_id"@], seq![AttrKind::Text, AttrKind::Text], body) {
        Err(e) => Err(e),
        Ok(vals) => if vals[0] is None {
            Err(ConfigErrorView::FieldMissing { path: "notifiers."@ + id + ".token"@ })
        } else if vals[1] is None {
            Err(ConfigErrorView::FieldMissing { path: "notifiers."@ + id + ".chat_id"@ })
        } else {
            Ok((text_of(vals[0]), text_of(vals[1])))
        },
    }
}

/// Reads the settings of the Telegram notifier `id`.
pub fn parse(id: &str, body: &YamlValue) -> (r: Result<TelegramNotifierConfig, ConfigError>)
    ensures
        match r {
            Ok(c) => telegram_settings(id@, *body) == Ok::<(Seq<char>, Seq<char>), ConfigErrorView>((c.token@, c.chat_id@)),
            Err(e) => telegram_settings(id@, *body) == Err::<(Seq<char>, Seq<char>), ConfigErrorView>(e@),
        },
{
    let id = id.to_owned();
    let names = vec![String::from_str("token"), String::from_str("chat_id")];
    let kinds = vec![AttrKind::Text, AttrKind::Text];
    assert(strings_view(names@) =~= seq!["token"@, "chat_id"@]);
    assert(kinds@ =~= seq![AttrKind::Text, AttrKind::Text]);
    let vals = match read_body(Scope::Notifier, &id, "telegram", &names, &kinds, body) {
        Ok(vals) => vals,
        Err(e) => return Err(e),
    };
    let token = match take_text(&vals, 0) {
        Some(t) => t,
        None => return Err(field_missing("notifiers.", &id, ".token")),
    };
    let chat_id = match take_text(&vals, 1) {
        Some(t) => t,
        None => return Err(field_missing("notifiers.", &id, ".chat_id")),
    };
    Ok(TelegramNotifierConfig { token, chat_id })
}

} // verus!
