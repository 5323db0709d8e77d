use vstd::prelude::*;

use crate::config::SlackNotifierConfig;
use crate::config_parser::{
    field_missing, read_body, scan_body, take_text, text_of, AttrKind, ConfigError, ConfigErrorView, Scope, YamlValue,
};
use crate::notifiers::strings_view;

verus! {

/// The webhook URL of the Slack notifier `id` whose settings are `body`.
pub open spec fn slack_settings(id: Seq<char>, body: YamlValue) -> Result<Seq<char>, ConfigErrorView> {
    match scan_body(Scope::Notifier, id, "slack"@, seq!["webhook_url"@], seq![AttrKind::Url], body) {
        Err(e) => Err(e),
        Ok(vals) => if vals[0] is None {
            Err(ConfigErrorView::FieldMissing { path: "notifiers."@ + id + ".webhook_url"@ })
        } else {
            Ok(text_of(vals[0]))
        },
    }
}

/// Reads the settings of the Slack notifier `id`.
pub fn parse(id: &str, body: &YamlValue) -> (r: Result<SlackNotifierConfig, ConfigError>)
    ensures
        match r {
            Ok(c) => slack_settings(id@, *body) == Ok::<Seq<char>, ConfigErrorView>(c.webhook_url@),
            Err(e) => slack_settings(id@, *body) == Err::<Seq<char>, ConfigErrorView>(e@),
        },
{
    let id = id.to_owned();
    let names = vec![String::from_str("webhook_url")];
    let kinds = vec![AttrKind::Url];
    assert(strings_view(names@) =~= seq!["webhook_url"@]);
    assert(kinds@ =~= seq![AttrKind::Url]);
    let vals = match read_body(Scope::Notifier, &id, "slack", &names, &kinds, body) {
        Ok(vals) => vals,
        Err(e) => return Err(e),
    };
    let webhook_url = match take_text(&vals, 0) {
        Some(t) => t,
        None => return Err(field_missing("notifiers.", &id, ".webhook_url")),
    };
    Ok(SlackNotifierConfig { webhook_url })
}

} // verus!
