use vstd::prelude::*;

use crate::config::CommandNotifierConfig;
use crate::config_parser::{
    arguments_of, field_missing, read_body, scan_body, take_command, text_of, AttrKind, ConfigError,
    ConfigErrorView, Scope, YamlValue,
};
use crate::notifiers::strings_view;

verus! {

/// The command and arguments of the command notifier `id` whose settings are `body`.
pub open spec fn command_settings(id: Seq<char>, body: YamlValue) -> Result<(Seq<char>, Seq<Seq<char>>), ConfigErrorView> {
    match scan_body(Scope::Notifier, id, "command"@, seq!["command"@], seq![AttrKind::Command], body) {
        Err(e) => Err(e),
        Ok(vals) => if vals[0] is None {
            Err(ConfigErrorView::FieldMissing { path: "notifiers."@ + id + ".command"@ })
        } else {
            Ok((text_of(vals[0]), arguments_of(vals[0])))
        },
    }
}

/// Reads the settings of the command notifier `id`: `command` lists the program, then its
/// arguments.
pub fn parse(id: &str, body: &YamlValue) -> (r: Result<CommandNotifierConfig, ConfigError>)
    ensures
        match r {
            Ok(c) => command_settings(id@, *body) == Ok::<(Seq<char>, Seq<Seq<char>>), ConfigErrorView>(
                (c.command@, strings_view(c.arguments@)),
            ),
            Err(e) => command_settings(id@, *body) == Err::<(Seq<char>, Seq<Seq<char>>), ConfigErrorView>(e@),
        },
{
    let id = id.to_owned();
    let names = vec![String::from_str("command")];
    let kinds = vec![AttrKind::Command];
    assert(strings_view(names@) =~= seq!["command"@]);
    assert(kinds@ =~= seq![AttrKind::Command]);
    let vals = match read_body(Scope::Notifier, &id, "command", &names, &kinds, body) {
        Ok(vals) => vals,
        Err(e) => return Err(e),
    };
    let (command, arguments) = match take_command(&vals, 0) {
        Some(c) => c,
        None => return Err(field_missing("notifiers.", &id, ".command")),
    };
    Ok(CommandNotifierConfig { command, arguments })
}

} // verus!
