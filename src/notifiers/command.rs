use vstd::prelude::*;

use crate::config::CommandNotifierConfig;
use crate::notifiers::{copy_strings, field, fields_view, strings_view, Delivery, DeliveryView, Fields, FieldsView, Notification};
use crate::reactor::State;

verus! {

/// Runs an external command, telling it about the change through its environment.
#[derive(Clone, Debug)]
pub struct CommandNotifier {
    pub command: String,
    pub arguments: Vec<String>,
}

/// `"true"` for up, `"false"` for down.
pub open spec fn ok_text(state: State) -> Seq<char> {
    match state {
        State::Up => "true"@,
        State::Down => "false"@,
    }
}

/// The variables set for the command: the checker's identifier, its URL and whether it is up.
pub open spec fn command_env(id: Seq<char>, url: Seq<char>, state: State) -> FieldsView {
    seq![("HELLCHECK_ID"@, id), ("HELLCHECK_URL"@, url), ("HELLCHECK_OK"@, ok_text(state))]
}

impl CommandNotifier {
    pub fn from_config(config: &CommandNotifierConfig) -> (r: Self)
        ensures
            r.command == config.command,
            r.arguments@ == config.arguments@,
    {
        CommandNotifier { command: config.command.clone(), arguments: copy_strings(&config.arguments) }
    }

    /// The command run, with its arguments and environment, that reports `notification`.
    pub fn delivery(&self, notification: &Notification) -> (r: Delivery)
        ensures
            r@ == (DeliveryView::Run {
                command: self.command@,
                arguments: strings_view(self.arguments@),
                env: command_env(notification.checker_id@, notification.checker_url@, notification.state),
            }),
    {
        let ok = match notification.state {
            State::Up => String::from_str("true"),
            State::Down => String::from_str("false"),
        };
        let mut env: Fields = Vec::new();
        env.push(field("HELLCHECK_ID", notification.checker_id.clone()));
        env.push(field("HELLCHECK_URL", notification.checker_url.clone()));
        env.push(field("HELLCHECK_OK", ok));
        assert(fields_view(env@) =~= command_env(notification.checker_id@, notification.checker_url@, notification.state));
        Delivery::Run { command: self.command.clone(), arguments: copy_strings(&self.arguments), env }
    }
}

} // verus!
