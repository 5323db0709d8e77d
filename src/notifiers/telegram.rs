use vstd::prelude::*;
use vstd::string::*;

use crate::config::TelegramNotifierConfig;
use crate::notifiers::{field, join2, join3, fields_view, Delivery, DeliveryView, Fields, Notification, Payload, PayloadView};
use crate::reactor::State;

verus! {

/// Sends a chat message through a Telegram bot.
#[derive(Clone, Debug)]
pub struct TelegramNotifier {
    pub token: String,
    pub chat_id: String,
}

/// The message text: the checker, a balloon when up or a fire when down, and the URL.
pub open spec fn telegram_text(id: Seq<char>, url: Seq<char>, state: State) -> Seq<char> {
    match state {
        State::Up => id + " is up \u{1F388}\n"@ + url,
        State::Down => id + " is down \u{1F525}\n"@ + url,
    }
}

pub open spec fn telegram_delivery(token: Seq<char>, chat_id: Seq<char>, id: Seq<char>, url: Seq<char>, state: State) -> DeliveryView {
    DeliveryView::Post {
        url: "https://api.telegram.org/bot"@ + token + "/sendMessage"@,
        payload: PayloadView::Object(seq![("chat_id"@, chat_id), ("text"@, telegram_text(id, url, state))]),
    }
}

impl TelegramNotifier {
    pub fn from_config(config: &TelegramNotifierConfig) -> (r: Self)
        ensures
            r.token == config.token,
            r.chat_id == config.chat_id,
    {
        TelegramNotifier { token: config.token.clone(), chat_id: config.chat_id.clone() }
    }

    /// The request that tells the chat about `notification`.
    pub fn delivery(&self, notification: &Notification) -> (r: Delivery)
        ensures
            r@ == telegram_delivery(self.token@, self.chat_id@, notification.checker_id@,
                notification.checker_url@, notification.state),
    {
        let text = match notification.state {
            State::Up => join3(&notification.checker_id, " is up \u{1F388}\n", &notification.checker_url),
            State::Down => join3(&notification.checker_id, " is down \u{1F525}\n", &notification.checker_url),
        };
        let mut payload: Fields = Vec::new();
        payload.push(field("chat_id", self.chat_id.clone()));
        payload.push(field("text", text));
        let url = join2(&String::from_str("https://api.telegram.org/bot"), self.token.as_str());
        let url = join2(&url, "/sendMessage");
        let r = Delivery::Post { url, payload: Payload::Object(payload) };
        assert(fields_view(payload@) =~= seq![("chat_id"@, self.chat_id@), ("text"@, telegram_text(notification.checker_id@, notification.checker_url@, notification.state))]);
        r
    }
}

} // verus!
