use vstd::prelude::*;

use crate::config::HipchatNotifierConfig;
use crate::notifiers::{field, join3, fields_view, Delivery, DeliveryView, Fields, FieldsView, Notification, Payload, PayloadView};
use crate::reactor::State;

verus! {

/// Posts a room notification to a HipChat server.
#[derive(Clone, Debug)]
pub struct HipchatNotifier {
    pub base_url: String,
    pub token: String,
    pub room_id: String,
}

pub open spec fn hipchat_fields(id: Seq<char>, url: Seq<char>, state: State) -> FieldsView {
    match state {
        State::Up => seq![
            ("color"@, "green"@),
            ("message"@, id + " is up (dealwithit)\n"@ + url),
            ("message_format"@, "text"@),
        ],
        State::Down => seq![
            ("color"@, "red"@),
            ("message"@, id + " is down (boom)\n"@ + url),
            ("message_format"@, "text"@),
        ],
    }
}

/// The room notification endpoint of the server at `base_url`.
pub open spec fn hipchat_url(base_url: Seq<char>, room_id: Seq<char>, token: Seq<char>) -> Seq<char> {
    base_url + "/v2/room/"@ + room_id + "/notification?auth_token="@ + token
}

/// The notification payload for `notification`.
pub fn build_payload(notification: &Notification) -> (r: Payload)
    ensures
        r@ == PayloadView::Object(hipchat_fields(notification.checker_id@, notification.checker_url@, notification.state)),
{
    let id = &notification.checker_id;
    let url = &notification.checker_url;
    let (color, message) = match notification.state {
        State::Up => (String::from_str("green"), join3(id, " is up (dealwithit)\n", url)),
        State::Down => (String::from_str("red"), join3(id, " is down (boom)\n", url)),
    };
    let mut payload: Fields = Vec::new();
    payload.push(field("color", color));
    payload.push(field("message", message));
    payload.push(field("message_format", String::from_str("text")));
    assert(fields_view(payload@) =~= hipchat_fields(id@, url@, notification.state));
    Payload::Object(payload)
}

impl HipchatNotifier {
    pub fn from_config(config: &HipchatNotifierConfig) -> (r: Self)
        ensures
            r.base_url == config.base_url,
            r.token == config.token,
            r.room_id == config.room_id,
    {
        HipchatNotifier {
            base_url: config.base_url.clone(),
            token: config.token.clone(),
            room_id: config.room_id.clone(),
        }
    }

    /// The request that posts `notification` to the room.
    pub fn delivery(&self, notification: &Notification) -> (r: Delivery)
        ensures
            r@ == (DeliveryView::Post {
                url: hipchat_url(self.base_url@, self.room_id@, self.token@),
                payload: PayloadView::Object(hipchat_fields(notification.checker_id@, notification.checker_url@, notification.state)),
            }),
    {
        let url = join3(&self.base_url, "/v2/room/", &self.room_id);
        let url = join3(&url, "/notification?auth_token=", &self.token);
        Delivery::Post { url, payload: build_payload(notification) }
    }
}

} // verus!
