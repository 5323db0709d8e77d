use vstd::prelude::*;

use crate::config::SlackNotifierConfig;
use crate::notifiers::{field, join2, join3, fields_view, Delivery, DeliveryView, Fields, FieldsView, Notification, Payload, PayloadView};
use crate::reactor::State;

verus! {

/// Posts to a Slack incoming webhook.
#[derive(Clone, Debug)]
pub struct SlackNotifier {
    pub webhook_url: String,
}

/// The one attachment of the message: fallback text, color, title and a link to the checker.
pub open spec fn slack_attachment(id: Seq<char>, url: Seq<char>, state: State) -> FieldsView {
    match state {
        State::Up => seq![
            ("fallback"@, id + " is up :thumbsup:\n"@ + url),
            ("color"@, "good"@),
            ("title"@, id + " is up :thumbsup:"@),
            ("title_link"@, url),
        ],
        State::Down => seq![
            ("fallback"@, id + " is down :fire:\n"@ + url),
            ("color"@, "danger"@),
            ("title"@, id + " is down :fire:"@),
            ("title_link"@, url),
        ],
    }
}

pub open spec fn slack_payload(id: Seq<char>, url: Seq<char>, state: State) -> PayloadView {
    PayloadView::Attachments(seq![slack_attachment(id, url, state)])
}

/// The webhook payload for `notification`.
pub fn build_payload(notification: &Notification) -> (r: Payload)
    ensures
        r@ == slack_payload(notification.checker_id@, notification.checker_url@, notification.state),
{
    let id = &notification.checker_id;
    let url = &notification.checker_url;
    let (fallback, color, title) = match notification.state {
        State::Up => (
            join3(id, " is up :thumbsup:\n", url),
            String::from_str("good"),
            join2(id, " is up :thumbsup:"),
        ),
        State::Down => (
            join3(id, " is down :fire:\n", url),
            String::from_str("danger"),
            join2(id, " is down :fire:"),
        ),
    };
    let mut attachment: Fields = Vec::new();
    attachment.push(field("fallback", fallback));
    attachment.push(field("color", color));
    attachment.push(field("title", title));
    attachment.push(field("title_link", url.clone()));
    assert(fields_view(attachment@) =~= slack_attachment(id@, url@, notification.state));
    let mut attachments: Vec<Fields> = Vec::new();
    attachments.push(attachment);
    let r = Payload::Attachments(attachments);
    assert(attachments@.map_values(|f: Fields| fields_view(f@)) =~= seq![slack_attachment(id@, url@, notification.state)]);
    r
}

impl SlackNotifier {
    pub fn from_config(config: &SlackNotifierConfig) -> (r: Self)
        ensures
            r.webhook_url == config.webhook_url,
    {
        SlackNotifier { webhook_url: config.webhook_url.clone() }
    }

    /// The request that posts `notification` to the webhook.
    pub fn delivery(&self, notification: &Notification) -> (r: Delivery)
        ensures
            r@ == (DeliveryView::Post {
                url: self.webhook_url@,
                payload: slack_payload(notification.checker_id@, notification.checker_url@, notification.state),
            }),
    {
        Delivery::Post { url: self.webhook_url.clone(), payload: build_payload(notification) }
    }
}

} // verus!
