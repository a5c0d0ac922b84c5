//! The notifier: what is posted to the webhook, and when nothing is.
//!
//! A notification is either plain text or one embed with a title and a
//! description. Without a webhook every notification is a silent success:
//! the functions of this module then hand out nothing to post.

use crate::api::is_success;
use crate::error::{AgentError, NotifyError};
use vstd::prelude::*;
use vstd::string::*;

verus! {

/// The colour of an embed that reports a check-in.
pub const SUCCESS_COLOR: i32 = 2605643;

/// The colour of an embed that reports an error.
pub const ERROR_COLOR: i32 = 14037554;

/// An image of an embed, by its address.
#[derive(Debug, PartialEq, Eq)]
pub struct DiscordImage {
    pub url: String,
}

/// A rich message: title, description, colour and, where there is one, a
/// thumbnail.
#[derive(Debug, PartialEq, Eq)]
pub struct DiscordEmbed {
    pub title: String,
    pub description: String,
    pub color: i32,
    pub thumbnail: Option<DiscordImage>,
}

/// The body of one post to the webhook.
#[derive(Debug, PartialEq, Eq)]
pub struct DiscordWebhookBody {
    pub content: Option<String>,
    pub embeds: Option<Vec<DiscordEmbed>>,
}

/// One post to the webhook: where it goes and what it says.
#[derive(Debug, PartialEq, Eq)]
pub struct WebhookPost {
    pub url: String,
    pub body: DiscordWebhookBody,
}

/// What the agent has to tell.
#[derive(Debug, PartialEq, Eq)]
pub enum NotificationEvent {
    /// A check-in went through.
    Success { title: String, body: String, thumbnail: String },
    /// A bare line of text.
    PlainMessage { text: String },
    /// A cycle failed; the detail is the error in words.
    Failure { detail: String },
}

/// The outcome of one post to the webhook, as the transport reports it.
#[derive(Debug, PartialEq, Eq)]
pub enum Delivery {
    /// The request did not complete.
    Failed(String),
    /// The webhook answered with this status.
    Answered(u16),
}

/// An embed as plain values.
pub struct EmbedView {
    pub title: Seq<char>,
    pub description: Seq<char>,
    pub color: i32,
    pub thumbnail: Option<Seq<char>>,
}

/// A body as plain values.
pub struct BodyView {
    pub content: Option<Seq<char>>,
    pub embeds: Option<Seq<EmbedView>>,
}

/// A post as plain values.
pub struct PostView {
    pub url: Seq<char>,
    pub body: BodyView,
}

impl DeepView for DiscordImage {
    type V = Seq<char>;

    open spec fn deep_view(&self) -> Seq<char> {
        self.url@
    }
}

impl DeepView for DiscordEmbed {
    type V = EmbedView;

    open spec fn deep_view(&self) -> EmbedView {
        EmbedView {
            title: self.title@,
            description: self.description@,
            color: self.color,
            thumbnail: self.thumbnail.deep_view(),
        }
    }
}

impl DeepView for DiscordWebhookBody {
    type V = BodyView;

    open spec fn deep_view(&self) -> BodyView {
        BodyView { content: self.content.deep_view(), embeds: self.embeds.deep_view() }
    }
}

impl DeepView for WebhookPost {
    type V = PostView;

    open spec fn deep_view(&self) -> PostView {
        PostView { url: self.url@, body: self.body.deep_view() }
    }
}

/// The body that reports a check-in.
pub open spec fn success_body(title: Seq<char>, body: Seq<char>, thumbnail: Seq<char>) -> BodyView {
    BodyView {
        content: None,
        embeds: Some(
            seq![
                EmbedView {
                    title,
                    description: body,
                    color: SUCCESS_COLOR,
                    thumbnail: Some(thumbnail),
                },
            ],
        ),
    }
}

/// The body that reports an error: the detail, fenced as a block of code,
/// under a fixed title.
pub open spec fn failure_body(detail: Seq<char>) -> BodyView {
    BodyView {
        content: None,
        embeds: Some(
            seq![
                EmbedView {
                    title: "Unhandled Error"@,
                    description: "```\n"@ + detail + "\n```"@,
                    color: ERROR_COLOR,
                    thumbnail: None,
                },
            ],
        ),
    }
}

/// The body that is a bare line of text.
pub open spec fn message_body(text: Seq<char>) -> BodyView {
    BodyView { content: Some(text), embeds: None }
}

/// What is posted for `body`: nothing without a webhook, else the body to
/// the webhook's address.
pub open spec fn posted(webhook: Option<Seq<char>>, body: BodyView) -> Option<PostView> {
    match webhook {
        None => None,
        Some(url) => Some(PostView { url, body }),
    }
}

/// The body that renders `event`.
pub open spec fn body_of(event: NotificationEvent) -> BodyView {
    match event {
        NotificationEvent::Success { title, body, thumbnail } => success_body(
            title@,
            body@,
            thumbnail@,
        ),
        NotificationEvent::PlainMessage { text } => message_body(text@),
        NotificationEvent::Failure { detail } => failure_body(detail@),
    }
}

/// Hands `data` to the webhook, where there is one.
pub fn notify(webhook_url: &Option<String>, data: DiscordWebhookBody) -> (r: Option<WebhookPost>)
    ensures
        r.deep_view() == posted(webhook_url.deep_view(), data.deep_view()),
        r matches Some(post) ==> post.body == data,
{
    match webhook_url {
        None => None,
        Some(url) => Some(WebhookPost { url: url.clone(), body: data }),
    }
}

/// Reports a check-in: a rich message with the given title and body and
/// the thumbnail at `thumbnail_url`.
pub fn notify_success(
    webhook_url: &Option<String>,
    title: String,
    body: String,
    thumbnail_url: String,
) -> (r: Option<WebhookPost>)
    ensures
        r.deep_view() == posted(
            webhook_url.deep_view(),
            success_body(title@, body@, thumbnail_url@),
        ),
{
    let mut embeds: Vec<DiscordEmbed> = Vec::new();
    embeds.push(
        DiscordEmbed {
            title,
            description: body,
            color: SUCCESS_COLOR,
            thumbnail: Some(DiscordImage { url: thumbnail_url }),
        },
    );
    let data = DiscordWebhookBody { content: None, embeds: Some(embeds) };
    assert(data.deep_view().embeds->0 =~= success_body(
        title@,
        body@,
        thumbnail_url@,
    ).embeds->0);
    notify(webhook_url, data)
}

fn error_body(detail: &str) -> (data: DiscordWebhookBody)
    ensures
        data.deep_view() == failure_body(detail@),
{
    let mut description = String::from_str("```\n");
    description.append(detail);
    description.append("\n```");
    let mut embeds: Vec<DiscordEmbed> = Vec::new();
    embeds.push(
        DiscordEmbed {
            title: String::from_str("Unhandled Error"),
            description,
            color: ERROR_COLOR,
            thumbnail: None,
        },
    );
    let data = DiscordWebhookBody { content: None, embeds: Some(embeds) };
    assert(data.deep_view().embeds->0 =~= failure_body(detail@).embeds->0);
    data
}

/// Reports the error that ended a cycle: a rich message with the error in
/// words.
pub fn notify_err(webhook_url: &Option<String>, err: &AgentError) -> (r: Option<WebhookPost>)
    ensures
        r.deep_view() == posted(webhook_url.deep_view(), failure_body(err.text())),
{
    let detail = err.describe();
    notify(webhook_url, error_body(detail.as_str()))
}

/// Sends a bare line of text.
pub fn notify_msg(webhook_url: &Option<String>, msg: &str) -> (r: Option<WebhookPost>)
    ensures
        r.deep_view() == posted(webhook_url.deep_view(), message_body(msg@)),
{
    let data = DiscordWebhookBody { content: Some(String::from_str(msg)), embeds: None };
    notify(webhook_url, data)
}

/// Renders `event` and hands it to the webhook, where there is one.
pub fn deliver(webhook_url: &Option<String>, event: NotificationEvent) -> (r: Option<WebhookPost>)
    ensures
        r.deep_view() == posted(webhook_url.deep_view(), body_of(event)),
{
    match event {
        NotificationEvent::Success { title, body, thumbnail } => notify_success(
            webhook_url,
            title,
            body,
            thumbnail,
        ),
        NotificationEvent::PlainMessage { text } => notify_msg(webhook_url, text.as_str()),
        NotificationEvent::Failure { detail } => notify(webhook_url, error_body(detail.as_str())),
    }
}

/// Whether a post arrived: it did where the webhook answered with a success
/// status, one from 200 to 299. A request that failed and an answer with any
/// other status are errors.
pub open spec fn delivery_outcome(delivery: Delivery) -> Result<(), NotifyError> {
    match delivery {
        Delivery::Failed(detail) => Err(NotifyError::Transport(detail)),
        Delivery::Answered(status) => if is_success(status) {
            Ok(())
        } else {
            Err(NotifyError::Status(status))
        },
    }
}

/// Judges the outcome of a post.
pub fn check_delivery(delivery: Delivery) -> (r: Result<(), NotifyError>)
    ensures
        r == delivery_outcome(delivery),
{
    match delivery {
        Delivery::Failed(detail) => Err(NotifyError::Transport(detail)),
        Delivery::Answered(status) => {
            if status >= 200 && status <= 299 {
                Ok(())
            } else {
                Err(NotifyError::Status(status))
            }
        },
    }
}

/// A post counts as delivered exactly when the webhook answered it with a
/// status from 200 to 299; every other answer is an error that names the
/// status, and a request that failed is an error with the transport's
/// account.
pub proof fn lemma_delivered_on_success_only(delivery: Delivery)
    ensures
        delivery_outcome(delivery) is Ok <==> (delivery matches Delivery::Answered(status) && 200
            <= status <= 299),
        delivery matches Delivery::Answered(status) ==> (!(200 <= status <= 299)
            ==> delivery_outcome(delivery) == Err::<(), NotifyError>(NotifyError::Status(status))),
        delivery matches Delivery::Failed(detail) ==> delivery_outcome(delivery) == Err::<
            (),
            NotifyError,
        >(NotifyError::Transport(detail)),
{
}

/// Without a webhook nothing is posted, whatever the event.
pub proof fn lemma_silent_without_webhook(event: NotificationEvent)
    ensures
        posted(None, body_of(event)) is None,
{
}

} // verus!
