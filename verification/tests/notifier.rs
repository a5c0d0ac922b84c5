use daily_checkin::api::ApiError;
use daily_checkin::error::{AgentError, NotifyError};
use daily_checkin::notify::{
    check_delivery, deliver, notify, notify_err, notify_msg, notify_success, Delivery,
    DiscordEmbed, DiscordImage, DiscordWebhookBody, NotificationEvent, WebhookPost, ERROR_COLOR,
    SUCCESS_COLOR,
};

fn hook() -> Option<String> {
    Some(String::from("https://hooks.test/api/webhooks/1/abc"))
}

fn success_post() -> WebhookPost {
    WebhookPost {
        url: String::from("https://hooks.test/api/webhooks/1/abc"),
        body: DiscordWebhookBody {
            content: None,
            embeds: Some(vec![DiscordEmbed {
                title: String::from("3x Hero's Wit"),
                description: String::from("checked in"),
                color: 2605643,
                thumbnail: Some(DiscordImage { url: String::from("https://img.test/wit.png") }),
            }]),
        },
    }
}

fn failure_post(description: &str) -> WebhookPost {
    WebhookPost {
        url: String::from("https://hooks.test/api/webhooks/1/abc"),
        body: DiscordWebhookBody {
            content: None,
            embeds: Some(vec![DiscordEmbed {
                title: String::from("Unhandled Error"),
                description: String::from(description),
                color: 14037554,
                thumbnail: None,
            }]),
        },
    }
}

#[test]
fn colours_are_fixed() {
    assert_eq!(SUCCESS_COLOR, 2605643);
    assert_eq!(ERROR_COLOR, 14037554);
}

#[test]
fn success_is_one_embed_with_thumbnail() {
    let post = notify_success(
        &hook(),
        String::from("3x Hero's Wit"),
        String::from("checked in"),
        String::from("https://img.test/wit.png"),
    );
    assert_eq!(post, Some(success_post()));
}

#[test]
fn error_is_one_embed_with_fenced_text() {
    let err = AgentError::Api(ApiError::Retcode(-5003));
    let post = notify_err(&hook(), &err);
    assert_eq!(
        post,
        Some(failure_post("```\nAPI returned unhandled retcode `-5003`\n```"))
    );
}

#[test]
fn message_is_bare_content() {
    let post = notify_msg(&hook(), "sleeping for six hours...");
    assert_eq!(
        post,
        Some(WebhookPost {
            url: String::from("https://hooks.test/api/webhooks/1/abc"),
            body: DiscordWebhookBody {
                content: Some(String::from("sleeping for six hours...")),
                embeds: None,
            },
        })
    );
}

#[test]
fn notify_posts_the_body_it_was_given() {
    let body = DiscordWebhookBody { content: Some(String::from("hello")), embeds: None };
    let same = DiscordWebhookBody { content: Some(String::from("hello")), embeds: None };
    assert_eq!(
        notify(&hook(), body),
        Some(WebhookPost { url: String::from("https://hooks.test/api/webhooks/1/abc"), body: same })
    );
}

#[test]
fn nothing_is_posted_without_a_webhook() {
    let none: Option<String> = None;
    assert_eq!(
        notify_success(&none, String::from("t"), String::from("b"), String::from("u")),
        None
    );
    assert_eq!(notify_err(&none, &AgentError::UnexpectedEvent), None);
    assert_eq!(notify_msg(&none, "text"), None);
    assert_eq!(
        notify(&none, DiscordWebhookBody { content: Some(String::from("x")), embeds: None }),
        None
    );
    assert_eq!(
        deliver(
            &none,
            NotificationEvent::Success {
                title: String::from("t"),
                body: String::from("b"),
                thumbnail: String::from("u"),
            }
        ),
        None
    );
    assert_eq!(deliver(&none, NotificationEvent::PlainMessage { text: String::from("x") }), None);
    assert_eq!(deliver(&none, NotificationEvent::Failure { detail: String::from("x") }), None);
}

#[test]
fn deliver_renders_each_event() {
    assert_eq!(
        deliver(
            &hook(),
            NotificationEvent::Success {
                title: String::from("3x Hero's Wit"),
                body: String::from("checked in"),
                thumbnail: String::from("https://img.test/wit.png"),
            }
        ),
        Some(success_post())
    );
    assert_eq!(
        deliver(&hook(), NotificationEvent::PlainMessage { text: String::from("hi") }),
        notify_msg(&hook(), "hi")
    );
    assert_eq!(
        deliver(&hook(), NotificationEvent::Failure { detail: String::from("boom\nat x") }),
        Some(failure_post("```\nboom\nat x\n```"))
    );
}

#[test]
fn delivery_succeeds_on_success_statuses_only() {
    for status in [200u16, 201, 204, 250, 299] {
        assert_eq!(check_delivery(Delivery::Answered(status)), Ok(()));
    }
    for status in [0u16, 100, 101, 199, 300, 302, 304, 399, 400, 404, 429, 500, 503, 599, 600, 999, u16::MAX] {
        assert_eq!(
            check_delivery(Delivery::Answered(status)),
            Err(NotifyError::Status(status)),
            "{}",
            status
        );
    }
}

#[test]
fn delivery_fails_when_the_request_fails() {
    assert_eq!(
        check_delivery(Delivery::Failed(String::from("dns error"))),
        Err(NotifyError::Transport(String::from("dns error")))
    );
}

#[test]
fn errors_are_put_into_words() {
    let cases = [
        (AgentError::Api(ApiError::Transport(String::from("timed out"))), "timed out"),
        (AgentError::Api(ApiError::Status(502)), "API answered with status 502"),
        (
            AgentError::Api(ApiError::Malformed(String::from("expected `,` at line 1"))),
            "expected `,` at line 1",
        ),
        (AgentError::Api(ApiError::Retcode(0)), "API returned unhandled retcode `0`"),
        (AgentError::Api(ApiError::Retcode(-100)), "API returned unhandled retcode `-100`"),
        (
            AgentError::Api(ApiError::Retcode(i32::MIN)),
            "API returned unhandled retcode `-2147483648`",
        ),
        (
            AgentError::Api(ApiError::Retcode(i32::MAX)),
            "API returned unhandled retcode `2147483647`",
        ),
        (AgentError::Api(ApiError::MissingData), "response has retcode 0 but is missing data"),
        (AgentError::Timestamp(String::from("soon")), "API sent invalid timestamp: soon"),
        (AgentError::AwardIndex(31), "API sent invalid awards index: 31"),
        (AgentError::AwardIndex(-1), "API sent invalid awards index: -1"),
        (
            AgentError::AwardIndex(i64::MIN),
            "API sent invalid awards index: -9223372036854775808",
        ),
        (
            AgentError::AwardIndex(i64::MAX),
            "API sent invalid awards index: 9223372036854775807",
        ),
        (AgentError::Notify(NotifyError::Transport(String::from("reset"))), "reset"),
        (AgentError::Notify(NotifyError::Status(404)), "webhook answered with status 404"),
        (AgentError::UnexpectedEvent, "event does not answer the pending request"),
    ];
    for (error, text) in cases {
        assert_eq!(error.describe(), text);
    }
}
