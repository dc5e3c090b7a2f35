use cow::cowboard::attachment::StagedAttachment;
use cow::cowboard::config::Cowboard;
use cow::cowboard::degrade::{
    classify, degrade, error_of, FailureKind, PlatformFailure, INVALID_WEBHOOK_TOKEN, UNKNOWN_MESSAGE, UNKNOWN_WEBHOOK,
};
use cow::cowboard::error::CowboardError;
use cow::cowboard::render::{
    attachment_url, format_content, format_footer, format_username, render, render_update, select_renderer,
    Author, MirrorEmbed, Renderer, SourceMessage,
};
use cow::text::{i64_to_string, u64_to_string};

fn author(nickname: Option<&str>) -> Author {
    Author {
        id: 42,
        name: "moogan".to_string(),
        discriminator: 7,
        nickname: nickname.map(|n| n.to_string()),
        face: "https://cdn.example/avatar.png".to_string(),
    }
}

fn message() -> SourceMessage {
    SourceMessage {
        id: 1001,
        channel_id: 2002,
        author: author(Some("Cow")),
        content_safe: "moo @everyone".to_string(),
        timestamp: "2022-01-02T03:04:05+00:00".to_string(),
        link: "https://discord.com/channels/3003/2002/1001".to_string(),
        reactions: Vec::new(),
        attachments: Vec::new(),
    }
}

fn staged(name: &str) -> StagedAttachment {
    StagedAttachment { original_name: name.to_string(), local_path: format!("cowboard/1001/{}", name) }
}

#[test]
fn numbers_in_decimal() {
    assert_eq!(u64_to_string(0), "0");
    assert_eq!(u64_to_string(7), "7");
    assert_eq!(u64_to_string(10), "10");
    assert_eq!(u64_to_string(1234567890), "1234567890");
    assert_eq!(u64_to_string(u64::MAX), "18446744073709551615");
    assert_eq!(i64_to_string(0), "0");
    assert_eq!(i64_to_string(-1), "-1");
    assert_eq!(i64_to_string(-120), "-120");
    assert_eq!(i64_to_string(i64::MAX), "9223372036854775807");
    assert_eq!(i64_to_string(i64::MIN), "-9223372036854775808");
}

#[test]
fn username_with_and_without_nickname() {
    assert_eq!(format_username(&author(None)), "moogan#7");
    assert_eq!(format_username(&author(Some("Cow"))), "Cow (moogan#7)");
    let mut long = author(None);
    long.discriminator = 1234;
    assert_eq!(format_username(&long), "moogan#1234");
}

#[test]
fn content_line() {
    assert_eq!(
        format_content(5, "🐮", 2002, "https://discord.com/channels/3003/2002/1001"),
        "5 🐮 | <#2002>\nhttps://discord.com/channels/3003/2002/1001"
    );
    assert_eq!(format_content(0, "", 0, ""), "0  | <#0>\n");
    assert_eq!(format_content(12, "<:cow:9>", 1, "l"), "12 <:cow:9> | <#1>\nl");
}

#[test]
fn footer_names_message_and_author() {
    assert_eq!(format_footer(1001, 42), "Message ID: 1001 / User ID: 42");
}

#[test]
fn attachment_address() {
    assert_eq!(attachment_url("cat.png"), "attachment://cat.png");
}

#[test]
fn renderer_follows_the_settings() {
    let mut config = Cowboard::new(1);
    assert_eq!(select_renderer(&config), Renderer::Bot);
    config.webhook_id = Some(5);
    assert_eq!(select_renderer(&config), Renderer::Bot);
    config.webhook_token = Some("t".to_string());
    assert_eq!(select_renderer(&config), Renderer::Webhook { id: 5, token: "t".to_string() });
    config.webhook_id = None;
    assert_eq!(select_renderer(&config), Renderer::Bot);
}

#[test]
fn bot_post_without_images() {
    let mut config = Cowboard::new(3003);
    config.emote = "🐮".to_string();
    let post = render(&message(), 5, &config, &Vec::new(), &Renderer::Bot);
    assert_eq!(post.content, "5 🐮 | <#2002>\nhttps://discord.com/channels/3003/2002/1001");
    assert_eq!(post.username, None);
    assert_eq!(post.avatar_url, None);
    assert!(post.files.is_empty());
    assert_eq!(
        post.embeds,
        vec![MirrorEmbed {
            author_name: Some("Cow (moogan#7)".to_string()),
            author_icon: Some("https://cdn.example/avatar.png".to_string()),
            description: Some("moo @everyone".to_string()),
            timestamp: Some("2022-01-02T03:04:05+00:00".to_string()),
            footer: Some("Message ID: 1001 / User ID: 42".to_string()),
            image: None,
        }]
    );
}

#[test]
fn webhook_post_carries_the_author() {
    let config = Cowboard::new(3003);
    let renderer = Renderer::Webhook { id: 5, token: "t".to_string() };
    let post = render(&message(), 5, &config, &vec![staged("a.png")], &renderer);
    assert_eq!(post.content, "5 :cow: | <#2002>\nhttps://discord.com/channels/3003/2002/1001");
    assert_eq!(post.username, Some("Cow (moogan#7)".to_string()));
    assert_eq!(post.avatar_url, Some("https://cdn.example/avatar.png".to_string()));
    assert_eq!(post.files, vec!["cowboard/1001/a.png".to_string()]);
    assert_eq!(post.embeds.len(), 1);
    assert_eq!(post.embeds[0].image, Some("attachment://a.png".to_string()));
}

#[test]
fn further_images_get_embeds_of_their_own() {
    let config = Cowboard::new(3003);
    let images = vec![staged("a.png"), staged("b.png"), staged("c.png")];
    let post = render(&message(), 9, &config, &images, &Renderer::Bot);
    assert_eq!(
        post.files,
        vec!["cowboard/1001/a.png".to_string(), "cowboard/1001/b.png".to_string(), "cowboard/1001/c.png".to_string()]
    );
    assert_eq!(post.embeds.len(), 3);
    assert_eq!(post.embeds[0].image, Some("attachment://a.png".to_string()));
    assert_eq!(post.embeds[0].description, Some("moo @everyone".to_string()));
    for (embed, name) in post.embeds[1..].iter().zip(["b.png", "c.png"]) {
        assert_eq!(
            *embed,
            MirrorEmbed {
                author_name: None,
                author_icon: None,
                description: None,
                timestamp: None,
                footer: None,
                image: Some(format!("attachment://{}", name)),
            }
        );
    }
}

#[test]
fn update_is_the_content_line() {
    let config = Cowboard::new(3003);
    assert_eq!(
        render_update(&message(), 6, &config),
        "6 :cow: | <#2002>\nhttps://discord.com/channels/3003/2002/1001"
    );
}

#[test]
fn failures_are_told_apart() {
    assert_eq!(UNKNOWN_WEBHOOK, 10015);
    assert_eq!(INVALID_WEBHOOK_TOKEN, 50027);
    assert_eq!(UNKNOWN_MESSAGE, 10008);
    assert_eq!(classify(PlatformFailure::Rejected { status: 404, code: 10015 }), FailureKind::WebhookLost);
    assert_eq!(classify(PlatformFailure::Rejected { status: 401, code: 50027 }), FailureKind::WebhookLost);
    assert_eq!(classify(PlatformFailure::Rejected { status: 404, code: 10008 }), FailureKind::MirrorMissing);
    assert_eq!(classify(PlatformFailure::Rejected { status: 429, code: 0 }), FailureKind::Transient);
    assert_eq!(classify(PlatformFailure::Rejected { status: 500, code: 1 }), FailureKind::Transient);
    assert_eq!(classify(PlatformFailure::Unreachable), FailureKind::Transient);
}

#[test]
fn degrade_clears_the_webhook_only_when_it_is_lost() {
    let mut config = Cowboard::new(1);
    config.set_channel(10);
    config.enable_webhook(5, "t".to_string());
    let lost = PlatformFailure::Rejected { status: 404, code: 10015 };
    // A timeout leaves the webhook alone.
    assert!(!degrade(&mut config, true, PlatformFailure::Unreachable));
    assert!(config.has_webhook());
    // So does a rate limit.
    assert!(!degrade(&mut config, true, PlatformFailure::Rejected { status: 429, code: 0 }));
    assert!(config.has_webhook());
    // A call that did not go through the webhook says nothing about it.
    assert!(!degrade(&mut config, false, lost));
    assert!(config.has_webhook());
    assert!(degrade(&mut config, true, lost));
    assert_eq!(config.webhook_id, None);
    assert_eq!(config.webhook_token, None);
    assert_eq!(config.channel, Some(10));
    assert_eq!(config.add_threshold, 5);
}

#[test]
fn failed_renders_by_name() {
    let lost = PlatformFailure::Rejected { status: 404, code: 10015 };
    assert_eq!(error_of(true, lost), CowboardError::WebhookInvalid);
    assert_eq!(error_of(false, lost), CowboardError::RenderFailed);
    assert_eq!(error_of(true, PlatformFailure::Unreachable), CowboardError::RenderFailed);
    assert_eq!(error_of(true, PlatformFailure::Rejected { status: 404, code: 10008 }), CowboardError::RenderFailed);
}
