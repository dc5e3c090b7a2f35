//! What a mirror post says.
//!
//! A mirror carries a content line with the count, the trigger emoji, the
//! source channel and a link to the source message; an embed with the
//! author, the message body, its time and a footer that names message and
//! author; and the staged images, the first inside that embed and each
//! further one in an embed of its own. It is posted through the guild's
//! webhook under the author's name and face where one is stored, else as the
//! bot.

use vstd::prelude::*;
use crate::cowboard::attachment::{Attachment, StagedAttachment};
use crate::cowboard::config::Cowboard;
use crate::cowboard::reaction::MessageReaction;
use crate::text::{decimal, u64_to_string};

verus! {

/// Who wrote a message.
#[derive(PartialEq, Eq, Clone, Debug)]
pub struct Author {
    pub id: u64,
    pub name: String,
    pub discriminator: u16,
    /// The name the author goes by in the guild, if any.
    pub nickname: Option<String>,
    /// The address of the author's avatar.
    pub face: String,
}

/// A message as the starboard reads it.
#[derive(Clone, Debug)]
pub struct SourceMessage {
    pub id: u64,
    pub channel_id: u64,
    pub author: Author,
    /// The body with mentions made harmless.
    pub content_safe: String,
    pub timestamp: String,
    /// The permanent link to the message.
    pub link: String,
    pub reactions: Vec<MessageReaction>,
    pub attachments: Vec<Attachment>,
}

/// The way a mirror is posted.
#[derive(PartialEq, Eq, Clone, Debug)]
pub enum Renderer {
    /// Through the webhook with these credentials, under the author's name.
    Webhook { id: u64, token: String },
    /// As the bot itself.
    Bot,
}

/// One embed of a mirror post.
#[derive(PartialEq, Eq, Clone, Debug)]
pub struct MirrorEmbed {
    pub author_name: Option<String>,
    pub author_icon: Option<String>,
    pub description: Option<String>,
    pub timestamp: Option<String>,
    pub footer: Option<String>,
    /// The address of the image shown in the embed.
    pub image: Option<String>,
}

/// A mirror post, ready to be sent.
#[derive(PartialEq, Eq, Clone, Debug)]
pub struct MirrorPost {
    pub content: String,
    pub embeds: Vec<MirrorEmbed>,
    /// The staged files to upload with the post.
    pub files: Vec<String>,
    /// The name to post under, where the post goes through a webhook.
    pub username: Option<String>,
    /// The avatar to post under, where the post goes through a webhook.
    pub avatar_url: Option<String>,
}

/// Text that may be missing, as a mathematical value.
pub open spec fn text_view(text: Option<String>) -> Option<Seq<char>> {
    match text {
        Some(text) => Some(text@),
        None => None,
    }
}

/// An embed as a mathematical value.
pub struct MirrorEmbedView {
    pub author_name: Option<Seq<char>>,
    pub author_icon: Option<Seq<char>>,
    pub description: Option<Seq<char>>,
    pub timestamp: Option<Seq<char>>,
    pub footer: Option<Seq<char>>,
    pub image: Option<Seq<char>>,
}

impl View for MirrorEmbed {
    type V = MirrorEmbedView;

    open spec fn view(&self) -> MirrorEmbedView {
        MirrorEmbedView {
            author_name: text_view(self.author_name),
            author_icon: text_view(self.author_icon),
            description: text_view(self.description),
            timestamp: text_view(self.timestamp),
            footer: text_view(self.footer),
            image: text_view(self.image),
        }
    }
}

/// A mirror post as a mathematical value.
pub struct MirrorPostView {
    pub content: Seq<char>,
    pub embeds: Seq<MirrorEmbedView>,
    pub files: Seq<Seq<char>>,
    pub username: Option<Seq<char>>,
    pub avatar_url: Option<Seq<char>>,
}

impl View for MirrorPost {
    type V = MirrorPostView;

    open spec fn view(&self) -> MirrorPostView {
        MirrorPostView {
            content: self.content@,
            embeds: self.embeds@.map_values(|e: MirrorEmbed| e@),
            files: self.files@.map_values(|f: String| f@),
            username: text_view(self.username),
            avatar_url: text_view(self.avatar_url),
        }
    }
}

/// The name shown for an author: name and discriminator joined by `#`, and
/// where the author has a nickname in the guild, the nickname in front and
/// that in brackets behind it.
pub open spec fn username_text(author: Author) -> Seq<char> {
    let tag = author.name@ + "#"@ + decimal(author.discriminator as nat);
    match author.nickname {
        Some(nickname) => nickname@ + " ("@ + tag + ")"@,
        None => tag,
    }
}

/// The content line of a mirror: the count, the trigger emoji, a reference to
/// the source channel, and on a line of its own the link to the source.
pub open spec fn content_text(count: u64, emote: Seq<char>, channel_id: u64, link: Seq<char>) -> Seq<char> {
    decimal(count as nat) + " "@ + emote + " | <#"@ + decimal(channel_id as nat) + ">\n"@ + link
}

/// The footer of a mirror: the ids of the source message and of its author.
pub open spec fn footer_text(message_id: u64, author_id: u64) -> Seq<char> {
    "Message ID: "@ + decimal(message_id as nat) + " / User ID: "@ + decimal(author_id as nat)
}

/// The address under which an uploaded file named `name` is shown.
pub open spec fn attachment_url_text(name: Seq<char>) -> Seq<char> {
    "attachment://"@ + name
}

/// The embed that tells of the source message, with the first staged image
/// inside it where there is one.
pub open spec fn main_embed(message: SourceMessage, staged: Seq<StagedAttachment>) -> MirrorEmbedView {
    MirrorEmbedView {
        author_name: Some(username_text(message.author)),
        author_icon: Some(message.author.face@),
        description: Some(message.content_safe@),
        timestamp: Some(message.timestamp@),
        footer: Some(footer_text(message.id, message.author.id)),
        image: if staged.len() > 0 {
            Some(attachment_url_text(staged[0].original_name@))
        } else {
            None
        },
    }
}

/// An embed that shows one more staged image and nothing else.
pub open spec fn image_embed(staged: StagedAttachment) -> MirrorEmbedView {
    MirrorEmbedView {
        author_name: None,
        author_icon: None,
        description: None,
        timestamp: None,
        footer: None,
        image: Some(attachment_url_text(staged.original_name@)),
    }
}

/// The embeds of a mirror: the main one, then one for each staged image
/// after the first.
pub open spec fn embeds_of(message: SourceMessage, staged: Seq<StagedAttachment>) -> Seq<MirrorEmbedView> {
    Seq::new(
        if staged.len() == 0 {
            1
        } else {
            staged.len()
        },
        |i: int|
            if i == 0 {
                main_embed(message, staged)
            } else {
                image_embed(staged[i])
            },
    )
}

/// Whether the renderer posts under the author's name.
pub open spec fn posts_as_author(renderer: Renderer) -> bool {
    renderer is Webhook
}

/// The mirror post of `message` at the adjusted count `count`.
pub open spec fn mirror_post(
    message: SourceMessage,
    count: u64,
    emote: Seq<char>,
    staged: Seq<StagedAttachment>,
    renderer: Renderer,
) -> MirrorPostView {
    MirrorPostView {
        content: content_text(count, emote, message.channel_id, message.link@),
        embeds: embeds_of(message, staged),
        files: staged.map_values(|s: StagedAttachment| s.local_path@),
        username: if posts_as_author(renderer) {
            Some(username_text(message.author))
        } else {
            None
        },
        avatar_url: if posts_as_author(renderer) {
            Some(message.author.face@)
        } else {
            None
        },
    }
}

/// The renderer that the settings ask for: the webhook where both of its
/// credentials are stored, else the bot.
pub open spec fn renderer_of(config: Cowboard) -> Renderer {
    if config.webhook_id is Some && config.webhook_token is Some {
        Renderer::Webhook { id: config.webhook_id->Some_0, token: config.webhook_token->Some_0 }
    } else {
        Renderer::Bot
    }
}

/// Picks the renderer that the settings ask for.
pub fn select_renderer(config: &Cowboard) -> (renderer: Renderer)
    ensures
        renderer == renderer_of(*config),
        renderer is Webhook <==> config.spec_has_webhook(),
{
    match config.webhook_id {
        Some(id) => match &config.webhook_token {
            Some(token) => Renderer::Webhook { id, token: token.clone() },
            None => Renderer::Bot,
        },
        None => Renderer::Bot,
    }
}

/// The name shown for the author of a mirrored message.
pub fn format_username(author: &Author) -> (name: String)
    ensures
        name@ == username_text(*author),
{
    let mut tag = author.name.clone();
    tag.append("#");
    let digits = u64_to_string(author.discriminator as u64);
    tag.append(digits.as_str());
    match &author.nickname {
        Some(nickname) => {
            let mut name = nickname.clone();
            name.append(" (");
            name.append(tag.as_str());
            name.append(")");
            assert(name@ =~= username_text(*author));
            name
        },
        None => {
            assert(tag@ =~= username_text(*author));
            tag
        },
    }
}

/// The content line of a mirror.
pub fn format_content(count: u64, emote: &str, channel_id: u64, link: &str) -> (content: String)
    ensures
        content@ == content_text(count, emote@, channel_id, link@),
{
    let mut content = u64_to_string(count);
    content.append(" ");
    content.append(emote);
    content.append(" | <#");
    let channel = u64_to_string(channel_id);
    content.append(channel.as_str());
    content.append(">\n");
    content.append(link);
    assert(content@ =~= content_text(count, emote@, channel_id, link@));
    content
}

/// The footer of a mirror.
pub fn format_footer(message_id: u64, author_id: u64) -> (footer: String)
    ensures
        footer@ == footer_text(message_id, author_id),
{
    let mut footer = String::from_str("Message ID: ");
    let message = u64_to_string(message_id);
    footer.append(message.as_str());
    footer.append(" / User ID: ");
    let author = u64_to_string(author_id);
    footer.append(author.as_str());
    assert(footer@ =~= footer_text(message_id, author_id));
    footer
}

/// The address under which an uploaded file named `name` is shown.
pub fn attachment_url(name: &str) -> (url: String)
    ensures
        url@ == attachment_url_text(name@),
{
    let mut url = String::from_str("attachment://");
    url.append(name);
    url
}

/// Builds the mirror post of `message` at the adjusted count `count`, with
/// the images in `staged`, for the given renderer.
pub fn render(
    message: &SourceMessage,
    count: u64,
    config: &Cowboard,
    staged: &Vec<StagedAttachment>,
    renderer: &Renderer,
) -> (post: MirrorPost)
    ensures
        post@ == mirror_post(*message, count, config.emote@, staged@, *renderer),
{
    let username = format_username(&message.author);
    let mut embeds: Vec<MirrorEmbed> = Vec::new();
    let mut files: Vec<String> = Vec::new();
    embeds.push(
        MirrorEmbed {
            author_name: Some(username.clone()),
            author_icon: Some(message.author.face.clone()),
            description: Some(message.content_safe.clone()),
            timestamp: Some(message.timestamp.clone()),
            footer: Some(format_footer(message.id, message.author.id)),
            image: if staged.len() > 0 {
                Some(attachment_url(staged[0].original_name.as_str()))
            } else {
                None
            },
        },
    );
    assert(embeds@[0]@ == main_embed(*message, staged@));
    let mut i: usize = 0;
    while i < staged.len()
        invariant
            i <= staged@.len(),
            files@.len() == i,
            forall|k: int| 0 <= k < i ==> (#[trigger] files@[k])@ == staged@[k].local_path@,
            embeds@.len() == (if i == 0 {
                1
            } else {
                i as int
            }),
            embeds@[0]@ == main_embed(*message, staged@),
            forall|k: int| 1 <= k < i ==> (#[trigger] embeds@[k])@ == image_embed(staged@[k]),
        decreases staged@.len() - i,
    {
        files.push(staged[i].local_path.clone());
        if i > 0 {
            embeds.push(
                MirrorEmbed {
                    author_name: None,
                    author_icon: None,
                    description: None,
                    timestamp: None,
                    footer: None,
                    image: Some(attachment_url(staged[i].original_name.as_str())),
                },
            );
        }
        i += 1;
    }
    let content = format_content(count, config.emote.as_str(), message.channel_id, message.link.as_str());
    let post = match renderer {
        Renderer::Webhook { .. } => MirrorPost {
            content,
            embeds,
            files,
            username: Some(username),
            avatar_url: Some(message.author.face.clone()),
        },
        Renderer::Bot => MirrorPost { content, embeds, files, username: None, avatar_url: None },
    };
    proof {
        let want = mirror_post(*message, count, config.emote@, staged@, *renderer);
        assert(post@.embeds =~= want.embeds);
        assert(post@.files =~= want.files);
    }
    post
}

/// The text that a mirror's content line is edited to when the count has
/// changed.
pub fn render_update(message: &SourceMessage, count: u64, config: &Cowboard) -> (content: String)
    ensures
        content@ == content_text(count, config.emote@, message.channel_id, message.link@),
{
    format_content(count, config.emote.as_str(), message.channel_id, message.link.as_str())
}

} // verus!
