//! The serenity side of the conversion: the outside types, a mathematical
//! model of what each of them holds, and one thin function per serenity
//! builder method that the conversion calls.
//!
//! Nothing in this file is proved. Each contract restates what the body of the
//! named serenity method does to the value it builds.

use serenity::builder::{CreateEmbed, CreateEmbedAuthor, CreateEmbedFooter};
use serenity::model::Timestamp;
use vstd::prelude::*;

verus! {

/// serenity's embed builder.
#[verifier::external_type_specification]
#[verifier::external_body]
pub struct ExCreateEmbed(CreateEmbed);

/// serenity's builder for the footer of an embed.
#[verifier::external_type_specification]
#[verifier::external_body]
pub struct ExCreateEmbedFooter(CreateEmbedFooter);

/// serenity's builder for the author of an embed.
#[verifier::external_type_specification]
#[verifier::external_body]
pub struct ExCreateEmbedAuthor(CreateEmbedAuthor);

/// serenity's point in time. It is carried through, never looked into.
#[verifier::external_type_specification]
#[verifier::external_body]
pub struct ExTimestamp(Timestamp);

/// What a footer under construction holds.
pub struct FooterContent {
    /// The footer's text.
    pub text: Seq<char>,
    /// The address of the footer's icon, if one was set.
    pub icon_url: Option<Seq<char>>,
}

/// What an author under construction holds.
pub struct AuthorContent {
    /// The author's name.
    pub name: Seq<char>,
    /// The author's link, if one was set.
    pub url: Option<Seq<char>>,
    /// The address of the author's icon, if one was set.
    pub icon_url: Option<Seq<char>>,
}

/// What an embed under construction holds: every slot that a builder method
/// can fill, and the fields in the order in which they were added.
pub struct EmbedContent {
    /// The title.
    pub title: Option<Seq<char>>,
    /// The link behind the title.
    pub url: Option<Seq<char>>,
    /// The description.
    pub description: Option<Seq<char>>,
    /// The timestamp.
    pub timestamp: Option<Timestamp>,
    /// The number inside the `Colour`.
    pub colour: Option<u32>,
    /// The footer.
    pub footer: Option<FooterContent>,
    /// The address of the image.
    pub image: Option<Seq<char>>,
    /// The address of the thumbnail.
    pub thumbnail: Option<Seq<char>>,
    /// The author.
    pub author: Option<AuthorContent>,
    /// The name, value and inline flag of each field, in the order of the
    /// field list.
    pub fields: Seq<(Seq<char>, Seq<char>, bool)>,
}

impl EmbedContent {
    /// An embed with every slot absent and no field.
    pub open spec fn empty() -> EmbedContent {
        EmbedContent {
            title: None,
            url: None,
            description: None,
            timestamp: None,
            colour: None,
            footer: None,
            image: None,
            thumbnail: None,
            author: None,
            fields: Seq::empty(),
        }
    }
}

/// Owned (name, value, inline) triples, each string as its characters.
pub open spec fn triples(fields: Seq<(String, String, bool)>) -> Seq<(Seq<char>, Seq<char>, bool)> {
    Seq::new(fields.len(), |i: int| (fields[i].0@, fields[i].1@, fields[i].2))
}

/// What the `Embed` inside a `CreateEmbed` holds in the slots that its builder
/// methods fill: `title`, `url`, `description`, `timestamp`, the number in
/// `colour`, the text and icon of `footer`, the `url` of `image` and of
/// `thumbnail`, the name, link and icon of `author`, and the name, value and
/// flag of each entry of `fields`. The type tag that every builder carries and
/// the slots that no builder method reaches are not part of it.
pub uninterp spec fn embed_content(embed: CreateEmbed) -> EmbedContent;

/// The `text` and `icon_url` of the `EmbedFooter` inside a
/// `CreateEmbedFooter`.
pub uninterp spec fn footer_content(footer: CreateEmbedFooter) -> FooterContent;

/// The `name`, `url` and `icon_url` of the `EmbedAuthor` inside a
/// `CreateEmbedAuthor`.
pub uninterp spec fn author_content(author: CreateEmbedAuthor) -> AuthorContent;

/// `CreateEmbed::new` returns the default builder: no slot is set and the
/// field list is empty.
pub assume_specification[ CreateEmbed::new ]() -> (embed: CreateEmbed)
    ensures
        embed_content(embed) == EmbedContent::empty(),
;

/// `CreateEmbed::footer` stores the footer that was built and leaves the rest.
pub assume_specification[ CreateEmbed::footer ](embed: CreateEmbed, footer: CreateEmbedFooter) -> (out: CreateEmbed)
    ensures
        embed_content(out) == (EmbedContent {
            footer: Some(footer_content(footer)),
            ..embed_content(embed)
        }),
;

/// `CreateEmbed::author` stores the author that was built and leaves the rest.
pub assume_specification[ CreateEmbed::author ](embed: CreateEmbed, author: CreateEmbedAuthor) -> (out: CreateEmbed)
    ensures
        embed_content(out) == (EmbedContent {
            author: Some(author_content(author)),
            ..embed_content(embed)
        }),
;

/// `CreateEmbed::title` sets the title and leaves the rest.
#[verifier::external_body]
pub(crate) fn set_title(embed: CreateEmbed, title: &str) -> (out: CreateEmbed)
    ensures
        embed_content(out) == (EmbedContent { title: Some(title@), ..embed_content(embed) }),
{
    embed.title(title)
}

/// `CreateEmbed::url` sets the link behind the title and leaves the rest.
#[verifier::external_body]
pub(crate) fn set_url(embed: CreateEmbed, url: &str) -> (out: CreateEmbed)
    ensures
        embed_content(out) == (EmbedContent { url: Some(url@), ..embed_content(embed) }),
{
    embed.url(url)
}

/// `CreateEmbed::description` sets the description and leaves the rest. It
/// checks no length.
#[verifier::external_body]
pub(crate) fn set_description(embed: CreateEmbed, description: &str) -> (out: CreateEmbed)
    ensures
        embed_content(out) == (EmbedContent {
            description: Some(description@),
            ..embed_content(embed)
        }),
{
    embed.description(description)
}

/// `CreateEmbed::timestamp` stores a copy of the timestamp and leaves the rest.
#[verifier::external_body]
pub(crate) fn set_timestamp(embed: CreateEmbed, timestamp: &Timestamp) -> (out: CreateEmbed)
    ensures
        embed_content(out) == (EmbedContent {
            timestamp: Some(*timestamp),
            ..embed_content(embed)
        }),
{
    embed.timestamp(timestamp)
}

/// `CreateEmbed::color` stores the number, wrapped as a `Colour`, and leaves
/// the rest. It checks no range.
#[verifier::external_body]
pub(crate) fn set_color(embed: CreateEmbed, color: u32) -> (out: CreateEmbed)
    ensures
        embed_content(out) == (EmbedContent { colour: Some(color), ..embed_content(embed) }),
{
    embed.color(serenity::model::Colour(color))
}

/// `CreateEmbed::image` stores an image with this address and leaves the rest.
#[verifier::external_body]
pub(crate) fn set_image(embed: CreateEmbed, url: &str) -> (out: CreateEmbed)
    ensures
        embed_content(out) == (EmbedContent { image: Some(url@), ..embed_content(embed) }),
{
    embed.image(url)
}

/// `CreateEmbed::thumbnail` stores a thumbnail with this address and leaves
/// the rest.
#[verifier::external_body]
pub(crate) fn set_thumbnail(embed: CreateEmbed, url: &str) -> (out: CreateEmbed)
    ensures
        embed_content(out) == (EmbedContent { thumbnail: Some(url@), ..embed_content(embed) }),
{
    embed.thumbnail(url)
}

/// `CreateEmbed::fields` appends the triples, in their order, behind the
/// fields that the embed already has, and leaves the rest.
#[verifier::external_body]
pub(crate) fn add_fields(embed: CreateEmbed, fields: Vec<(String, String, bool)>) -> (out: CreateEmbed)
    ensures
        embed_content(out) == (EmbedContent {
            fields: embed_content(embed).fields + triples(fields@),
            ..embed_content(embed)
        }),
{
    embed.fields(fields)
}

/// `CreateEmbedFooter::new` makes a footer with this text and no icon.
#[verifier::external_body]
pub(crate) fn new_footer(text: &str) -> (footer: CreateEmbedFooter)
    ensures
        footer_content(footer) == (FooterContent { text: text@, icon_url: None }),
{
    CreateEmbedFooter::new(text)
}

/// `CreateEmbedFooter::icon_url` sets the icon and keeps the text.
#[verifier::external_body]
pub(crate) fn set_footer_icon_url(footer: CreateEmbedFooter, icon_url: &str) -> (out: CreateEmbedFooter)
    ensures
        footer_content(out) == (FooterContent {
            icon_url: Some(icon_url@),
            ..footer_content(footer)
        }),
{
    footer.icon_url(icon_url)
}

/// `CreateEmbedAuthor::new` makes an author with this name, no link and no
/// icon.
#[verifier::external_body]
pub(crate) fn new_author(name: &str) -> (author: CreateEmbedAuthor)
    ensures
        author_content(author) == (AuthorContent { name: name@, url: None, icon_url: None }),
{
    CreateEmbedAuthor::new(name)
}

/// `CreateEmbedAuthor::url` sets the link and keeps the name and the icon.
#[verifier::external_body]
pub(crate) fn set_author_url(author: CreateEmbedAuthor, url: &str) -> (out: CreateEmbedAuthor)
    ensures
        author_content(out) == (AuthorContent { url: Some(url@), ..author_content(author) }),
{
    author.url(url)
}

/// `CreateEmbedAuthor::icon_url` sets the icon and keeps the name and the
/// link.
#[verifier::external_body]
pub(crate) fn set_author_icon_url(author: CreateEmbedAuthor, icon_url: &str) -> (out: CreateEmbedAuthor)
    ensures
        author_content(out) == (AuthorContent {
            icon_url: Some(icon_url@),
            ..author_content(author)
        }),
{
    author.icon_url(icon_url)
}

} // verus!
