//! The value model of an embed: plain structs whose every part is optional,
//! and the mathematical view of each.

use serenity::model::Timestamp;
use vstd::prelude::*;

verus! {

/// The view of a [`SerenityEmbedTitle`].
pub struct TitleView {
    pub text: Seq<char>,
    pub url: Seq<char>,
}

/// The view of a [`SerenityEmbedField`].
pub struct FieldView {
    pub name: Seq<char>,
    pub value: Seq<char>,
    pub inline: bool,
}

/// The view of a [`SerenityEmbed`]: each string as its characters, the fields
/// as a sequence in their order.
pub struct EmbedView {
    pub title: Option<TitleView>,
    pub description: Option<Seq<char>>,
    pub timestamp: Option<Timestamp>,
    pub color: Option<u32>,
    pub footer_text: Option<Seq<char>>,
    pub footer_icon_url: Option<Seq<char>>,
    pub image_url: Option<Seq<char>>,
    pub thumbnail_url: Option<Seq<char>>,
    pub author_name: Option<Seq<char>>,
    pub author_url: Option<Seq<char>>,
    pub author_icon_url: Option<Seq<char>>,
    pub fields: Option<Seq<FieldView>>,
}

impl EmbedView {
    /// The embed in which nothing is set.
    pub open spec fn empty() -> EmbedView {
        EmbedView {
            title: None,
            description: None,
            timestamp: None,
            color: None,
            footer_text: None,
            footer_icon_url: None,
            image_url: None,
            thumbnail_url: None,
            author_name: None,
            author_url: None,
            author_icon_url: None,
            fields: None,
        }
    }
}

/// The title of an embed: a text and the address it links to. Where an embed
/// has a title, it has both.
pub struct SerenityEmbedTitle {
    /// The text of the title.
    pub text: String,
    /// The url of the title.
    pub url: String,
}

/// One field of an embed.
pub struct SerenityEmbedField {
    /// The name of the field.
    pub name: String,
    /// The value of the field.
    pub value: String,
    /// Whether the field is displayed inline.
    pub inline: bool,
}

/// An embed as its author describes it. Every part may be absent. The limits
/// on the description and on the number of fields are not held here: a value
/// of this type may break them, and the conversion refuses it then.
pub struct SerenityEmbed {
    /// The title of the embed.
    pub title: Option<SerenityEmbedTitle>,
    /// The description of the embed.
    pub description: Option<String>,
    /// The timestamp shown at the bottom of the embed.
    pub timestamp: Option<Timestamp>,
    /// The color of the embed as packed RGB, such as `0xff0000` for red.
    pub color: Option<u32>,
    /// The text of the footer.
    pub footer_text: Option<String>,
    /// The icon of the footer. It shows only where the footer has a text.
    pub footer_icon_url: Option<String>,
    /// The image of the embed.
    pub image_url: Option<String>,
    /// The thumbnail of the embed.
    pub thumbnail_url: Option<String>,
    /// The name of the author.
    pub author_name: Option<String>,
    /// The link of the author. It shows only where the author has a name.
    pub author_url: Option<String>,
    /// The icon of the author. It shows only where the author has a name.
    pub author_icon_url: Option<String>,
    /// The fields of the embed, in the order in which they are shown.
    pub fields: Option<Vec<SerenityEmbedField>>,
}

impl View for SerenityEmbedTitle {
    type V = TitleView;

    open spec fn view(&self) -> TitleView {
        TitleView { text: self.text@, url: self.url@ }
    }
}

impl View for SerenityEmbedField {
    type V = FieldView;

    open spec fn view(&self) -> FieldView {
        FieldView { name: self.name@, value: self.value@, inline: self.inline }
    }
}

/// The views of the fields, in their order.
pub open spec fn field_views(fields: Seq<SerenityEmbedField>) -> Seq<FieldView> {
    Seq::new(fields.len(), |i: int| fields[i]@)
}

/// The characters of a string that may be absent.
pub open spec fn text_view(text: Option<String>) -> Option<Seq<char>> {
    match text {
        Some(s) => Some(s@),
        None => None,
    }
}

impl View for SerenityEmbed {
    type V = EmbedView;

    open spec fn view(&self) -> EmbedView {
        EmbedView {
            title: match self.title {
                Some(t) => Some(t@),
                None => None,
            },
            description: text_view(self.description),
            timestamp: self.timestamp,
            color: self.color,
            footer_text: text_view(self.footer_text),
            footer_icon_url: text_view(self.footer_icon_url),
            image_url: text_view(self.image_url),
            thumbnail_url: text_view(self.thumbnail_url),
            author_name: text_view(self.author_name),
            author_url: text_view(self.author_url),
            author_icon_url: text_view(self.author_icon_url),
            fields: match self.fields {
                Some(v) => Some(field_views(v@)),
                None => None,
            },
        }
    }
}

/// A copy of a string that may be absent.
fn clone_text(text: &Option<String>) -> (out: Option<String>)
    ensures
        text_view(out) == text_view(*text),
{
    match text {
        Some(s) => Some(s.clone()),
        None => None,
    }
}

/// A copy of each field, in the same order.
fn clone_fields(fields: &Vec<SerenityEmbedField>) -> (out: Vec<SerenityEmbedField>)
    ensures
        field_views(out@) == field_views(fields@),
{
    let mut out: Vec<SerenityEmbedField> = Vec::new();
    let mut i: usize = 0;
    while i < fields.len()
        invariant
            i <= fields.len(),
            out.len() == i,
            forall|j: int| 0 <= j < i ==> out[j]@ == fields[j]@,
        decreases fields.len() - i,
    {
        out.push(fields[i].clone());
        i += 1;
    }
    assert(field_views(out@) =~= field_views(fields@));
    out
}

impl Clone for SerenityEmbedTitle {
    /// A deep copy: the same text and the same url.
    fn clone(&self) -> (out: Self)
        ensures
            out@ == self@,
    {
        SerenityEmbedTitle { text: self.text.clone(), url: self.url.clone() }
    }
}

impl Clone for SerenityEmbedField {
    /// A deep copy: the same name, value and flag.
    fn clone(&self) -> (out: Self)
        ensures
            out@ == self@,
    {
        SerenityEmbedField {
            name: self.name.clone(),
            value: self.value.clone(),
            inline: self.inline,
        }
    }
}

impl Clone for SerenityEmbed {
    /// A deep copy: every part that is set is set to the same value in the
    /// copy, and the fields keep their order.
    fn clone(&self) -> (out: Self)
        ensures
            out@ == self@,
    {
        SerenityEmbed {
            title: match &self.title {
                Some(t) => Some(t.clone()),
                None => None,
            },
            description: clone_text(&self.description),
            timestamp: self.timestamp,
            color: self.color,
            footer_text: clone_text(&self.footer_text),
            footer_icon_url: clone_text(&self.footer_icon_url),
            image_url: clone_text(&self.image_url),
            thumbnail_url: clone_text(&self.thumbnail_url),
            author_name: clone_text(&self.author_name),
            author_url: clone_text(&self.author_url),
            author_icon_url: clone_text(&self.author_icon_url),
            fields: match &self.fields {
                Some(v) => Some(clone_fields(v)),
                None => None,
            },
        }
    }
}

} // verus!
