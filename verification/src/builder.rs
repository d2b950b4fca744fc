//! Fluent construction of the value model. Every setter takes the builder and
//! hands it back, and `build` cannot fail: it checks no limit.

use crate::model::{
    field_views, EmbedView, FieldView, SerenityEmbed, SerenityEmbedField, SerenityEmbedTitle,
    TitleView,
};
use serenity::model::Timestamp;
use vstd::prelude::*;

verus! {

/// Builds a [`SerenityEmbed`]. What no setter was called for stays absent.
pub struct SerenityEmbedBuilder {
    embed: SerenityEmbed,
}

impl View for SerenityEmbedBuilder {
    type V = EmbedView;

    /// The embed that `build` would return now.
    closed spec fn view(&self) -> EmbedView {
        self.embed@
    }
}

impl SerenityEmbed {
    /// A builder in which nothing is set.
    pub fn builder() -> (builder: SerenityEmbedBuilder)
        ensures
            builder@ == EmbedView::empty(),
    {
        SerenityEmbedBuilder {
            embed: SerenityEmbed {
                title: None,
                description: None,
                timestamp: None,
                color: None,
                footer_text: None,
                footer_icon_url: None,
                image_url: None,
                thumbnail_url: None,
                author_name: None,
                author_url: None,
                author_icon_url: None,
                fields: None,
            },
        }
    }
}

impl SerenityEmbedBuilder {
    /// Sets the title.
    pub fn title(self, title: SerenityEmbedTitle) -> (out: Self)
        ensures
            out@ == (EmbedView { title: Some(title@), ..self@ }),
    {
        let mut embed = self.embed;
        embed.title = Some(title);
        SerenityEmbedBuilder { embed }
    }

    /// Sets the description. Its length is not checked here.
    pub fn description(self, description: &str) -> (out: Self)
        ensures
            out@ == (EmbedView { description: Some(description@), ..self@ }),
    {
        let mut embed = self.embed;
        embed.description = Some(description.to_owned());
        SerenityEmbedBuilder { embed }
    }

    /// Sets the timestamp.
    pub fn timestamp(self, timestamp: Timestamp) -> (out: Self)
        ensures
            out@ == (EmbedView { timestamp: Some(timestamp), ..self@ }),
    {
        let mut embed = self.embed;
        embed.timestamp = Some(timestamp);
        SerenityEmbedBuilder { embed }
    }

    /// Sets the color, as packed RGB.
    pub fn color(self, color: u32) -> (out: Self)
        ensures
            out@ == (EmbedView { color: Some(color), ..self@ }),
    {
        let mut embed = self.embed;
        embed.color = Some(color);
        SerenityEmbedBuilder { embed }
    }

    /// Sets the text of the footer.
    pub fn footer_text(self, footer_text: &str) -> (out: Self)
        ensures
            out@ == (EmbedView { footer_text: Some(footer_text@), ..self@ }),
    {
        let mut embed = self.embed;
        embed.footer_text = Some(footer_text.to_owned());
        SerenityEmbedBuilder { embed }
    }

    /// Sets the icon of the footer.
    pub fn footer_icon_url(self, footer_icon_url: &str) -> (out: Self)
        ensures
            out@ == (EmbedView { footer_icon_url: Some(footer_icon_url@), ..self@ }),
    {
        let mut embed = self.embed;
        embed.footer_icon_url = Some(footer_icon_url.to_owned());
        SerenityEmbedBuilder { embed }
    }

    /// Sets the image.
    pub fn image_url(self, image_url: &str) -> (out: Self)
        ensures
            out@ == (EmbedView { image_url: Some(image_url@), ..self@ }),
    {
        let mut embed = self.embed;
        embed.image_url = Some(image_url.to_owned());
        SerenityEmbedBuilder { embed }
    }

    /// Sets the thumbnail.
    pub fn thumbnail_url(self, thumbnail_url: &str) -> (out: Self)
        ensures
            out@ == (EmbedView { thumbnail_url: Some(thumbnail_url@), ..self@ }),
    {
        let mut embed = self.embed;
        embed.thumbnail_url = Some(thumbnail_url.to_owned());
        SerenityEmbedBuilder { embed }
    }

    /// Sets the name of the author.
    pub fn author_name(self, author_name: &str) -> (out: Self)
        ensures
            out@ == (EmbedView { author_name: Some(author_name@), ..self@ }),
    {
        let mut embed = self.embed;
        embed.author_name = Some(author_name.to_owned());
        SerenityEmbedBuilder { embed }
    }

    /// Sets the link of the author.
    pub fn author_url(self, author_url: &str) -> (out: Self)
        ensures
            out@ == (EmbedView { author_url: Some(author_url@), ..self@ }),
    {
        let mut embed = self.embed;
        embed.author_url = Some(author_url.to_owned());
        SerenityEmbedBuilder { embed }
    }

    /// Sets the icon of the author.
    pub fn author_icon_url(self, author_icon_url: &str) -> (out: Self)
        ensures
            out@ == (EmbedView { author_icon_url: Some(author_icon_url@), ..self@ }),
    {
        let mut embed = self.embed;
        embed.author_icon_url = Some(author_icon_url.to_owned());
        SerenityEmbedBuilder { embed }
    }

    /// Sets the fields, in the order given. Their number is not checked here.
    pub fn fields(self, fields: Vec<SerenityEmbedField>) -> (out: Self)
        ensures
            out@ == (EmbedView { fields: Some(field_views(fields@)), ..self@ }),
    {
        let mut embed = self.embed;
        embed.fields = Some(fields);
        SerenityEmbedBuilder { embed }
    }

    /// The embed with what the setters gave it, and nothing else.
    pub fn build(self) -> (embed: SerenityEmbed)
        ensures
            embed@ == self@,
    {
        self.embed
    }
}

/// Builds a [`SerenityEmbedField`]. A name or value that is not set is empty,
/// and a field is not inline unless it is asked to be.
pub struct SerenityEmbedFieldBuilder {
    field: SerenityEmbedField,
}

impl View for SerenityEmbedFieldBuilder {
    type V = FieldView;

    /// The field that `build` would return now.
    closed spec fn view(&self) -> FieldView {
        self.field@
    }
}

impl SerenityEmbedField {
    /// A builder for a field with an empty name and value, not inline.
    pub fn builder() -> (builder: SerenityEmbedFieldBuilder)
        ensures
            builder@ == (FieldView { name: Seq::empty(), value: Seq::empty(), inline: false }),
    {
        SerenityEmbedFieldBuilder {
            field: SerenityEmbedField { name: String::new(), value: String::new(), inline: false },
        }
    }
}

impl SerenityEmbedFieldBuilder {
    /// Sets the name.
    pub fn name(self, name: &str) -> (out: Self)
        ensures
            out@ == (FieldView { name: name@, ..self@ }),
    {
        let mut field = self.field;
        field.name = name.to_owned();
        SerenityEmbedFieldBuilder { field }
    }

    /// Sets the value.
    pub fn value(self, value: &str) -> (out: Self)
        ensures
            out@ == (FieldView { value: value@, ..self@ }),
    {
        let mut field = self.field;
        field.value = value.to_owned();
        SerenityEmbedFieldBuilder { field }
    }

    /// Sets whether the field is shown inline.
    pub fn inline(self, inline: bool) -> (out: Self)
        ensures
            out@ == (FieldView { inline, ..self@ }),
    {
        let mut field = self.field;
        field.inline = inline;
        SerenityEmbedFieldBuilder { field }
    }

    /// The field with what the setters gave it.
    pub fn build(self) -> (field: SerenityEmbedField)
        ensures
            field@ == self@,
    {
        self.field
    }
}

/// The first stage of building a [`SerenityEmbedTitle`]: nothing is set. A
/// title needs both its text and its url, so only the stage that has both
/// offers `build`.
pub struct SerenityEmbedTitleBuilder {}

/// A title under construction that has its text and still needs its url.
pub struct SerenityEmbedTitleBuilderText {
    text: String,
}

/// A title under construction that has its url and still needs its text.
pub struct SerenityEmbedTitleBuilderUrl {
    url: String,
}

/// A title under construction that has its text and its url.
pub struct SerenityEmbedTitleBuilderFull {
    title: SerenityEmbedTitle,
}

impl View for SerenityEmbedTitleBuilderText {
    type V = Seq<char>;

    /// The text that was given.
    closed spec fn view(&self) -> Seq<char> {
        self.text@
    }
}

impl View for SerenityEmbedTitleBuilderUrl {
    type V = Seq<char>;

    /// The url that was given.
    closed spec fn view(&self) -> Seq<char> {
        self.url@
    }
}

impl View for SerenityEmbedTitleBuilderFull {
    type V = TitleView;

    /// The title that `build` would return.
    closed spec fn view(&self) -> TitleView {
        self.title@
    }
}

impl SerenityEmbedTitle {
    /// A builder for a title.
    pub fn builder() -> SerenityEmbedTitleBuilder {
        SerenityEmbedTitleBuilder {  }
    }
}

impl SerenityEmbedTitleBuilder {
    /// Sets the text.
    pub fn text(self, text: &str) -> (out: SerenityEmbedTitleBuilderText)
        ensures
            out@ == text@,
    {
        SerenityEmbedTitleBuilderText { text: text.to_owned() }
    }

    /// Sets the url.
    pub fn url(self, url: &str) -> (out: SerenityEmbedTitleBuilderUrl)
        ensures
            out@ == url@,
    {
        SerenityEmbedTitleBuilderUrl { url: url.to_owned() }
    }
}

impl SerenityEmbedTitleBuilderText {
    /// Sets the url, which completes the title.
    pub fn url(self, url: &str) -> (out: SerenityEmbedTitleBuilderFull)
        ensures
            out@ == (TitleView { text: self@, url: url@ }),
    {
        SerenityEmbedTitleBuilderFull {
            title: SerenityEmbedTitle { text: self.text, url: url.to_owned() },
        }
    }
}

impl SerenityEmbedTitleBuilderUrl {
    /// Sets the text, which completes the title.
    pub fn text(self, text: &str) -> (out: SerenityEmbedTitleBuilderFull)
        ensures
            out@ == (TitleView { text: text@, url: self@ }),
    {
        SerenityEmbedTitleBuilderFull {
            title: SerenityEmbedTitle { text: text.to_owned(), url: self.url },
        }
    }
}

impl SerenityEmbedTitleBuilderFull {
    /// The title with the text and the url that were given.
    pub fn build(self) -> (title: SerenityEmbedTitle)
        ensures
            title@ == self@,
    {
        self.title
    }
}

} // verus!
