//! The conversion of an embed into serenity's builder, and the two limits it
//! holds the embed to.

use crate::error::SerenityEmbedConvertError;
use crate::model::{field_views, EmbedView, FieldView, SerenityEmbed, SerenityEmbedField};
use crate::target::{
    add_fields, embed_content, new_author, new_footer, set_author_icon_url, set_author_url,
    set_color, set_description, set_footer_icon_url, set_image, set_thumbnail, set_timestamp,
    set_title, set_url, triples, AuthorContent, EmbedContent, FooterContent,
};
use serenity::builder::CreateEmbed;
use vstd::prelude::*;

verus! {

/// A description converts only if it is shorter than this, counted in bytes of
/// UTF-8.
pub const MAX_DESCRIPTION_LENGTH: usize = 4096;

/// An embed converts only if it has at most this many fields.
pub const MAX_FIELD_COUNT: usize = 25;

/// The length of a text as the limit counts it: the bytes of its UTF-8
/// encoding, not its characters.
pub open spec fn byte_len(text: Seq<char>) -> nat {
    vstd::utf8::encode_utf8(text).len()
}

/// The embed has a description, and it reaches the limit.
pub open spec fn description_too_long(embed: EmbedView) -> bool {
    embed.description is Some && byte_len(embed.description->0) >= MAX_DESCRIPTION_LENGTH
}

/// The embed has a field list, and it is over the limit.
pub open spec fn too_many_fields(embed: EmbedView) -> bool {
    embed.fields is Some && embed.fields->0.len() > MAX_FIELD_COUNT
}

/// The fields as the triples that serenity takes, in the same order.
pub open spec fn field_triples(fields: Seq<FieldView>) -> Seq<(Seq<char>, Seq<char>, bool)> {
    Seq::new(fields.len(), |i: int| (fields[i].name, fields[i].value, fields[i].inline))
}

/// What serenity's builder holds after a conversion that succeeds. Each part
/// of the embed that is set appears with its value, and no other part is set.
/// A footer exists only where there is a footer text, an author only where
/// there is an author name; the icon and link of one that does not exist are
/// dropped.
pub open spec fn converted(embed: EmbedView) -> EmbedContent {
    EmbedContent {
        title: match embed.title {
            Some(t) => Some(t.text),
            None => None,
        },
        url: match embed.title {
            Some(t) => Some(t.url),
            None => None,
        },
        description: embed.description,
        timestamp: embed.timestamp,
        colour: embed.color,
        footer: match embed.footer_text {
            Some(text) => Some(FooterContent { text, icon_url: embed.footer_icon_url }),
            None => None,
        },
        image: embed.image_url,
        thumbnail: embed.thumbnail_url,
        author: match embed.author_name {
            Some(name) => Some(
                AuthorContent { name, url: embed.author_url, icon_url: embed.author_icon_url },
            ),
            None => None,
        },
        fields: match embed.fields {
            Some(fields) => field_triples(fields),
            None => Seq::empty(),
        },
    }
}

/// What a conversion owes for each embed. The description is judged first: an
/// embed that breaks both limits is refused for its description.
pub open spec fn conversion(embed: EmbedView) -> Result<EmbedContent, SerenityEmbedConvertError> {
    if description_too_long(embed) {
        Err(SerenityEmbedConvertError::DescriptionTooLong)
    } else if too_many_fields(embed) {
        Err(SerenityEmbedConvertError::TooManyFields)
    } else {
        Ok(converted(embed))
    }
}

/// A result of [`SerenityEmbed::convert`], with the builder replaced by what
/// it holds.
pub open spec fn outcome(result: Result<CreateEmbed, SerenityEmbedConvertError>) -> Result<
    EmbedContent,
    SerenityEmbedConvertError,
> {
    match result {
        Ok(embed) => Ok(embed_content(embed)),
        Err(error) => Err(error),
    }
}

/// The fields as owned triples, in the same order.
fn to_triples(fields: &Vec<SerenityEmbedField>) -> (out: Vec<(String, String, bool)>)
    ensures
        triples(out@) == field_triples(field_views(fields@)),
{
    let mut out: Vec<(String, String, bool)> = Vec::new();
    let mut i: usize = 0;
    while i < fields.len()
        invariant
            i <= fields.len(),
            out.len() == i,
            forall|j: int|
                0 <= j < i ==> out[j].0@ == fields[j].name@ && out[j].1@ == fields[j].value@
                    && out[j].2 == fields[j].inline,
        decreases fields.len() - i,
    {
        let field = &fields[i];
        out.push((field.name.clone(), field.value.clone(), field.inline));
        i += 1;
    }
    assert(triples(out@) =~= field_triples(field_views(fields@)));
    out
}

impl SerenityEmbed {
    /// Converts the embed into serenity's builder.
    ///
    /// The conversion fails with `DescriptionTooLong` exactly when there is a
    /// description of [`MAX_DESCRIPTION_LENGTH`] bytes or more, and otherwise
    /// with `TooManyFields` exactly when there are more than
    /// [`MAX_FIELD_COUNT`] fields. In every other case it succeeds, and the
    /// builder holds what [`converted`] says: each part that is set, with its
    /// value, and the fields in their order.
    pub fn convert(&self) -> (result: Result<CreateEmbed, SerenityEmbedConvertError>)
        ensures
            outcome(result) == conversion(self@),
    {
        let mut embed = CreateEmbed::new();

        if let Some(title) = &self.title {
            embed = set_title(embed, title.text.as_str());
            embed = set_url(embed, title.url.as_str());
        }
        if let Some(description) = &self.description {
            if description.as_str().as_bytes().len() >= MAX_DESCRIPTION_LENGTH {
                return Err(SerenityEmbedConvertError::DescriptionTooLong);
            }
            embed = set_description(embed, description.as_str());
        }
        if let Some(timestamp) = &self.timestamp {
            embed = set_timestamp(embed, timestamp);
        }
        if let Some(color) = &self.color {
            embed = set_color(embed, *color);
        }
        if let Some(footer_text) = &self.footer_text {
            let mut footer = new_footer(footer_text.as_str());
            if let Some(icon_url) = &self.footer_icon_url {
                footer = set_footer_icon_url(footer, icon_url.as_str());
            }
            embed = embed.footer(footer);
        }
        if let Some(image_url) = &self.image_url {
            embed = set_image(embed, image_url.as_str());
        }
        if let Some(thumbnail_url) = &self.thumbnail_url {
            embed = set_thumbnail(embed, thumbnail_url.as_str());
        }
        if let Some(author_name) = &self.author_name {
            let mut author = new_author(author_name.as_str());
            if let Some(url) = &self.author_url {
                author = set_author_url(author, url.as_str());
            }
            if let Some(icon_url) = &self.author_icon_url {
                author = set_author_icon_url(author, icon_url.as_str());
            }
            embed = embed.author(author);
        }
        if let Some(fields) = &self.fields {
            if fields.len() > MAX_FIELD_COUNT {
                return Err(SerenityEmbedConvertError::TooManyFields);
            }
            embed = add_fields(embed, to_triples(fields));
        }
        assert(embed_content(embed) =~= converted(self@));
        Ok(embed)
    }
}

} // verus!
