//! What holds of every conversion, proved from the contract of
//! [`SerenityEmbed::convert`].

use crate::convert::{byte_len, conversion, converted, description_too_long, outcome};
use crate::error::SerenityEmbedConvertError;
use crate::model::{EmbedView, SerenityEmbed};
use crate::target::{AuthorContent, EmbedContent, FooterContent};
use serenity::builder::CreateEmbed;
use vstd::prelude::*;

verus! {

/// An embed whose description, if it has one, is shorter than 4096 bytes, and
/// whose field list, if it has one, holds at most 25 fields, converts. The
/// result holds each part that is set, with its value: the title's text and
/// url, the description, the timestamp, the color, the image and the
/// thumbnail; the footer's text and icon where there is a footer text; the
/// author's name, link and icon where there is an author name. It holds as
/// many fields as the embed, each at its place with its name, value and flag.
/// What is absent in the embed is absent in the result.
pub proof fn lemma_within_limits_converts(embed: EmbedView)
    requires
        embed.description is None || byte_len(embed.description->0) < 4096,
        embed.fields is None || embed.fields->0.len() <= 25,
    ensures
        conversion(embed) is Ok,
        ({
            let out = conversion(embed)->Ok_0;
            &&& embed.title is Some ==> out.title == Some(embed.title->0.text) && out.url == Some(
                embed.title->0.url,
            )
            &&& embed.title is None ==> out.title is None && out.url is None
            &&& out.description == embed.description
            &&& out.timestamp == embed.timestamp
            &&& out.colour == embed.color
            &&& out.image == embed.image_url
            &&& out.thumbnail == embed.thumbnail_url
            &&& embed.footer_text is Some ==> out.footer == Some(
                FooterContent { text: embed.footer_text->0, icon_url: embed.footer_icon_url },
            )
            &&& embed.footer_text is None ==> out.footer is None
            &&& embed.author_name is Some ==> out.author == Some(
                AuthorContent {
                    name: embed.author_name->0,
                    url: embed.author_url,
                    icon_url: embed.author_icon_url,
                },
            )
            &&& embed.author_name is None ==> out.author is None
            &&& embed.fields is None ==> out.fields.len() == 0
            &&& embed.fields is Some ==> {
                &&& out.fields.len() == embed.fields->0.len()
                &&& forall|i: int|
                    0 <= i < out.fields.len() ==> #[trigger] out.fields[i] == (
                        embed.fields->0[i].name,
                        embed.fields->0[i].value,
                        embed.fields->0[i].inline,
                    )
            }
        }),
{
}

/// An embed with a description of 4096 bytes or more is refused for its
/// description, whatever else it holds.
pub proof fn lemma_long_description_refused(embed: EmbedView)
    requires
        embed.description is Some,
        byte_len(embed.description->0) >= 4096,
    ensures
        conversion(embed) == Err::<EmbedContent, _>(SerenityEmbedConvertError::DescriptionTooLong),
{
}

/// An embed with 26 fields or more, whose description does not itself reach
/// its limit, is refused for its fields.
pub proof fn lemma_many_fields_refused(embed: EmbedView)
    requires
        embed.fields is Some,
        embed.fields->0.len() >= 26,
        !description_too_long(embed),
    ensures
        conversion(embed) == Err::<EmbedContent, _>(SerenityEmbedConvertError::TooManyFields),
{
}

/// Converting one embed twice gives the same outcome twice: the same error, or
/// two builders that hold the same.
pub proof fn lemma_convert_repeatable(
    embed: SerenityEmbed,
    first: Result<CreateEmbed, SerenityEmbedConvertError>,
    second: Result<CreateEmbed, SerenityEmbedConvertError>,
)
    requires
        outcome(first) == conversion(embed@),
        outcome(second) == conversion(embed@),
    ensures
        outcome(first) == outcome(second),
{
}

/// The embed in which nothing is set converts, and nothing is set in the
/// result.
pub proof fn lemma_empty_embed_converts()
    ensures
        conversion(EmbedView::empty()) == Ok::<_, SerenityEmbedConvertError>(EmbedContent::empty()),
{
    assert(converted(EmbedView::empty()) =~= EmbedContent::empty());
}

} // verus!
