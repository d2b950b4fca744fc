//! A fluent builder for Discord embeds, and a checked conversion of what it
//! builds into serenity's `CreateEmbed`.
//!
//! The value model lives in [`model`], its builders in [`builder`], the
//! serenity calls and what is assumed of them in [`target`], the conversion in
//! [`convert`], and what holds of every conversion in [`laws`].

pub mod builder;
pub mod convert;
pub mod error;
pub mod laws;
pub mod model;
pub mod target;

pub use crate::builder::{
    SerenityEmbedBuilder, SerenityEmbedFieldBuilder, SerenityEmbedTitleBuilder,
    SerenityEmbedTitleBuilderFull, SerenityEmbedTitleBuilderText, SerenityEmbedTitleBuilderUrl,
};
pub use crate::convert::{MAX_DESCRIPTION_LENGTH, MAX_FIELD_COUNT};
pub use crate::error::SerenityEmbedConvertError;
pub use crate::model::{SerenityEmbed, SerenityEmbedField, SerenityEmbedTitle};
