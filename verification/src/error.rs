//! Why a conversion is refused.

use vstd::prelude::*;

verus! {

/// The two ways in which an embed can be too large for Discord. Neither
/// carries more than its kind.
#[derive(Debug, Clone, Copy, PartialEq, Eq, Structural)]
pub enum SerenityEmbedConvertError {
    /// The description is as long as the limit or longer.
    DescriptionTooLong,
    /// There are more fields than the limit allows.
    TooManyFields,
}

impl SerenityEmbedConvertError {
    /// The sentence that describes this error to a person.
    pub open spec fn spec_message(self) -> Seq<char> {
        match self {
            SerenityEmbedConvertError::DescriptionTooLong => {
                "The description exceeds the maximum length of 4096 characters."@
            },
            SerenityEmbedConvertError::TooManyFields => {
                "The number of fields exceeds the maximum of 25."@
            },
        }
    }

    /// The sentence that describes this error to a person.
    pub fn message(&self) -> (text: &'static str)
        ensures
            text@ == self.spec_message(),
    {
        match self {
            SerenityEmbedConvertError::DescriptionTooLong => {
                "The description exceeds the maximum length of 4096 characters."
            },
            SerenityEmbedConvertError::TooManyFields => {
                "The number of fields exceeds the maximum of 25."
            },
        }
    }
}

} // verus!
