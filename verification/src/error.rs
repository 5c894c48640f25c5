//! Failures that the negotiation itself can report.

use vstd::prelude::*;

verus! {

/// Why no configuration could be chosen.
#[derive(Clone, Copy, Debug, PartialEq, Eq, Structural)]
pub enum BuildError {
    /// The platform offered no configuration at all.
    NoConfigs,
    /// Configurations were offered, but none has the requested color, alpha,
    /// depth and stencil sizes (and sRGB capability, where requested).
    NoSuitableConfig,
}

impl BuildError {
    /// The text of the variant's message.
    pub open spec fn message_text(self) -> Seq<char> {
        match self {
            BuildError::NoConfigs => "no gl configs?"@,
            BuildError::NoSuitableConfig =>
                "no suitable gl config found, color+depth not supported?"@,
        }
    }

    /// A message for the user; the two variants have different messages.
    pub fn message(&self) -> (text: String)
        ensures
            text@ == self.message_text(),
    {
        match self {
            BuildError::NoConfigs => "no gl configs?".to_owned(),
            BuildError::NoSuitableConfig =>
                "no suitable gl config found, color+depth not supported?".to_owned(),
        }
    }
}

} // verus!
