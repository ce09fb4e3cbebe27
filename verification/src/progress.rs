//! Kinds of terminal progress indicators.

use vstd::prelude::*;

verus! {

/// Progress bar type.
#[derive(Debug, Clone, Copy, PartialEq, Eq, Structural)]
pub enum ProgressType {
    /// Progress bar for download.
    Download,
    /// Progress bar for audio processing.
    Audio,
    /// Progress bar for splitting a track.
    Track,
}

/// The indicator template for a progress type.
pub open spec fn template_spec(t: ProgressType) -> Seq<char> {
    match t {
        ProgressType::Download => "{msg} {spinner:.green}"@,
        ProgressType::Audio => "{msg} {spinner:.cyan}"@,
        ProgressType::Track => "  {msg} {spinner:.yellow}"@,
    }
}

impl ProgressType {
    /// The indicator template for this type.
    pub fn template(self) -> (r: &'static str)
        ensures
            r@ == template_spec(self),
    {
        match self {
            ProgressType::Download => "{msg} {spinner:.green}",
            ProgressType::Audio => "{msg} {spinner:.cyan}",
            ProgressType::Track => "  {msg} {spinner:.yellow}",
        }
    }
}

} // verus!
