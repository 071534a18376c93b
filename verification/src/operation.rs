//! The closed set of conversion modes, decided once at the boundary and
//! passed as a variant from there on.

use vstd::prelude::*;

use crate::chars::str_eq_chars;

verus! {

/// The three fixed conversion modes.
#[derive(Debug, Clone, Copy, PartialEq, Eq, Structural)]
pub enum Operation {
    /// Extract the audio stream into a chosen audio codec.
    ExtractAudio,
    /// Compress the video with a fixed codec and quality preset.
    Compress,
    /// Convert between containers, leaving codec choices to the transcoder.
    Convert,
}

/// The operation each CLI operation name selects; names outside the closed
/// set select none.
pub open spec fn spec_parse_operation(s: Seq<char>) -> Option<Operation> {
    if s == "get-audio"@ {
        Some(Operation::ExtractAudio)
    } else if s == "compress"@ {
        Some(Operation::Compress)
    } else if s == "convert"@ {
        Some(Operation::Convert)
    } else {
        None
    }
}

impl Operation {
    /// Maps a CLI operation name to its variant; any other name is refused.
    pub fn parse(name: &str) -> (r: Option<Operation>)
        ensures
            r == spec_parse_operation(name@),
    {
        if str_eq_chars(name, "get-audio") {
            Some(Operation::ExtractAudio)
        } else if str_eq_chars(name, "compress") {
            Some(Operation::Compress)
        } else if str_eq_chars(name, "convert") {
            Some(Operation::Convert)
        } else {
            None
        }
    }
}

} // verus!
