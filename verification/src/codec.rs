//! The fixed table from output extension to audio codec identifier, read
//! without regard to letter case.

use vstd::prelude::*;

use crate::chars::lower_seq;
use crate::paths::spec_extension;

verus! {

/// The audio codec identifier for an output extension: the table is
/// exhaustive over the supported set, and every other extension maps to
/// none.
pub open spec fn codec_for(ext: Seq<char>) -> Option<Seq<char>> {
    let l = lower_seq(ext);
    if l == "mp3"@ {
        Some("libmp3lame"@)
    } else if l == "aac"@ {
        Some("aac"@)
    } else if l == "wav"@ {
        Some("pcm_s16le"@)
    } else if l == "flac"@ {
        Some("flac"@)
    } else if l == "ogg"@ {
        Some("libvorbis"@)
    } else {
        None
    }
}

/// The audio codec an output path calls for: the codec of its extension,
/// or none where the path has no extension.
pub open spec fn spec_audio_codec(filename: Seq<char>) -> Option<Seq<char>> {
    match spec_extension(filename) {
        Some(ext) => codec_for(ext),
        None => None,
    }
}

/// Law: the codec table reads the extension without regard to letter case —
/// two extensions that agree once lowercased map to the same codec.
pub proof fn lemma_codec_case_insensitive(e1: Seq<char>, e2: Seq<char>)
    requires
        lower_seq(e1) == lower_seq(e2),
    ensures
        codec_for(e1) == codec_for(e2),
{
}

} // verus!
