//! The conversion request and what it decides: which argument list the
//! external transcoder is handed for each operation, that no invocation is
//! constructed for a path without an extension, and how a launch's
//! termination is classified.

use vstd::prelude::*;

use crate::chars::range_lower_eq;
use crate::codec::codec_for;
use crate::codec::spec_audio_codec;
use crate::error::CommandFailure;
use crate::error::FFustError;
use crate::operation::Operation;
use crate::paths::find_extension;
use crate::paths::spec_has_extension;

verus! {

/// The argument list that extracts the audio stream of `input` into
/// `output`: the video stream disabled, the audio codec chosen.
pub open spec fn audio_invocation(input: Seq<char>, output: Seq<char>, codec: Seq<char>) -> Seq<
    Seq<char>,
> {
    seq!["ffmpeg"@, "-i"@, input, "-vn"@, "-acodec"@, codec, output]
}

/// The argument list that compresses `input` into `output` with the fixed
/// high-efficiency video codec, quality and preset.
pub open spec fn compress_invocation(input: Seq<char>, output: Seq<char>) -> Seq<Seq<char>> {
    seq!["ffmpeg"@, "-i"@, input, "-c:v"@, "libx265"@, "-crf"@, "23"@, "-preset"@, "medium"@, output]
}

/// The argument list that converts `input` into `output` with no extra
/// flags: codec negotiation is left to the transcoder's defaults.
pub open spec fn convert_invocation(input: Seq<char>, output: Seq<char>) -> Seq<Seq<char>> {
    seq!["ffmpeg"@, "-i"@, input, output]
}

/// The invocation each operation constructs, program name first: audio
/// extraction resolves the output's codec and fails where none is
/// supported; the other two operations always construct one.
pub open spec fn spec_invocation(op: Operation, input: Seq<char>, output: Seq<char>) -> Result<
    Seq<Seq<char>>,
    FFustError,
> {
    match op {
        Operation::ExtractAudio => match spec_audio_codec(output) {
            Some(codec) => Ok(audio_invocation(input, output, codec)),
            None => Err(FFustError::UnsupportedAudioCodec),
        },
        Operation::Compress => Ok(compress_invocation(input, output)),
        Operation::Convert => Ok(convert_invocation(input, output)),
    }
}

/// What one run decides before any external work: a request whose input or
/// output path lacks an extension is refused outright; otherwise the
/// operation's invocation is constructed.
pub open spec fn spec_plan(op: Operation, input: Seq<char>, output: Seq<char>) -> Result<
    Seq<Seq<char>>,
    FFustError,
> {
    if !spec_has_extension(input) || !spec_has_extension(output) {
        Err(FFustError::InvalidFileExtension)
    } else {
        spec_invocation(op, input, output)
    }
}

/// Law: a request whose input or output path lacks an extension is refused
/// with the extension error, whatever the operation — so no invocation is
/// ever constructed for it, and nothing external can be launched.
pub proof fn lemma_missing_extension_rejected(op: Operation, input: Seq<char>, output: Seq<char>)
    requires
        !spec_has_extension(input) || !spec_has_extension(output),
    ensures
        spec_plan(op, input, output) == Err::<Seq<Seq<char>>, FFustError>(
            FFustError::InvalidFileExtension,
        ),
{
}

/// One conversion request: an input path and an output path, immutable
/// after construction.
pub struct FFust {
    input_file: String,
    output_file: String,
}

impl FFust {
    /// The input path held by this request.
    pub closed spec fn input(&self) -> Seq<char> {
        self.input_file@
    }

    /// The output path held by this request.
    pub closed spec fn output(&self) -> Seq<char> {
        self.output_file@
    }

    /// Creates a request over the two paths.
    pub fn new(input_file: &str, output_file: &str) -> (r: Self)
        ensures
            r.input() == input_file@,
            r.output() == output_file@,
    {
        Self { input_file: input_file.to_owned(), output_file: output_file.to_owned() }
    }

    /// Whether a filename carries an extension component.
    pub fn has_extension(filename: &str) -> (r: bool)
        ensures
            r == spec_has_extension(filename@),
    {
        find_extension(filename).is_some()
    }

    /// The audio codec identifier for a filename's extension, read without
    /// regard to letter case; an unsupported or absent extension is refused.
    pub fn get_audio_codec(filename: &str) -> (r: Result<String, FFustError>)
        ensures
            match r {
                Ok(codec) => spec_audio_codec(filename@) == Some(codec@),
                Err(e) => spec_audio_codec(filename@) is None && e
                    == FFustError::UnsupportedAudioCodec,
            },
    {
        match find_extension(filename) {
            None => Err(FFustError::UnsupportedAudioCodec),
            Some((from, to)) => {
                if range_lower_eq(filename, from, to, "mp3") {
                    Ok("libmp3lame".to_owned())
                } else if range_lower_eq(filename, from, to, "aac") {
                    Ok("aac".to_owned())
                } else if range_lower_eq(filename, from, to, "wav") {
                    Ok("pcm_s16le".to_owned())
                } else if range_lower_eq(filename, from, to, "flac") {
                    Ok("flac".to_owned())
                } else if range_lower_eq(filename, from, to, "ogg") {
                    Ok("libvorbis".to_owned())
                } else {
                    Err(FFustError::UnsupportedAudioCodec)
                }
            },
        }
    }

    /// Constructs the operation's invocation over this request's paths,
    /// program name first.
    pub fn build_invocation(&self, op: Operation) -> (r: Result<Vec<String>, FFustError>)
        ensures
            match r {
                Ok(argv) => spec_invocation(op, self.input(), self.output()) == Ok::<
                    Seq<Seq<char>>,
                    FFustError,
                >(argv.deep_view()),
                Err(e) => spec_invocation(op, self.input(), self.output()) == Err::<
                    Seq<Seq<char>>,
                    FFustError,
                >(e),
            },
    {
        match op {
            Operation::ExtractAudio => match Self::get_audio_codec(self.output_file.as_str()) {
                Err(e) => Err(e),
                Ok(codec) => {
                    let ghost codec_view = codec@;
                    let mut argv: Vec<String> = Vec::new();
                    argv.push("ffmpeg".to_owned());
                    argv.push("-i".to_owned());
                    argv.push(self.input_file.clone());
                    argv.push("-vn".to_owned());
                    argv.push("-acodec".to_owned());
                    argv.push(codec);
                    argv.push(self.output_file.clone());
                    proof {
                        assert(argv.deep_view() =~~= audio_invocation(
                            self.input(),
                            self.output(),
                            codec_view,
                        ));
                    }
                    Ok(argv)
                },
            },
            Operation::Compress => {
                let mut argv: Vec<String> = Vec::new();
                argv.push("ffmpeg".to_owned());
                argv.push("-i".to_owned());
                argv.push(self.input_file.clone());
                argv.push("-c:v".to_owned());
                argv.push("libx265".to_owned());
                argv.push("-crf".to_owned());
                argv.push("23".to_owned());
                argv.push("-preset".to_owned());
                argv.push("medium".to_owned());
                argv.push(self.output_file.clone());
                proof {
                    assert(argv.deep_view() =~~= compress_invocation(self.input(), self.output()));
                }
                Ok(argv)
            },
            Operation::Convert => {
                let mut argv: Vec<String> = Vec::new();
                argv.push("ffmpeg".to_owned());
                argv.push("-i".to_owned());
                argv.push(self.input_file.clone());
                argv.push(self.output_file.clone());
                proof {
                    assert(argv.deep_view() =~~= convert_invocation(self.input(), self.output()));
                }
                Ok(argv)
            },
        }
    }

    /// Plans one run: refuses the request when either path lacks an
    /// extension, and constructs the operation's invocation otherwise —
    /// the whole decision a run makes before anything external happens.
    pub fn plan_invocation(&self, op: Operation) -> (r: Result<Vec<String>, FFustError>)
        ensures
            match r {
                Ok(argv) => spec_plan(op, self.input(), self.output()) == Ok::<
                    Seq<Seq<char>>,
                    FFustError,
                >(argv.deep_view()),
                Err(e) => spec_plan(op, self.input(), self.output()) == Err::<
                    Seq<Seq<char>>,
                    FFustError,
                >(e),
            },
    {
        if !Self::has_extension(self.input_file.as_str()) || !Self::has_extension(
            self.output_file.as_str(),
        ) {
            Err(FFustError::InvalidFileExtension)
        } else {
            self.build_invocation(op)
        }
    }

    /// Classifies how one launch of the external transcoder ended.
    /// `termination` is what the launch reported: `Ok(code)` for a process
    /// that ran and terminated — with exit code `code`, or none when it was
    /// terminated without one — and `Err(description)` for a process that
    /// could not be started. Exactly a zero exit code is success; every
    /// other termination carries its exit code, and a failed launch carries
    /// the description, each under its own failure kind.
    pub fn classify_execution(termination: Result<Option<i32>, String>) -> (r: Result<
        (),
        FFustError,
    >)
        ensures
            match termination {
                Ok(code) => match r {
                    Ok(u) => code == Some(0i32),
                    Err(e) => code != Some(0i32) && e == FFustError::CommandExecutingError(
                        CommandFailure::ProcessFailed(code),
                    ),
                },
                Err(description) => r matches Err(FFustError::CommandExecutingError(
                    CommandFailure::LaunchFailed(d),
                )) && d@ == description@,
            },
    {
        match termination {
            Ok(code) => match code {
                Some(c) => if c == 0 {
                    Ok(())
                } else {
                    Err(FFustError::CommandExecutingError(CommandFailure::ProcessFailed(Some(c))))
                },
                None => Err(FFustError::CommandExecutingError(CommandFailure::ProcessFailed(None))),
            },
            Err(description) => Err(
                FFustError::CommandExecutingError(CommandFailure::LaunchFailed(description)),
            ),
        }
    }
}

} // verus!
