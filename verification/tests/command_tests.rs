//! The constructed invocations for the three operations, and the refusal
//! of requests whose paths carry no extension.

use ffust::FFust;
use ffust::FFustError;
use ffust::Operation;

fn argv_of(input: &str, output: &str, op: Operation) -> Vec<String> {
    FFust::new(input, output)
        .build_invocation(op)
        .expect("expected an invocation")
}

#[test]
fn extract_audio_invocation() {
    let argv = argv_of("song.mov", "song.mp3", Operation::ExtractAudio);
    assert_eq!(
        argv,
        vec![
            "ffmpeg".to_string(),
            "-i".to_string(),
            "song.mov".to_string(),
            "-vn".to_string(),
            "-acodec".to_string(),
            "libmp3lame".to_string(),
            "song.mp3".to_string(),
        ]
    );
}

#[test]
fn extract_audio_resolves_output_codec() {
    let argv = argv_of("take.mov", "take.OGG", Operation::ExtractAudio);
    assert_eq!(argv[4], "-acodec");
    assert_eq!(argv[5], "libvorbis");
}

#[test]
fn extract_audio_refuses_unsupported_output() {
    let r = FFust::new("song.mov", "song.mp4").build_invocation(Operation::ExtractAudio);
    assert!(matches!(r, Err(FFustError::UnsupportedAudioCodec)));
}

#[test]
fn compress_invocation() {
    let argv = argv_of("movie.mp4", "movie_small.mp4", Operation::Compress);
    assert_eq!(
        argv,
        vec![
            "ffmpeg".to_string(),
            "-i".to_string(),
            "movie.mp4".to_string(),
            "-c:v".to_string(),
            "libx265".to_string(),
            "-crf".to_string(),
            "23".to_string(),
            "-preset".to_string(),
            "medium".to_string(),
            "movie_small.mp4".to_string(),
        ]
    );
}

#[test]
fn compress_invocation_is_fixed_across_runs() {
    let first = argv_of("movie.mp4", "movie_small.mp4", Operation::Compress);
    let second = argv_of("movie.mp4", "movie_small.mp4", Operation::Compress);
    assert_eq!(first, second);
}

#[test]
fn convert_invocation() {
    let argv = argv_of("clip.avi", "clip.webm", Operation::Convert);
    assert_eq!(
        argv,
        vec![
            "ffmpeg".to_string(),
            "-i".to_string(),
            "clip.avi".to_string(),
            "clip.webm".to_string(),
        ]
    );
}

#[test]
fn plan_refuses_input_without_extension() {
    for op in [Operation::ExtractAudio, Operation::Compress, Operation::Convert] {
        let r = FFust::new("noext", "out.mp3").plan_invocation(op);
        assert!(matches!(r, Err(FFustError::InvalidFileExtension)));
    }
}

#[test]
fn plan_refuses_output_without_extension() {
    for op in [Operation::ExtractAudio, Operation::Compress, Operation::Convert] {
        let r = FFust::new("in.mp4", "noext").plan_invocation(op);
        assert!(matches!(r, Err(FFustError::InvalidFileExtension)));
    }
}

#[test]
fn plan_builds_when_both_paths_have_extensions() {
    let planned = FFust::new("clip.avi", "clip.webm")
        .plan_invocation(Operation::Convert)
        .expect("expected an invocation");
    assert_eq!(planned, argv_of("clip.avi", "clip.webm", Operation::Convert));
}

#[test]
fn operation_names_parse_to_their_variants() {
    assert_eq!(Operation::parse("get-audio"), Some(Operation::ExtractAudio));
    assert_eq!(Operation::parse("compress"), Some(Operation::Compress));
    assert_eq!(Operation::parse("convert"), Some(Operation::Convert));
}

#[test]
fn operation_names_outside_the_set_are_refused() {
    assert_eq!(Operation::parse(""), None);
    assert_eq!(Operation::parse("delete"), None);
    assert_eq!(Operation::parse("GET-AUDIO"), None);
    assert_eq!(Operation::parse("convert "), None);
}
