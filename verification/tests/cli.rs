use av1an_cli::{default_args, resolve, Args, ResolveError};

fn toks(parts: &[&str]) -> Vec<String> {
    parts.iter().map(|p| p.to_string()).collect()
}

fn ok(parts: &[&str]) -> Args {
    resolve(&toks(parts)).unwrap()
}

fn err(parts: &[&str]) -> ResolveError {
    resolve(&toks(parts)).unwrap_err()
}

#[test]
fn example_invocation() {
    let a = ok(&["-i", "in.mkv", "-m", "hybrid", "-o", "out.mkv"]);
    assert_eq!(a.input.as_deref(), Some("in.mkv"));
    assert_eq!(a.chunk_method, "hybrid");
    assert_eq!(a.output.as_deref(), Some("out.mkv"));
    assert_eq!(a.concat, "ffmpeg");
    assert_eq!(a.encoder, "aom");
    assert_eq!(a.split_method.as_deref(), Some("pyscene"));
    assert_eq!(a.extra_split, 240);
    assert_eq!(a.threshold, "35.0");
    assert_eq!(a.min_scene_len, 60);
    assert_eq!(a.workers, 0);
    assert_eq!(a.ffmpeg, "");
    assert_eq!(a.audio_params, "-c:a copy");
    assert_eq!(a.pix_format, "yuv420p10le");
    assert_eq!(a.vmaf_res, "1920x1080");
    assert_eq!(a.target_quality_method.as_deref(), Some("per_shot"));
    assert_eq!(a.probes, 4);
    assert_eq!(a.probing_rate, 4);
    assert!(!a.quiet && !a.resume && !a.keep && !a.webm);
    assert!(!a.reuse_first_pass && !a.no_check && !a.force && !a.vmaf && !a.vmaf_plots);
    assert!(a.temp_dir.is_none());
    assert!(a.log.is_none());
    assert!(a.config.is_none());
    assert!(a.scenes.is_none());
    assert!(a.passes.is_none());
    assert!(a.video_params.is_none());
    assert!(a.vmaf_path.is_none());
    assert!(a.vmaf_threads.is_none());
    assert!(a.target_quality.is_none());
    assert!(a.min_q.is_none());
    assert!(a.max_q.is_none());
    assert!(a.vmaf_filter.is_none());
}

#[test]
fn omitting_chunk_method_fails() {
    assert_eq!(err(&["-i", "in.mkv"]), ResolveError::MissingRequiredValue);
    assert_eq!(err(&[]), ResolveError::MissingRequiredValue);
}

#[test]
fn option_without_its_value_fails() {
    assert_eq!(err(&["-m"]), ResolveError::MissingRequiredValue);
    assert_eq!(err(&["-m", "h", "--encoder"]), ResolveError::MissingRequiredValue);
}

#[test]
fn unknown_tokens_fail() {
    assert_eq!(err(&["--bogus"]), ResolveError::UnknownOption);
    assert_eq!(err(&["stray", "-m", "h"]), ResolveError::UnknownOption);
    assert_eq!(err(&["-m", "h", "--input=x=y", "-z"]), ResolveError::UnknownOption);
}

#[test]
fn enum_value_outside_set_fails() {
    assert_eq!(err(&["-m", "h", "--encoder", "copy"]), ResolveError::InvalidValue);
    assert_eq!(err(&["--concat", "tar", "-m", "h"]), ResolveError::InvalidValue);
    assert_eq!(err(&["--split-method", "magic", "-m", "h"]), ResolveError::InvalidValue);
    assert_eq!(err(&["--target-quality-method", "per_title", "-m", "h"]), ResolveError::InvalidValue);
    // membership is case-sensitive and exact
    assert_eq!(err(&["-m", "h", "-e", "AOM"]), ResolveError::InvalidValue);
    assert_eq!(err(&["-m", "h", "-e", "aom "]), ResolveError::InvalidValue);
}

#[test]
fn enum_values_in_set_are_reproduced() {
    for v in ["ffmpeg", "mkvmerge", "ivf"] {
        let a = ok(&["-m", "h", "--concat", v]);
        assert_eq!(a.concat, v);
        assert!(a.serialize().contains(&format!("\"concat\":\"{}\"", v)));
    }
    for v in ["aom", "rav1e", "libvpx", "svt-av1", "svt-vp9", "x264", "x265"] {
        let a = ok(&["-m", "h", "-e", v]);
        assert_eq!(a.encoder, v);
        assert!(a.serialize().contains(&format!("\"encoder\":\"{}\"", v)));
    }
    for v in ["ffmpeg", "pyscene", "aom_keyframess"] {
        let a = ok(&["-m", "h", "--split-method", v]);
        assert_eq!(a.split_method.as_deref(), Some(v));
    }
    for v in ["per_frame", "per_shot"] {
        let a = ok(&["-m", "h", "--target-quality-method", v]);
        assert_eq!(a.target_quality_method.as_deref(), Some(v));
    }
}

#[test]
fn defaults_document() {
    let a = ok(&["-m", "hybrid"]);
    let mut expected = String::new();
    expected.push_str("{\"input\":null,\"temp_dir\":null,\"output\":null,\"concat\":\"ffmpeg\",");
    expected.push_str("\"quiet\":false,\"log\":null,\"resume\":false,\"keep\":false,\"config\":null,");
    expected.push_str("\"webm\":false,\"chunk_method\":\"hybrid\",\"scenes\":null,");
    expected.push_str("\"split_method\":\"pyscene\",\"extra_split\":240,\"threshold\":35.0,");
    expected.push_str("\"min_scene_len\":60,\"reuse_first_pass\":false,\"passes\":null,");
    expected.push_str("\"video_params\":null,\"encoder\":\"aom\",\"workers\":0,\"no_check\":false,");
    expected.push_str("\"force\":false,\"ffmpeg\":\"\",\"audio_params\":\"-c:a copy\",");
    expected.push_str("\"pix_format\":\"yuv420p10le\",\"vmaf\":false,\"vmaf_path\":null,");
    expected.push_str("\"vmaf_res\":\"1920x1080\",\"vmaf_threads\":null,\"target_quality\":null,");
    expected.push_str("\"target_quality_method\":\"per_shot\",\"probes\":4,\"min_q\":null,");
    expected.push_str("\"max_q\":null,\"vmaf_plots\":false,\"probing_rate\":4,\"vmaf_filter\":null}");
    assert_eq!(a.serialize(), expected);
}

#[test]
fn default_args_requires_chunk_method() {
    assert_eq!(default_args().unwrap_err(), ResolveError::MissingRequiredValue);
}

#[test]
fn serialization_is_deterministic() {
    let a = ok(&["-m", "h", "-i", "x.mkv", "--passes", "2", "-t", "95.5"]);
    assert_eq!(a.serialize(), a.serialize());
    let b = ok(&["-m", "h", "-i", "x.mkv", "--passes", "2", "-t", "95.5"]);
    assert_eq!(a.serialize(), b.serialize());
}

#[test]
fn unset_is_not_conflated_with_empty() {
    let unset = ok(&["-m", "h"]);
    let empty = ok(&["-m", "h", "-i", ""]);
    assert!(unset.serialize().contains("\"input\":null"));
    assert!(empty.serialize().contains("\"input\":\"\""));
    assert_ne!(unset.serialize(), empty.serialize());
    let zero = ok(&["-m", "h", "--vmaf-threads", "0"]);
    assert!(zero.serialize().contains("\"vmaf_threads\":0"));
    assert_ne!(unset.serialize(), zero.serialize());
}

#[test]
fn eq_joined_values() {
    let a = ok(&["--encoder=rav1e", "-m=x", "--threshold=20.5", "-i=a=b"]);
    assert_eq!(a.encoder, "rav1e");
    assert_eq!(a.chunk_method, "x");
    assert_eq!(a.threshold, "20.5");
    // only the first `=` splits; the rest belongs to the value
    assert_eq!(a.input.as_deref(), Some("a=b"));
}

#[test]
fn numeric_options() {
    let a = ok(&[
        "-m", "h", "-x", "100", "--min-scene-len", "12", "-w", "3", "--probes", "7",
        "--probing-rate", "2", "--vmaf-threads", "8", "-p", "2", "--min-q", "20", "--max-q", "40",
    ]);
    assert_eq!(a.extra_split, 100);
    assert_eq!(a.min_scene_len, 12);
    assert_eq!(a.workers, 3);
    assert_eq!(a.probes, 7);
    assert_eq!(a.probing_rate, 2);
    assert_eq!(a.vmaf_threads, Some(8));
    assert_eq!(a.passes, Some(2));
    assert_eq!(a.min_q, Some(20));
    assert_eq!(a.max_q, Some(40));
    assert_eq!(err(&["-m", "h", "-x", "abc"]), ResolveError::InvalidValue);
    assert_eq!(err(&["-m", "h", "-x", ""]), ResolveError::InvalidValue);
    assert_eq!(err(&["-m", "h", "-x", "-3"]), ResolveError::InvalidValue);
    assert_eq!(err(&["-m", "h", "-p", "256"]), ResolveError::InvalidValue);
    assert_eq!(err(&["-m", "h", "--min-q", "999"]), ResolveError::InvalidValue);
    assert_eq!(err(&["-m", "h", "-x", "99999999999999999999999999"]), ResolveError::InvalidValue);
}

#[test]
fn byte_values_in_range() {
    let a = ok(&["-m", "h", "-p", "255"]);
    assert_eq!(a.passes, Some(255));
    assert!(a.serialize().contains("\"passes\":255"));
}

#[test]
fn flags_take_no_value() {
    let a = ok(&[
        "-m", "h", "-q", "-r", "--keep", "--webm", "--reuse-first-pass", "--no-check", "--force",
        "--vmaf", "--vmaf-plots",
    ]);
    assert!(a.quiet && a.resume && a.keep && a.webm && a.reuse_first_pass);
    assert!(a.no_check && a.force && a.vmaf && a.vmaf_plots);
    assert_eq!(err(&["-m", "h", "--quiet=yes"]), ResolveError::InvalidValue);
}

#[test]
fn threshold_syntax() {
    for v in ["35", "0.5", "-2", "-2.25", "1e3", "2.5e-1", "0", "10E+2"] {
        let a = ok(&["-m", "h", "--threshold", v]);
        assert_eq!(a.threshold, v);
        let doc = a.serialize();
        assert!(doc.contains(&format!("\"threshold\":{},", v)));
    }
    for v in ["", "00.5", "1.", ".5", "e3", "nan", "inf", "+5", "1.2.3", "2e", "2e+"] {
        assert_eq!(err(&["-m", "h", "--threshold", v]), ResolveError::InvalidValue, "{}", v);
    }
    let a = ok(&["-m", "h", "-t", "95.25"]);
    assert_eq!(a.target_quality.as_deref(), Some("95.25"));
    assert!(a.serialize().contains("\"target_quality\":95.25,"));
}

#[test]
fn strings_are_escaped_in_the_document() {
    let a = ok(&["-m", "h", "-i", "a\"b\\c", "-v", "x\ny"]);
    let doc = a.serialize();
    assert!(doc.contains("\"input\":\"a\\\"b\\\\c\""));
    assert!(doc.contains("\"video_params\":\"x\\u000ay\""));
}

#[test]
fn later_occurrence_wins() {
    let a = ok(&["-m", "first", "--chunk-method", "second"]);
    assert_eq!(a.chunk_method, "second");
}

#[test]
fn short_names_map_to_their_options() {
    let a = ok(&[
        "-i", "in", "-o", "out", "-q", "-l", "logfile", "-r", "-c", "conf.toml", "-m", "hy", "-s",
        "sc.json", "-x", "9", "-p", "1", "-v", "--cpu-used=4", "-e", "x264", "-w", "2", "-f",
        "-vf scale", "-a", "-c:a opus", "-t", "80",
    ]);
    assert_eq!(a.input.as_deref(), Some("in"));
    assert_eq!(a.output.as_deref(), Some("out"));
    assert!(a.quiet);
    assert_eq!(a.log.as_deref(), Some("logfile"));
    assert!(a.resume);
    assert_eq!(a.config.as_deref(), Some("conf.toml"));
    assert_eq!(a.chunk_method, "hy");
    assert_eq!(a.scenes.as_deref(), Some("sc.json"));
    assert_eq!(a.extra_split, 9);
    assert_eq!(a.passes, Some(1));
    assert_eq!(a.video_params.as_deref(), Some("--cpu-used=4"));
    assert_eq!(a.encoder, "x264");
    assert_eq!(a.workers, 2);
    assert_eq!(a.ffmpeg, "-vf scale");
    assert_eq!(a.audio_params, "-c:a opus");
    assert_eq!(a.target_quality.as_deref(), Some("80"));
}

#[test]
fn values_looking_like_options_are_consumed() {
    // the token after a value-bearing option is its value, whatever it looks like
    let a = ok(&["-m", "-q", "-i", "--vmaf"]);
    assert_eq!(a.chunk_method, "-q");
    assert_eq!(a.input.as_deref(), Some("--vmaf"));
    assert!(!a.quiet);
    assert!(!a.vmaf);
}

#[test]
fn q_range_check_is_separate() {
    // contradictory bounds still resolve; the named check reports them
    let a = ok(&["-m", "h", "--min-q", "50", "--max-q", "20"]);
    assert!(!a.q_range_consistent());
    let b = ok(&["-m", "h", "--min-q", "20", "--max-q", "50"]);
    assert!(b.q_range_consistent());
    let c = ok(&["-m", "h", "--min-q", "20"]);
    assert!(c.q_range_consistent());
}

#[test]
fn all_enums_supplied_together() {
    let a = ok(&[
        "-m", "h", "--concat", "mkvmerge", "--split-method", "ffmpeg", "-e", "svt-av1",
        "--target-quality-method", "per_frame",
    ]);
    let doc = a.serialize();
    assert!(doc.contains("\"concat\":\"mkvmerge\""));
    assert!(doc.contains("\"split_method\":\"ffmpeg\""));
    assert!(doc.contains("\"encoder\":\"svt-av1\""));
    assert!(doc.contains("\"target_quality_method\":\"per_frame\""));
}

#[test]
fn fully_supplied_document_has_no_marker() {
    let a = ok(&[
        "-m", "h", "-i", "in", "--temp-dir", "tmp", "-o", "out", "-l", "log", "-c", "conf", "-s",
        "sc", "-p", "2", "-v", "vp", "--vmaf-path", "mp", "--vmaf-threads", "4", "-t", "88",
        "--min-q", "10", "--max-q", "50", "--vmaf-filter", "crop",
    ]);
    assert!(!a.serialize().contains("null"));
}

#[test]
fn paths_are_passed_through() {
    let a = ok(&["-m", "h", "--temp-dir", "/tmp/enc", "--vmaf-path", "model.pkl", "--scenes", "s.json",
        "--config", "c.toml", "--vmaf-res", "1280x720", "--vmaf-filter", "crop=10", "--log", "x.log"]);
    assert_eq!(a.temp_dir.as_deref(), Some("/tmp/enc"));
    assert_eq!(a.vmaf_path.as_deref(), Some("model.pkl"));
    assert_eq!(a.scenes.as_deref(), Some("s.json"));
    assert_eq!(a.config.as_deref(), Some("c.toml"));
    assert_eq!(a.vmaf_res, "1280x720");
    assert_eq!(a.vmaf_filter.as_deref(), Some("crop=10"));
    assert_eq!(a.log.as_deref(), Some("x.log"));
}
