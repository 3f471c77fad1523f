use vstd::prelude::*;
use vstd::string::StrSliceExecFns;
use crate::args::Args;
use crate::args::PartialArgs;
use crate::args::opt_string_view;
use crate::schema::{
    ResolveError, OptId, lookup, is_flag, key_of, eq_val_of, eq_pos, apply_value, set_flag,
    fold_tokens, init_partial, finalize_spec, resolve_spec, views_of, parse_uint, is_digit,
    dec_val, all_digits, is_number_token, digits_end, ConfigModel, PartialModel,
    lemma_dec_val_prefix_le,
};

verus! {

/// Exact character-for-character comparison of a token against a name.
fn tok_is(t: &str, lit: &str) -> (r: bool)
    ensures
        r == (t@ == lit@),
{
    let a = t.to_owned();
    let b = lit.to_owned();
    a == b
}

/// The characters of a token, in order.
fn to_chars(s: &str) -> (r: Vec<char>)
    ensures
        r@ == s@,
{
    let n = s.unicode_len();
    let mut v: Vec<char> = Vec::new();
    let mut i: usize = 0;
    while i < n
        invariant
            0 <= i <= n,
            n as int == s@.len(),
            v@ == s@.subrange(0, i as int),
        decreases n - i,
    {
        let c = s.get_char(i);
        v.push(c);
        proof {
            assert(s@.subrange(0, i as int + 1) =~= s@.subrange(0, i as int) + seq![s@[i as int]]);
        }
        i += 1;
    }
    proof {
        assert(s@.subrange(0, n as int) =~= s@);
    }
    v
}

/// Splits a token at its first `=` into a key and an attached value.
fn split_eq(t: &String) -> (r: (String, Option<String>))
    ensures
        r.0@ == key_of(t@),
        opt_string_view(r.1) == eq_val_of(t@),
{
    let s = t.as_str();
    let n = s.unicode_len();
    let mut i: usize = 0;
    while i < n
        invariant
            0 <= i <= n,
            n as int == s@.len(),
            s@ == t@,
            eq_pos(t@, 0) == eq_pos(t@, i as int),
        decreases n - i,
    {
        let c = s.get_char(i);
        if c == '=' {
            proof {
                assert(eq_pos(t@, i as int) == i as int);
            }
            let key = s.substring_char(0, i).to_owned();
            let val = s.substring_char(i + 1, n).to_owned();
            return (key, Some(val));
        }
        proof {
            assert(eq_pos(t@, i as int) == eq_pos(t@, i as int + 1));
        }
        i += 1;
    }
    proof {
        assert(eq_pos(t@, n as int) == n as int);
        assert(key_of(t@) =~= t@);
    }
    (t.clone(), None)
}

/// Matches a key against the option table.
fn lookup_tok(key: &String) -> (r: Option<OptId>)
    ensures
        r == lookup(key@),
{
    let k = key.as_str();
    if tok_is(k, "-i") || tok_is(k, "--input") {
        Some(OptId::Input)
    } else if tok_is(k, "--temp-dir") {
        Some(OptId::TempDir)
    } else if tok_is(k, "-o") || tok_is(k, "--output") {
        Some(OptId::Output)
    } else if tok_is(k, "--concat") {
        Some(OptId::Concat)
    } else if tok_is(k, "-q") || tok_is(k, "--quiet") {
        Some(OptId::Quiet)
    } else if tok_is(k, "-l") || tok_is(k, "--log") {
        Some(OptId::Log)
    } else if tok_is(k, "-r") || tok_is(k, "--resume") {
        Some(OptId::Resume)
    } else if tok_is(k, "--keep") {
        Some(OptId::Keep)
    } else if tok_is(k, "-c") || tok_is(k, "--config") {
        Some(OptId::Config)
    } else if tok_is(k, "--webm") {
        Some(OptId::Webm)
    } else if tok_is(k, "-m") || tok_is(k, "--chunk-method") {
        Some(OptId::ChunkMethod)
    } else if tok_is(k, "-s") || tok_is(k, "--scenes") {
        Some(OptId::Scenes)
    } else if tok_is(k, "--split-method") {
        Some(OptId::SplitMethod)
    } else if tok_is(k, "-x") || tok_is(k, "--extra-split") {
        Some(OptId::ExtraSplit)
    } else if tok_is(k, "--threshold") {
        Some(OptId::Threshold)
    } else if tok_is(k, "--min-scene-len") {
        Some(OptId::MinSceneLen)
    } else if tok_is(k, "--reuse-first-pass") {
        Some(OptId::ReuseFirstPass)
    } else if tok_is(k, "-p") || tok_is(k, "--passes") {
        Some(OptId::Passes)
    } else if tok_is(k, "-v") || tok_is(k, "--video-params") {
        Some(OptId::VideoParams)
    } else if tok_is(k, "-e") || tok_is(k, "--encoder") {
        Some(OptId::Encoder)
    } else if tok_is(k, "-w") || tok_is(k, "--workers") {
        Some(OptId::Workers)
    } else if tok_is(k, "--no-check") {
        Some(OptId::NoCheck)
    } else if tok_is(k, "--force") {
        Some(OptId::Force)
    } else if tok_is(k, "-f") || tok_is(k, "--ffmpeg") {
        Some(OptId::Ffmpeg)
    } else if tok_is(k, "-a") || tok_is(k, "--audio-params") {
        Some(OptId::AudioParams)
    } else if tok_is(k, "--pix-format") {
        Some(OptId::PixFormat)
    } else if tok_is(k, "--vmaf") {
        Some(OptId::Vmaf)
    } else if tok_is(k, "--vmaf-path") {
        Some(OptId::VmafPath)
    } else if tok_is(k, "--vmaf-res") {
        Some(OptId::VmafRes)
    } else if tok_is(k, "--vmaf-threads") {
        Some(OptId::VmafThreads)
    } else if tok_is(k, "-t") || tok_is(k, "--target-quality") {
        Some(OptId::TargetQuality)
    } else if tok_is(k, "--target-quality-method") {
        Some(OptId::TargetQualityMethod)
    } else if tok_is(k, "--probes") {
        Some(OptId::Probes)
    } else if tok_is(k, "--min-q") {
        Some(OptId::MinQ)
    } else if tok_is(k, "--max-q") {
        Some(OptId::MaxQ)
    } else if tok_is(k, "--vmaf-plots") {
        Some(OptId::VmafPlots)
    } else if tok_is(k, "--probing-rate") {
        Some(OptId::ProbingRate)
    } else if tok_is(k, "--vmaf-filter") {
        Some(OptId::VmafFilter)
    } else {
        None
    }
}

fn opt_is_flag(o: OptId) -> (r: bool)
    ensures
        r == is_flag(o),
{
    match o {
        OptId::Quiet | OptId::Resume | OptId::Keep | OptId::Webm | OptId::ReuseFirstPass
            | OptId::NoCheck | OptId::Force | OptId::Vmaf | OptId::VmafPlots => true,
        _ => false,
    }
}

fn set_flag_exec(acc: &mut PartialArgs, o: OptId)
    ensures
        final(acc)@ == set_flag(old(acc)@, o),
{
    match o {
        OptId::Quiet => {
            acc.quiet = true;
        },
        OptId::Resume => {
            acc.resume = true;
        },
        OptId::Keep => {
            acc.keep = true;
        },
        OptId::Webm => {
            acc.webm = true;
        },
        OptId::ReuseFirstPass => {
            acc.reuse_first_pass = true;
        },
        OptId::NoCheck => {
            acc.no_check = true;
        },
        OptId::Force => {
            acc.force = true;
        },
        OptId::Vmaf => {
            acc.vmaf = true;
        },
        OptId::VmafPlots => {
            acc.vmaf_plots = true;
        },
        _ => {},
    }
}

/// Reads a non-negative decimal integer that fits in `usize`.
fn parse_usize_chars(cs: &Vec<char>) -> (r: Option<usize>)
    ensures
        match r {
            Some(n) => parse_uint(cs@, usize::MAX as int) == Some(n as int),
            None => parse_uint(cs@, usize::MAX as int) is None,
        },
{
    if cs.len() == 0 {
        return None;
    }
    let mut acc: usize = 0;
    let mut i: usize = 0;
    while i < cs.len()
        invariant
            0 <= i <= cs@.len(),
            forall|j: int| 0 <= j < i ==> is_digit(#[trigger] cs@[j]),
            acc as int == dec_val(cs@.subrange(0, i as int)),
        decreases cs@.len() - i,
    {
        let c = cs[i];
        let u = c as u32;
        if !(48 <= u && u <= 57) {
            proof {
                assert(!is_digit(cs@[i as int]));
                assert(!all_digits(cs@));
            }
            return None;
        }
        let d = (u - 48) as usize;
        proof {
            assert(cs@.subrange(0, i as int + 1).drop_last() =~= cs@.subrange(0, i as int));
            assert(cs@.subrange(0, i as int + 1).last() == cs@[i as int]);
            assert(dec_val(cs@.subrange(0, i as int + 1)) == acc as int * 10 + d as int);
        }
        let next = match acc.checked_mul(10) {
            Some(m) => m.checked_add(d),
            None => None,
        };
        match next {
            Some(m) => {
                acc = m;
            },
            None => {
                proof {
                    assert(dec_val(cs@.subrange(0, i as int + 1)) > usize::MAX as int);
                    if all_digits(cs@) {
                        lemma_dec_val_prefix_le(cs@, i as int + 1, cs@.len() as int);
                        assert(cs@.subrange(0, cs@.len() as int) =~= cs@);
                        assert(dec_val(cs@) > usize::MAX as int);
                    }
                }
                return None;
            },
        }
        i += 1;
    }
    proof {
        assert(cs@.subrange(0, cs@.len() as int) =~= cs@);
        assert(all_digits(cs@));
    }
    Some(acc)
}

/// Reads a non-negative decimal integer that fits in a byte.
fn parse_u8_chars(cs: &Vec<char>) -> (r: Option<u8>)
    ensures
        match r {
            Some(n) => parse_uint(cs@, 255) == Some(n as int),
            None => parse_uint(cs@, 255) is None,
        },
{
    match parse_usize_chars(cs) {
        Some(n) => {
            if n <= 255 {
                Some(n as u8)
            } else {
                None
            }
        },
        None => None,
    }
}

/// First index at or after `from` that does not hold a decimal digit.
fn digits_end_exec(cs: &Vec<char>, from: usize) -> (r: usize)
    requires
        from <= cs@.len(),
    ensures
        r as int == digits_end(cs@, from as int),
        from <= r <= cs@.len(),
{
    let mut i = from;
    while i < cs.len()
        invariant
            from <= i <= cs@.len(),
            digits_end(cs@, from as int) == digits_end(cs@, i as int),
        decreases cs@.len() - i,
    {
        let u = cs[i] as u32;
        if !(48 <= u && u <= 57) {
            proof {
                assert(digits_end(cs@, i as int) == i as int);
            }
            return i;
        }
        proof {
            assert(digits_end(cs@, i as int) == digits_end(cs@, i as int + 1));
        }
        i += 1;
    }
    i
}

/// Checks the interchange number syntax accepted for real-valued options.
fn is_number_chars(cs: &Vec<char>) -> (r: bool)
    ensures
        r == is_number_token(cs@),
{
    let n = cs.len();
    let p: usize = if n > 0 && cs[0] == '-' {
        1
    } else {
        0
    };
    if p >= n {
        return false;
    }
    let d = digits_end_exec(cs, p);
    if !(d > p) {
        return false;
    }
    if cs[p] == '0' && d > p + 1 {
        return false;
    }
    let mut q: usize = d;
    if d < n && cs[d] == '.' {
        let f = digits_end_exec(cs, d + 1);
        if !(f > d + 1) {
            return false;
        }
        q = f;
    }
    if q < n && (cs[q] == 'e' || cs[q] == 'E') {
        let t: usize = if q + 1 < n && (cs[q + 1] == '+' || cs[q + 1] == '-') {
            q + 2
        } else {
            q + 1
        };
        let e = digits_end_exec(cs, t);
        e > t && e == n
    } else {
        q == n
    }
}

/// Converts and stores one supplied value; `false` reports a rejected value.
#[verifier::rlimit(100)]
fn apply_exec(acc: &mut PartialArgs, o: OptId, v: &String) -> (ok: bool)
    ensures
        ok == (apply_value(old(acc)@, o, v@) is Some),
        ok ==> apply_value(old(acc)@, o, v@) == Some(final(acc)@),
{
    match o {
        OptId::Input => {
            acc.input = Some(v.clone());
            true
        },
        OptId::TempDir => {
            acc.temp_dir = Some(v.clone());
            true
        },
        OptId::Output => {
            acc.output = Some(v.clone());
            true
        },
        OptId::Concat => {
            if tok_is(v.as_str(), "ffmpeg") || tok_is(v.as_str(), "mkvmerge") || tok_is(
                v.as_str(),
                "ivf",
            ) {
                acc.concat = Some(v.clone());
                true
            } else {
                false
            }
        },
        OptId::Log => {
            acc.log = Some(v.clone());
            true
        },
        OptId::Config => {
            acc.config = Some(v.clone());
            true
        },
        OptId::ChunkMethod => {
            acc.chunk_method = Some(v.clone());
            true
        },
        OptId::Scenes => {
            acc.scenes = Some(v.clone());
            true
        },
        OptId::SplitMethod => {
            if tok_is(v.as_str(), "ffmpeg") || tok_is(v.as_str(), "pyscene") || tok_is(
                v.as_str(),
                "aom_keyframess",
            ) {
                acc.split_method = Some(v.clone());
                true
            } else {
                false
            }
        },
        OptId::ExtraSplit => {
            let cs = to_chars(v.as_str());
            match parse_usize_chars(&cs) {
                Some(n) => {
                    acc.extra_split = Some(n);
                    true
                },
                None => false,
            }
        },
        OptId::Threshold => {
            let cs = to_chars(v.as_str());
            if is_number_chars(&cs) {
                acc.threshold = Some(v.clone());
                true
            } else {
                false
            }
        },
        OptId::MinSceneLen => {
            let cs = to_chars(v.as_str());
            match parse_usize_chars(&cs) {
                Some(n) => {
                    acc.min_scene_len = Some(n);
                    true
                },
                None => false,
            }
        },
        OptId::Passes => {
            let cs = to_chars(v.as_str());
            match parse_u8_chars(&cs) {
                Some(n) => {
                    acc.passes = Some(n);
                    true
                },
                None => false,
            }
        },
        OptId::VideoParams => {
            acc.video_params = Some(v.clone());
            true
        },
        OptId::Encoder => {
            if tok_is(v.as_str(), "aom") || tok_is(v.as_str(), "rav1e") || tok_is(
                v.as_str(),
                "libvpx",
            ) || tok_is(v.as_str(), "svt-av1") || tok_is(v.as_str(), "svt-vp9") || tok_is(
                v.as_str(),
                "x264",
            ) || tok_is(v.as_str(), "x265") {
                acc.encoder = Some(v.clone());
                true
            } else {
                false
            }
        },
        OptId::Workers => {
            let cs = to_chars(v.as_str());
            match parse_usize_chars(&cs) {
                Some(n) => {
                    acc.workers = Some(n);
                    true
                },
                None => false,
            }
        },
        OptId::Ffmpeg => {
            acc.ffmpeg = Some(v.clone());
            true
        },
        OptId::AudioParams => {
            acc.audio_params = Some(v.clone());
            true
        },
        OptId::PixFormat => {
            acc.pix_format = Some(v.clone());
            true
        },
        OptId::VmafPath => {
            acc.vmaf_path = Some(v.clone());
            true
        },
        OptId::VmafRes => {
            acc.vmaf_res = Some(v.clone());
            true
        },
        OptId::VmafThreads => {
            let cs = to_chars(v.as_str());
            match parse_usize_chars(&cs) {
                Some(n) => {
                    acc.vmaf_threads = Some(n);
                    true
                },
                None => false,
            }
        },
        OptId::TargetQuality => {
            let cs = to_chars(v.as_str());
            if is_number_chars(&cs) {
                acc.target_quality = Some(v.clone());
                true
            } else {
                false
            }
        },
        OptId::TargetQualityMethod => {
            if tok_is(v.as_str(), "per_frame") || tok_is(v.as_str(), "per_shot") {
                acc.target_quality_method = Some(v.clone());
                true
            } else {
                false
            }
        },
        OptId::Probes => {
            let cs = to_chars(v.as_str());
            match parse_usize_chars(&cs) {
                Some(n) => {
                    acc.probes = Some(n);
                    true
                },
                None => false,
            }
        },
        OptId::MinQ => {
            let cs = to_chars(v.as_str());
            match parse_u8_chars(&cs) {
                Some(n) => {
                    acc.min_q = Some(n);
                    true
                },
                None => false,
            }
        },
        OptId::MaxQ => {
            let cs = to_chars(v.as_str());
            match parse_u8_chars(&cs) {
                Some(n) => {
                    acc.max_q = Some(n);
                    true
                },
                None => false,
            }
        },
        OptId::ProbingRate => {
            let cs = to_chars(v.as_str());
            match parse_usize_chars(&cs) {
                Some(n) => {
                    acc.probing_rate = Some(n);
                    true
                },
                None => false,
            }
        },
        OptId::VmafFilter => {
            acc.vmaf_filter = Some(v.clone());
            true
        },
        _ => false,
    }
}

/// A supplied string value, or the given default.
fn or_string(v: Option<String>, d: &str) -> (r: String)
    ensures
        r@ == crate::schema::or_str(opt_string_view(v), d@),
{
    match v {
        Some(s) => s,
        None => d.to_owned(),
    }
}

/// A supplied integer value, or the given default.
fn or_usize(v: Option<usize>, d: usize) -> (r: usize)
    ensures
        r as int == crate::schema::or_int(crate::args::opt_usize_view(v), d as int),
{
    match v {
        Some(n) => n,
        None => d,
    }
}

/// Applies the declared defaults to what one pass supplied; the absence
/// of `chunk_method` is the one failure left at this point.
#[verifier::rlimit(100)]
fn finalize_exec(p: PartialArgs) -> (r: Result<Args, ResolveError>)
    ensures
        match r {
            Ok(a) => finalize_spec(p@) == Ok::<ConfigModel, ResolveError>(a@),
            Err(e) => finalize_spec(p@) == Err::<ConfigModel, ResolveError>(e),
        },
{
    match p.chunk_method {
        None => Err(ResolveError::MissingRequiredValue),
        Some(cm) => {
            let concat = or_string(p.concat, "ffmpeg");
            let split_method = Some(or_string(p.split_method, "pyscene"));
            let extra_split = or_usize(p.extra_split, 240);
            let threshold = or_string(p.threshold, "35.0");
            let min_scene_len = or_usize(p.min_scene_len, 60);
            let encoder = or_string(p.encoder, "aom");
            let workers = or_usize(p.workers, 0);
            let ffmpeg = or_string(p.ffmpeg, "");
            let audio_params = or_string(p.audio_params, "-c:a copy");
            let pix_format = or_string(p.pix_format, "yuv420p10le");
            let vmaf_res = or_string(p.vmaf_res, "1920x1080");
            let target_quality_method = Some(or_string(p.target_quality_method, "per_shot"));
            let probes = or_usize(p.probes, 4);
            let probing_rate = or_usize(p.probing_rate, 4);
            let a = Args {
                input: p.input,
                temp_dir: p.temp_dir,
                output: p.output,
                concat,
                quiet: p.quiet,
                log: p.log,
                resume: p.resume,
                keep: p.keep,
                config: p.config,
                webm: p.webm,
                chunk_method: cm,
                scenes: p.scenes,
                split_method,
                extra_split,
                threshold,
                min_scene_len,
                reuse_first_pass: p.reuse_first_pass,
                passes: p.passes,
                video_params: p.video_params,
                encoder,
                workers,
                no_check: p.no_check,
                force: p.force,
                ffmpeg,
                audio_params,
                pix_format,
                vmaf: p.vmaf,
                vmaf_path: p.vmaf_path,
                vmaf_res,
                vmaf_threads: p.vmaf_threads,
                target_quality: p.target_quality,
                target_quality_method,
                probes,
                min_q: p.min_q,
                max_q: p.max_q,
                vmaf_plots: p.vmaf_plots,
                probing_rate,
                vmaf_filter: p.vmaf_filter,
            };
            Ok(a)
        },
    }
}

/// Turns an invocation's token list into a validated configuration, or
/// reports the first offending token: an unrecognized option, a value
/// that cannot be converted or sits outside its enumerated set, or a
/// missing required value.
pub fn resolve(tokens: &Vec<String>) -> (r: Result<Args, ResolveError>)
    ensures
        match r {
            Ok(a) => resolve_spec(views_of(tokens@)) == Ok::<ConfigModel, ResolveError>(a@),
            Err(e) => resolve_spec(views_of(tokens@)) == Err::<ConfigModel, ResolveError>(e),
        },
{
    let ghost tv = views_of(tokens@);
    let mut acc = PartialArgs::new();
    let n = tokens.len();
    let mut i: usize = 0;
    proof {
        assert(tv.skip(0) =~= tv);
    }
    while i < n
        invariant
            0 <= i <= n,
            n == tokens@.len(),
            tv == views_of(tokens@),
            tv.len() == n,
            fold_tokens(tv, init_partial()) == fold_tokens(tv.skip(i as int), acc@),
        decreases n - i,
    {
        proof {
            assert(tv[i as int] == tokens@[i as int]@);
            assert(tv.skip(i as int)[0] == tv[i as int]);
            assert(tv.skip(i as int).len() == n - i);
        }
        let t = &tokens[i];
        let (key, ev) = split_eq(t);
        match lookup_tok(&key) {
            None => {
                proof {
                    assert(fold_tokens(tv.skip(i as int), acc@) == Err::<
                        PartialModel,
                        ResolveError,
                    >(ResolveError::UnknownOption));
                }
                return Err(ResolveError::UnknownOption);
            },
            Some(o) => {
                if opt_is_flag(o) {
                    match ev {
                        Some(_) => {
                            proof {
                                assert(fold_tokens(tv.skip(i as int), acc@) == Err::<
                                    PartialModel,
                                    ResolveError,
                                >(ResolveError::InvalidValue));
                            }
                            return Err(ResolveError::InvalidValue);
                        },
                        None => {
                            set_flag_exec(&mut acc, o);
                            proof {
                                assert(tv.skip(i as int).skip(1) =~= tv.skip(i as int + 1));
                            }
                            i += 1;
                        },
                    }
                } else {
                    match ev {
                        Some(v) => {
                            if apply_exec(&mut acc, o, &v) {
                                proof {
                                    assert(tv.skip(i as int).skip(1) =~= tv.skip(i as int + 1));
                                }
                                i += 1;
                            } else {
                                proof {
                                    assert(fold_tokens(tv.skip(i as int), acc@) == Err::<
                                        PartialModel,
                                        ResolveError,
                                    >(ResolveError::InvalidValue));
                                }
                                return Err(ResolveError::InvalidValue);
                            }
                        },
                        None => {
                            if i + 1 >= n {
                                proof {
                                    assert(tv.skip(i as int).len() < 2);
                                    assert(fold_tokens(tv.skip(i as int), acc@) == Err::<
                                        PartialModel,
                                        ResolveError,
                                    >(ResolveError::MissingRequiredValue));
                                }
                                return Err(ResolveError::MissingRequiredValue);
                            }
                            proof {
                                assert(tv.skip(i as int)[1] == tv[i as int + 1]);
                                assert(tv[i as int + 1] == tokens@[i as int + 1]@);
                            }
                            let val = &tokens[i + 1];
                            if apply_exec(&mut acc, o, val) {
                                proof {
                                    assert(tv.skip(i as int).skip(2) =~= tv.skip(i as int + 2));
                                }
                                i += 2;
                            } else {
                                proof {
                                    assert(fold_tokens(tv.skip(i as int), acc@) == Err::<
                                        PartialModel,
                                        ResolveError,
                                    >(ResolveError::InvalidValue));
                                }
                                return Err(ResolveError::InvalidValue);
                            }
                        },
                    }
                }
            },
        }
    }
    proof {
        assert(tv.skip(n as int) =~= Seq::<Seq<char>>::empty());
        assert(fold_tokens(tv, init_partial()) == Ok::<PartialModel, ResolveError>(acc@));
    }
    finalize_exec(acc)
}

/// Resolves the schema's implicit defaults with no user input: this must
/// fail, because `chunk_method` has no declared default.
pub fn default_args() -> (r: Result<Args, ResolveError>)
    ensures
        r == Err::<Args, ResolveError>(ResolveError::MissingRequiredValue),
        resolve_spec(Seq::empty()) == Err::<ConfigModel, ResolveError>(
            ResolveError::MissingRequiredValue,
        ),
{
    let tokens: Vec<String> = Vec::new();
    let r = resolve(&tokens);
    proof {
        assert(views_of(tokens@) =~= Seq::<Seq<char>>::empty());
        assert(fold_tokens(Seq::<Seq<char>>::empty(), init_partial()) == Ok::<
            PartialModel,
            ResolveError,
        >(init_partial()));
        assert(finalize_spec(init_partial()) == Err::<ConfigModel, ResolveError>(
            ResolveError::MissingRequiredValue,
        ));
    }
    match r {
        Err(e) => Err(e),
        Ok(_) => Err(ResolveError::MissingRequiredValue),
    }
}

} // verus!
