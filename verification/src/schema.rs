use vstd::prelude::*;

verus! {

/// Why resolution of a token sequence failed.
#[derive(Clone, Copy, Debug, PartialEq, Eq, Structural)]
pub enum ResolveError {
    /// A token was not recognized as any declared option.
    UnknownOption,
    /// A supplied value could not be converted to the declared type,
    /// or fell outside an enumerated value set.
    InvalidValue,
    /// A value-bearing option without a default was absent, or an option
    /// expecting a value received none.
    MissingRequiredValue,
}

/// Identity of a declared option in the schema's table.
#[derive(Clone, Copy, Debug)]
pub enum OptId {
    Input,
    TempDir,
    Output,
    Concat,
    Quiet,
    Log,
    Resume,
    Keep,
    Config,
    Webm,
    ChunkMethod,
    Scenes,
    SplitMethod,
    ExtraSplit,
    Threshold,
    MinSceneLen,
    ReuseFirstPass,
    Passes,
    VideoParams,
    Encoder,
    Workers,
    NoCheck,
    Force,
    Ffmpeg,
    AudioParams,
    PixFormat,
    Vmaf,
    VmafPath,
    VmafRes,
    VmafThreads,
    TargetQuality,
    TargetQualityMethod,
    Probes,
    MinQ,
    MaxQ,
    VmafPlots,
    ProbingRate,
    VmafFilter,
}

// ---------------------------------------------------------------------------
// Characters and decimal numbers
// ---------------------------------------------------------------------------

pub open spec fn is_digit(c: char) -> bool {
    48 <= c as u32 && c as u32 <= 57
}

pub open spec fn digit_val(c: char) -> int {
    c as u32 - 48
}

pub open spec fn all_digits(s: Seq<char>) -> bool {
    forall|i: int| 0 <= i < s.len() ==> is_digit(#[trigger] s[i])
}

/// Numeric value of a sequence of decimal digits, most significant first.
pub open spec fn dec_val(s: Seq<char>) -> int
    decreases s.len(),
{
    if s.len() == 0 {
        0
    } else {
        dec_val(s.drop_last()) * 10 + digit_val(s.last())
    }
}

/// A non-empty all-digit sequence whose value fits below `max` parses to
/// that value; anything else is rejected.
pub open spec fn parse_uint(s: Seq<char>, max: int) -> Option<int> {
    if s.len() > 0 && all_digits(s) && 0 <= dec_val(s) <= max {
        Some(dec_val(s))
    } else {
        None
    }
}

proof fn lemma_all_digits_prefix(s: Seq<char>, j: int)
    requires
        all_digits(s),
        0 <= j <= s.len(),
    ensures
        all_digits(s.subrange(0, j)),
{
    assert forall|k: int| 0 <= k < s.subrange(0, j).len() implies is_digit(
        #[trigger] s.subrange(0, j)[k],
    ) by {
        assert(s.subrange(0, j)[k] == s[k]);
    }
}

proof fn lemma_dec_val_nonneg(s: Seq<char>)
    requires
        all_digits(s),
    ensures
        dec_val(s) >= 0,
    decreases s.len(),
{
    if s.len() > 0 {
        assert forall|k: int| 0 <= k < s.drop_last().len() implies is_digit(
            #[trigger] s.drop_last()[k],
        ) by {
            assert(s.drop_last()[k] == s[k]);
        }
        lemma_dec_val_nonneg(s.drop_last());
        assert(is_digit(s[s.len() - 1]));
    }
}

/// A longer digit prefix never has a smaller value.
pub proof fn lemma_dec_val_prefix_le(s: Seq<char>, i: int, j: int)
    requires
        all_digits(s),
        0 <= i <= j <= s.len(),
    ensures
        dec_val(s.subrange(0, i)) <= dec_val(s.subrange(0, j)),
    decreases j - i,
{
    if i < j {
        lemma_dec_val_prefix_le(s, i, j - 1);
        let pre = s.subrange(0, j);
        assert(pre.drop_last() =~= s.subrange(0, j - 1));
        assert(pre.last() == s[j - 1]);
        assert(is_digit(s[j - 1]));
        lemma_all_digits_prefix(s, j - 1);
        lemma_dec_val_nonneg(s.subrange(0, j - 1));
    }
}

/// First index at or after `i` that does not hold a decimal digit.
pub open spec fn digits_end(s: Seq<char>, i: int) -> int
    decreases s.len() - i,
    when 0 <= i <= s.len()
{
    if i < s.len() && is_digit(s[i]) {
        digits_end(s, i + 1)
    } else {
        i
    }
}

/// The textual form accepted for the two real-valued options: a decimal
/// number in interchange syntax (optional minus, integer part without a
/// superfluous leading zero, optional fraction, optional exponent), so
/// that the value can stand verbatim as a number in the output document.
pub open spec fn is_number_token(s: Seq<char>) -> bool {
    let p: int = if s.len() > 0 && s[0] == '-' {
        1
    } else {
        0
    };
    if p >= s.len() {
        false
    } else {
        let d = digits_end(s, p);
        if !(d > p) {
            false
        } else if s[p] == '0' && d > p + 1 {
            false
        } else {
            let frac_ok: bool = if d < s.len() && s[d] == '.' {
                digits_end(s, d + 1) > d + 1
            } else {
                true
            };
            let q: int = if d < s.len() && s[d] == '.' {
                digits_end(s, d + 1)
            } else {
                d
            };
            if !frac_ok {
                false
            } else {
                let exp_ok: bool = if q < s.len() && (s[q] == 'e' || s[q] == 'E') {
                    let t: int = if q + 1 < s.len() && (s[q + 1] == '+' || s[q + 1] == '-') {
                        q + 2
                    } else {
                        q + 1
                    };
                    digits_end(s, t) > t && digits_end(s, t) == s.len()
                } else {
                    q == s.len()
                };
                exp_ok
            }
        }
    }
}

// ---------------------------------------------------------------------------
// Token shape: key and `=`-joined value
// ---------------------------------------------------------------------------

/// Index of the first `=` at or after `i`, or the length if there is none.
pub open spec fn eq_pos(s: Seq<char>, i: int) -> int
    decreases s.len() - i,
    when 0 <= i <= s.len()
{
    if i < s.len() {
        if s[i] == '=' {
            i
        } else {
            eq_pos(s, i + 1)
        }
    } else {
        i
    }
}

/// The part of a token before its first `=`, or the whole token.
pub open spec fn key_of(t: Seq<char>) -> Seq<char> {
    t.subrange(0, eq_pos(t, 0))
}

/// The part of a token after its first `=`, if any.
pub open spec fn eq_val_of(t: Seq<char>) -> Option<Seq<char>> {
    if eq_pos(t, 0) < t.len() {
        Some(t.subrange(eq_pos(t, 0) + 1, t.len() as int))
    } else {
        None
    }
}

// ---------------------------------------------------------------------------
// The option table
// ---------------------------------------------------------------------------

/// Matches a key against every declared short and long option name.
pub open spec fn lookup(k: Seq<char>) -> Option<OptId> {
    if k == "-i"@ || k == "--input"@ {
        Some(OptId::Input)
    } else if k == "--temp-dir"@ {
        Some(OptId::TempDir)
    } else if k == "-o"@ || k == "--output"@ {
        Some(OptId::Output)
    } else if k == "--concat"@ {
        Some(OptId::Concat)
    } else if k == "-q"@ || k == "--quiet"@ {
        Some(OptId::Quiet)
    } else if k == "-l"@ || k == "--log"@ {
        Some(OptId::Log)
    } else if k == "-r"@ || k == "--resume"@ {
        Some(OptId::Resume)
    } else if k == "--keep"@ {
        Some(OptId::Keep)
    } else if k == "-c"@ || k == "--config"@ {
        Some(OptId::Config)
    } else if k == "--webm"@ {
        Some(OptId::Webm)
    } else if k == "-m"@ || k == "--chunk-method"@ {
        Some(OptId::ChunkMethod)
    } else if k == "-s"@ || k == "--scenes"@ {
        Some(OptId::Scenes)
    } else if k == "--split-method"@ {
        Some(OptId::SplitMethod)
    } else if k == "-x"@ || k == "--extra-split"@ {
        Some(OptId::ExtraSplit)
    } else if k == "--threshold"@ {
        Some(OptId::Threshold)
    } else if k == "--min-scene-len"@ {
        Some(OptId::MinSceneLen)
    } else if k == "--reuse-first-pass"@ {
        Some(OptId::ReuseFirstPass)
    } else if k == "-p"@ || k == "--passes"@ {
        Some(OptId::Passes)
    } else if k == "-v"@ || k == "--video-params"@ {
        Some(OptId::VideoParams)
    } else if k == "-e"@ || k == "--encoder"@ {
        Some(OptId::Encoder)
    } else if k == "-w"@ || k == "--workers"@ {
        Some(OptId::Workers)
    } else if k == "--no-check"@ {
        Some(OptId::NoCheck)
    } else if k == "--force"@ {
        Some(OptId::Force)
    } else if k == "-f"@ || k == "--ffmpeg"@ {
        Some(OptId::Ffmpeg)
    } else if k == "-a"@ || k == "--audio-params"@ {
        Some(OptId::AudioParams)
    } else if k == "--pix-format"@ {
        Some(OptId::PixFormat)
    } else if k == "--vmaf"@ {
        Some(OptId::Vmaf)
    } else if k == "--vmaf-path"@ {
        Some(OptId::VmafPath)
    } else if k == "--vmaf-res"@ {
        Some(OptId::VmafRes)
    } else if k == "--vmaf-threads"@ {
        Some(OptId::VmafThreads)
    } else if k == "-t"@ || k == "--target-quality"@ {
        Some(OptId::TargetQuality)
    } else if k == "--target-quality-method"@ {
        Some(OptId::TargetQualityMethod)
    } else if k == "--probes"@ {
        Some(OptId::Probes)
    } else if k == "--min-q"@ {
        Some(OptId::MinQ)
    } else if k == "--max-q"@ {
        Some(OptId::MaxQ)
    } else if k == "--vmaf-plots"@ {
        Some(OptId::VmafPlots)
    } else if k == "--probing-rate"@ {
        Some(OptId::ProbingRate)
    } else if k == "--vmaf-filter"@ {
        Some(OptId::VmafFilter)
    } else {
        None
    }
}

/// Presence flags take no value.
pub open spec fn is_flag(o: OptId) -> bool {
    match o {
        OptId::Quiet => true,
        OptId::Resume => true,
        OptId::Keep => true,
        OptId::Webm => true,
        OptId::ReuseFirstPass => true,
        OptId::NoCheck => true,
        OptId::Force => true,
        OptId::Vmaf => true,
        OptId::VmafPlots => true,
        _ => false,
    }
}

// Enumerated value sets.

pub open spec fn concat_ok(v: Seq<char>) -> bool {
    v == "ffmpeg"@ || v == "mkvmerge"@ || v == "ivf"@
}

pub open spec fn split_method_ok(v: Seq<char>) -> bool {
    v == "ffmpeg"@ || v == "pyscene"@ || v == "aom_keyframess"@
}

pub open spec fn encoder_ok(v: Seq<char>) -> bool {
    v == "aom"@ || v == "rav1e"@ || v == "libvpx"@ || v == "svt-av1"@ || v == "svt-vp9"@
        || v == "x264"@ || v == "x265"@
}

pub open spec fn target_quality_method_ok(v: Seq<char>) -> bool {
    v == "per_frame"@ || v == "per_shot"@
}

// ---------------------------------------------------------------------------
// Partially resolved configuration
// ---------------------------------------------------------------------------

/// What has been supplied so far while walking the token list: each
/// value-bearing option is either still unsupplied or holds a validated
/// value; each flag is a plain boolean.
pub ghost struct PartialModel {
    pub input: Option<Seq<char>>,
    pub temp_dir: Option<Seq<char>>,
    pub output: Option<Seq<char>>,
    pub concat: Option<Seq<char>>,
    pub quiet: bool,
    pub log: Option<Seq<char>>,
    pub resume: bool,
    pub keep: bool,
    pub config: Option<Seq<char>>,
    pub webm: bool,
    pub chunk_method: Option<Seq<char>>,
    pub scenes: Option<Seq<char>>,
    pub split_method: Option<Seq<char>>,
    pub extra_split: Option<int>,
    pub threshold: Option<Seq<char>>,
    pub min_scene_len: Option<int>,
    pub reuse_first_pass: bool,
    pub passes: Option<int>,
    pub video_params: Option<Seq<char>>,
    pub encoder: Option<Seq<char>>,
    pub workers: Option<int>,
    pub no_check: bool,
    pub force: bool,
    pub ffmpeg: Option<Seq<char>>,
    pub audio_params: Option<Seq<char>>,
    pub pix_format: Option<Seq<char>>,
    pub vmaf: bool,
    pub vmaf_path: Option<Seq<char>>,
    pub vmaf_res: Option<Seq<char>>,
    pub vmaf_threads: Option<int>,
    pub target_quality: Option<Seq<char>>,
    pub target_quality_method: Option<Seq<char>>,
    pub probes: Option<int>,
    pub min_q: Option<int>,
    pub max_q: Option<int>,
    pub vmaf_plots: bool,
    pub probing_rate: Option<int>,
    pub vmaf_filter: Option<Seq<char>>,
}

/// Nothing supplied yet.
pub open spec fn init_partial() -> PartialModel {
    PartialModel {
        input: None,
        temp_dir: None,
        output: None,
        concat: None,
        quiet: false,
        log: None,
        resume: false,
        keep: false,
        config: None,
        webm: false,
        chunk_method: None,
        scenes: None,
        split_method: None,
        extra_split: None,
        threshold: None,
        min_scene_len: None,
        reuse_first_pass: false,
        passes: None,
        video_params: None,
        encoder: None,
        workers: None,
        no_check: false,
        force: false,
        ffmpeg: None,
        audio_params: None,
        pix_format: None,
        vmaf: false,
        vmaf_path: None,
        vmaf_res: None,
        vmaf_threads: None,
        target_quality: None,
        target_quality_method: None,
        probes: None,
        min_q: None,
        max_q: None,
        vmaf_plots: false,
        probing_rate: None,
        vmaf_filter: None,
    }
}

pub open spec fn set_flag(p: PartialModel, o: OptId) -> PartialModel {
    match o {
        OptId::Quiet => PartialModel { quiet: true, ..p },
        OptId::Resume => PartialModel { resume: true, ..p },
        OptId::Keep => PartialModel { keep: true, ..p },
        OptId::Webm => PartialModel { webm: true, ..p },
        OptId::ReuseFirstPass => PartialModel { reuse_first_pass: true, ..p },
        OptId::NoCheck => PartialModel { no_check: true, ..p },
        OptId::Force => PartialModel { force: true, ..p },
        OptId::Vmaf => PartialModel { vmaf: true, ..p },
        OptId::VmafPlots => PartialModel { vmaf_plots: true, ..p },
        _ => p,
    }
}

/// Converts and validates a supplied value for one value-bearing option;
/// `None` means the value is rejected. Flags reject any value.
pub open spec fn apply_value(p: PartialModel, o: OptId, v: Seq<char>) -> Option<PartialModel> {
    match o {
        OptId::Input => Some(PartialModel { input: Some(v), ..p }),
        OptId::TempDir => Some(PartialModel { temp_dir: Some(v), ..p }),
        OptId::Output => Some(PartialModel { output: Some(v), ..p }),
        OptId::Concat => if concat_ok(v) {
            Some(PartialModel { concat: Some(v), ..p })
        } else {
            None
        },
        OptId::Log => Some(PartialModel { log: Some(v), ..p }),
        OptId::Config => Some(PartialModel { config: Some(v), ..p }),
        OptId::ChunkMethod => Some(PartialModel { chunk_method: Some(v), ..p }),
        OptId::Scenes => Some(PartialModel { scenes: Some(v), ..p }),
        OptId::SplitMethod => if split_method_ok(v) {
            Some(PartialModel { split_method: Some(v), ..p })
        } else {
            None
        },
        OptId::ExtraSplit => match parse_uint(v, usize::MAX as int) {
            Some(n) => Some(PartialModel { extra_split: Some(n), ..p }),
            None => None,
        },
        OptId::Threshold => if is_number_token(v) {
            Some(PartialModel { threshold: Some(v), ..p })
        } else {
            None
        },
        OptId::MinSceneLen => match parse_uint(v, usize::MAX as int) {
            Some(n) => Some(PartialModel { min_scene_len: Some(n), ..p }),
            None => None,
        },
        OptId::Passes => match parse_uint(v, 255) {
            Some(n) => Some(PartialModel { passes: Some(n), ..p }),
            None => None,
        },
        OptId::VideoParams => Some(PartialModel { video_params: Some(v), ..p }),
        OptId::Encoder => if encoder_ok(v) {
            Some(PartialModel { encoder: Some(v), ..p })
        } else {
            None
        },
        OptId::Workers => match parse_uint(v, usize::MAX as int) {
            Some(n) => Some(PartialModel { workers: Some(n), ..p }),
            None => None,
        },
        OptId::Ffmpeg => Some(PartialModel { ffmpeg: Some(v), ..p }),
        OptId::AudioParams => Some(PartialModel { audio_params: Some(v), ..p }),
        OptId::PixFormat => Some(PartialModel { pix_format: Some(v), ..p }),
        OptId::VmafPath => Some(PartialModel { vmaf_path: Some(v), ..p }),
        OptId::VmafRes => Some(PartialModel { vmaf_res: Some(v), ..p }),
        OptId::VmafThreads => match parse_uint(v, usize::MAX as int) {
            Some(n) => Some(PartialModel { vmaf_threads: Some(n), ..p }),
            None => None,
        },
        OptId::TargetQuality => if is_number_token(v) {
            Some(PartialModel { target_quality: Some(v), ..p })
        } else {
            None
        },
        OptId::TargetQualityMethod => if target_quality_method_ok(v) {
            Some(PartialModel { target_quality_method: Some(v), ..p })
        } else {
            None
        },
        OptId::Probes => match parse_uint(v, usize::MAX as int) {
            Some(n) => Some(PartialModel { probes: Some(n), ..p }),
            None => None,
        },
        OptId::MinQ => match parse_uint(v, 255) {
            Some(n) => Some(PartialModel { min_q: Some(n), ..p }),
            None => None,
        },
        OptId::MaxQ => match parse_uint(v, 255) {
            Some(n) => Some(PartialModel { max_q: Some(n), ..p }),
            None => None,
        },
        OptId::ProbingRate => match parse_uint(v, usize::MAX as int) {
            Some(n) => Some(PartialModel { probing_rate: Some(n), ..p }),
            None => None,
        },
        OptId::VmafFilter => Some(PartialModel { vmaf_filter: Some(v), ..p }),
        _ => None,
    }
}

// ---------------------------------------------------------------------------
// The resolution pass
// ---------------------------------------------------------------------------

/// One left-to-right pass over the tokens: a flag consumes its own token
/// only; any other recognized option takes its `=`-joined value or the
/// following token. The first offending token decides the error.
pub open spec fn fold_tokens(tokens: Seq<Seq<char>>, acc: PartialModel) -> Result<
    PartialModel,
    ResolveError,
>
    decreases tokens.len(),
{
    if tokens.len() == 0 {
        Ok(acc)
    } else {
        let key = key_of(tokens[0]);
        let ev = eq_val_of(tokens[0]);
        match lookup(key) {
            None => Err(ResolveError::UnknownOption),
            Some(o) => if is_flag(o) {
                match ev {
                    Some(_) => Err(ResolveError::InvalidValue),
                    None => fold_tokens(tokens.skip(1), set_flag(acc, o)),
                }
            } else {
                match ev {
                    Some(v) => match apply_value(acc, o, v) {
                        Some(a) => fold_tokens(tokens.skip(1), a),
                        None => Err(ResolveError::InvalidValue),
                    },
                    None => if tokens.len() < 2 {
                        Err(ResolveError::MissingRequiredValue)
                    } else {
                        match apply_value(acc, o, tokens[1]) {
                            Some(a) => fold_tokens(tokens.skip(2), a),
                            None => Err(ResolveError::InvalidValue),
                        }
                    },
                }
            },
        }
    }
}

// ---------------------------------------------------------------------------
// The resolved configuration
// ---------------------------------------------------------------------------

/// Mathematical image of a fully resolved configuration. The two
/// real-valued options are carried in their validated textual form.
pub ghost struct ConfigModel {
    pub input: Option<Seq<char>>,
    pub temp_dir: Option<Seq<char>>,
    pub output: Option<Seq<char>>,
    pub concat: Seq<char>,
    pub quiet: bool,
    pub log: Option<Seq<char>>,
    pub resume: bool,
    pub keep: bool,
    pub config: Option<Seq<char>>,
    pub webm: bool,
    pub chunk_method: Seq<char>,
    pub scenes: Option<Seq<char>>,
    pub split_method: Option<Seq<char>>,
    pub extra_split: int,
    pub threshold: Seq<char>,
    pub min_scene_len: int,
    pub reuse_first_pass: bool,
    pub passes: Option<int>,
    pub video_params: Option<Seq<char>>,
    pub encoder: Seq<char>,
    pub workers: int,
    pub no_check: bool,
    pub force: bool,
    pub ffmpeg: Seq<char>,
    pub audio_params: Seq<char>,
    pub pix_format: Seq<char>,
    pub vmaf: bool,
    pub vmaf_path: Option<Seq<char>>,
    pub vmaf_res: Seq<char>,
    pub vmaf_threads: Option<int>,
    pub target_quality: Option<Seq<char>>,
    pub target_quality_method: Option<Seq<char>>,
    pub probes: int,
    pub min_q: Option<int>,
    pub max_q: Option<int>,
    pub vmaf_plots: bool,
    pub probing_rate: int,
    pub vmaf_filter: Option<Seq<char>>,
}

pub open spec fn or_str(v: Option<Seq<char>>, d: Seq<char>) -> Seq<char> {
    match v {
        Some(x) => x,
        None => d,
    }
}

pub open spec fn or_int(v: Option<int>, d: int) -> int {
    match v {
        Some(x) => x,
        None => d,
    }
}

pub open spec fn or_some(v: Option<Seq<char>>, d: Seq<char>) -> Option<Seq<char>> {
    match v {
        Some(x) => Some(x),
        None => Some(d),
    }
}

/// Applies the table's defaults; `chunk_method` alone has none, so its
/// absence is the one failure here.
pub open spec fn finalize_spec(p: PartialModel) -> Result<ConfigModel, ResolveError> {
    match p.chunk_method {
        None => Err(ResolveError::MissingRequiredValue),
        Some(cm) => Ok(
            ConfigModel {
                input: p.input,
                temp_dir: p.temp_dir,
                output: p.output,
                concat: or_str(p.concat, "ffmpeg"@),
                quiet: p.quiet,
                log: p.log,
                resume: p.resume,
                keep: p.keep,
                config: p.config,
                webm: p.webm,
                chunk_method: cm,
                scenes: p.scenes,
                split_method: or_some(p.split_method, "pyscene"@),
                extra_split: or_int(p.extra_split, 240),
                threshold: or_str(p.threshold, "35.0"@),
                min_scene_len: or_int(p.min_scene_len, 60),
                reuse_first_pass: p.reuse_first_pass,
                passes: p.passes,
                video_params: p.video_params,
                encoder: or_str(p.encoder, "aom"@),
                workers: or_int(p.workers, 0),
                no_check: p.no_check,
                force: p.force,
                ffmpeg: or_str(p.ffmpeg, ""@),
                audio_params: or_str(p.audio_params, "-c:a copy"@),
                pix_format: or_str(p.pix_format, "yuv420p10le"@),
                vmaf: p.vmaf,
                vmaf_path: p.vmaf_path,
                vmaf_res: or_str(p.vmaf_res, "1920x1080"@),
                vmaf_threads: p.vmaf_threads,
                target_quality: p.target_quality,
                target_quality_method: or_some(p.target_quality_method, "per_shot"@),
                probes: or_int(p.probes, 4),
                min_q: p.min_q,
                max_q: p.max_q,
                vmaf_plots: p.vmaf_plots,
                probing_rate: or_int(p.probing_rate, 4),
                vmaf_filter: p.vmaf_filter,
            },
        ),
    }
}

pub open spec fn views_of(ts: Seq<String>) -> Seq<Seq<char>> {
    ts.map_values(|t: String| t@)
}

/// What `resolve` returns, stated over the token views: a single pass,
/// then defaults.
pub open spec fn resolve_spec(tokens: Seq<Seq<char>>) -> Result<ConfigModel, ResolveError> {
    match fold_tokens(tokens, init_partial()) {
        Ok(p) => finalize_spec(p),
        Err(e) => Err(e),
    }
}

/// Every resolved configuration keeps each enum-typed field inside its
/// declared set, each small integer inside its range, and each
/// real-valued option in interchange number syntax.
pub open spec fn config_wf(c: ConfigModel) -> bool {
    &&& concat_ok(c.concat)
    &&& match c.split_method {
        Some(v) => split_method_ok(v),
        None => false,
    }
    &&& encoder_ok(c.encoder)
    &&& match c.target_quality_method {
        Some(v) => target_quality_method_ok(v),
        None => false,
    }
    &&& is_number_token(c.threshold)
    &&& match c.target_quality {
        Some(v) => is_number_token(v),
        None => true,
    }
    &&& 0 <= c.extra_split <= usize::MAX as int
    &&& 0 <= c.min_scene_len <= usize::MAX as int
    &&& 0 <= c.workers <= usize::MAX as int
    &&& 0 <= c.probes <= usize::MAX as int
    &&& 0 <= c.probing_rate <= usize::MAX as int
    &&& match c.passes {
        Some(n) => 0 <= n <= 255,
        None => true,
    }
    &&& match c.min_q {
        Some(n) => 0 <= n <= 255,
        None => true,
    }
    &&& match c.max_q {
        Some(n) => 0 <= n <= 255,
        None => true,
    }
    &&& match c.vmaf_threads {
        Some(n) => 0 <= n <= usize::MAX as int,
        None => true,
    }
}

} // verus!
