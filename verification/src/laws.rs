use vstd::prelude::*;
use crate::serialize::{
    spec_serialize, ser_upto, field_seg, name_lit, val_repr, field_count, json_string, dec_repr,
    escape,
};
use crate::schema::{
    ResolveError, OptId, lookup, is_flag, key_of, eq_val_of, eq_pos, apply_value, set_flag,
    fold_tokens, init_partial, finalize_spec, resolve_spec, parse_uint, is_digit, dec_val,
    all_digits, is_number_token, digits_end, concat_ok, split_method_ok, encoder_ok,
    target_quality_method_ok, ConfigModel, PartialModel, config_wf,
};

verus! {

// ---------------------------------------------------------------------------
// Well-formedness of everything resolution produces
// ---------------------------------------------------------------------------

/// Every value stored while walking the tokens is already validated.
pub open spec fn partial_wf(p: PartialModel) -> bool {
    &&& match p.concat {
        Some(v) => concat_ok(v),
        None => true,
    }
    &&& match p.split_method {
        Some(v) => split_method_ok(v),
        None => true,
    }
    &&& match p.encoder {
        Some(v) => encoder_ok(v),
        None => true,
    }
    &&& match p.target_quality_method {
        Some(v) => target_quality_method_ok(v),
        None => true,
    }
    &&& match p.threshold {
        Some(v) => is_number_token(v),
        None => true,
    }
    &&& match p.target_quality {
        Some(v) => is_number_token(v),
        None => true,
    }
    &&& match p.extra_split {
        Some(n) => 0 <= n <= usize::MAX as int,
        None => true,
    }
    &&& match p.min_scene_len {
        Some(n) => 0 <= n <= usize::MAX as int,
        None => true,
    }
    &&& match p.workers {
        Some(n) => 0 <= n <= usize::MAX as int,
        None => true,
    }
    &&& match p.probes {
        Some(n) => 0 <= n <= usize::MAX as int,
        None => true,
    }
    &&& match p.probing_rate {
        Some(n) => 0 <= n <= usize::MAX as int,
        None => true,
    }
    &&& match p.vmaf_threads {
        Some(n) => 0 <= n <= usize::MAX as int,
        None => true,
    }
    &&& match p.passes {
        Some(n) => 0 <= n <= 255,
        None => true,
    }
    &&& match p.min_q {
        Some(n) => 0 <= n <= 255,
        None => true,
    }
    &&& match p.max_q {
        Some(n) => 0 <= n <= 255,
        None => true,
    }
}

proof fn lemma_set_flag_wf(p: PartialModel, o: OptId)
    requires
        partial_wf(p),
    ensures
        partial_wf(set_flag(p, o)),
{
}

proof fn lemma_apply_value_wf(p: PartialModel, o: OptId, v: Seq<char>)
    requires
        partial_wf(p),
    ensures
        match apply_value(p, o, v) {
            Some(a) => partial_wf(a),
            None => true,
        },
{
}

proof fn lemma_fold_preserves_wf(tokens: Seq<Seq<char>>, acc: PartialModel)
    requires
        partial_wf(acc),
    ensures
        match fold_tokens(tokens, acc) {
            Ok(p) => partial_wf(p),
            Err(_) => true,
        },
    decreases tokens.len(),
{
    if tokens.len() > 0 {
        let key = key_of(tokens[0]);
        let ev = eq_val_of(tokens[0]);
        match lookup(key) {
            None => {},
            Some(o) => {
                if is_flag(o) {
                    match ev {
                        Some(_) => {},
                        None => {
                            lemma_set_flag_wf(acc, o);
                            lemma_fold_preserves_wf(tokens.skip(1), set_flag(acc, o));
                        },
                    }
                } else {
                    match ev {
                        Some(v) => {
                            lemma_apply_value_wf(acc, o, v);
                            match apply_value(acc, o, v) {
                                Some(a) => {
                                    lemma_fold_preserves_wf(tokens.skip(1), a);
                                },
                                None => {},
                            }
                        },
                        None => {
                            if tokens.len() >= 2 {
                                lemma_apply_value_wf(acc, o, tokens[1]);
                                match apply_value(acc, o, tokens[1]) {
                                    Some(a) => {
                                        lemma_fold_preserves_wf(tokens.skip(2), a);
                                    },
                                    None => {},
                                }
                            }
                        },
                    }
                }
            },
        }
    }
}

/// The default for the scene threshold is itself in number syntax.
pub proof fn lemma_default_threshold_number()
    ensures
        is_number_token("35.0"@),
{
    reveal_strlit("35.0");
    let s = "35.0"@;
    assert(s.len() == 4);
    assert(digits_end(s, 4) == 4);
    assert(digits_end(s, 3) == 4);
    assert(digits_end(s, 2) == 2);
    assert(digits_end(s, 1) == 2);
    assert(digits_end(s, 0) == 2);
}

/// Law: whenever resolution succeeds, the configuration it produces is
/// well formed: every enum-typed field is a member of its declared set,
/// every bounded integer sits in range, and both real-valued options
/// hold valid number syntax. No partially valid configuration is ever
/// produced.
pub proof fn lemma_resolve_wf(tokens: Seq<Seq<char>>)
    ensures
        match resolve_spec(tokens) {
            Ok(c) => config_wf(c),
            Err(_) => true,
        },
{
    lemma_fold_preserves_wf(tokens, init_partial());
    lemma_default_threshold_number();
}

// ---------------------------------------------------------------------------
// The required option
// ---------------------------------------------------------------------------

proof fn lemma_fold_no_chunk(tokens: Seq<Seq<char>>, acc: PartialModel)
    requires
        forall|i: int|
            0 <= i < tokens.len() ==> lookup(key_of(#[trigger] tokens[i])) != Some(
                OptId::ChunkMethod,
            ),
        acc.chunk_method is None,
    ensures
        match fold_tokens(tokens, acc) {
            Ok(p) => p.chunk_method is None,
            Err(_) => true,
        },
    decreases tokens.len(),
{
    if tokens.len() > 0 {
        let key = key_of(tokens[0]);
        let ev = eq_val_of(tokens[0]);
        assert(lookup(key_of(tokens[0])) != Some(OptId::ChunkMethod));
        match lookup(key) {
            None => {},
            Some(o) => {
                assert(forall|i: int|
                    0 <= i < tokens.skip(1).len() ==> #[trigger] tokens.skip(1)[i] == tokens[i
                        + 1]);
                if is_flag(o) {
                    match ev {
                        Some(_) => {},
                        None => {
                            lemma_fold_no_chunk(tokens.skip(1), set_flag(acc, o));
                        },
                    }
                } else {
                    match ev {
                        Some(v) => {
                            match apply_value(acc, o, v) {
                                Some(a) => {
                                    assert(a.chunk_method == acc.chunk_method);
                                    lemma_fold_no_chunk(tokens.skip(1), a);
                                },
                                None => {},
                            }
                        },
                        None => {
                            if tokens.len() >= 2 {
                                assert(forall|i: int|
                                    0 <= i < tokens.skip(2).len() ==> #[trigger] tokens.skip(2)[i]
                                        == tokens[i + 2]);
                                match apply_value(acc, o, tokens[1]) {
                                    Some(a) => {
                                        assert(a.chunk_method == acc.chunk_method);
                                        lemma_fold_no_chunk(tokens.skip(2), a);
                                    },
                                    None => {},
                                }
                            }
                        },
                    }
                }
            },
        }
    }
}

/// Law: once the pass over the tokens itself goes through, the presence
/// of the chunk method is exactly what decides success: every other
/// field falls back to its declared default.
pub proof fn lemma_supplied_chunk_method_succeeds(tokens: Seq<Seq<char>>)
    ensures
        match fold_tokens(tokens, init_partial()) {
            Ok(p) => (p.chunk_method is Some) == (resolve_spec(tokens) is Ok),
            Err(_) => !(resolve_spec(tokens) is Ok),
        },
{
}

/// Law: a token sequence in which no token names the chunk method can
/// never resolve; if its tokens are otherwise in order, the failure is
/// precisely the missing required value.
pub proof fn lemma_omitted_chunk_method_fails(tokens: Seq<Seq<char>>)
    requires
        forall|i: int|
            0 <= i < tokens.len() ==> lookup(key_of(#[trigger] tokens[i])) != Some(
                OptId::ChunkMethod,
            ),
    ensures
        resolve_spec(tokens) is Err,
        fold_tokens(tokens, init_partial()) is Ok ==> resolve_spec(tokens) == Err::<
            ConfigModel,
            ResolveError,
        >(ResolveError::MissingRequiredValue),
{
    lemma_fold_no_chunk(tokens, init_partial());
}

// ---------------------------------------------------------------------------
// Rejected enum values
// ---------------------------------------------------------------------------

/// Resolution of concatenated token lists: a list that resolves cleanly
/// followed by more tokens behaves as one pass over both.
pub proof fn lemma_fold_append(a: Seq<Seq<char>>, b: Seq<Seq<char>>, acc: PartialModel)
    requires
        fold_tokens(a, acc) is Ok,
    ensures
        match fold_tokens(a, acc) {
            Ok(p) => fold_tokens(a + b, acc) == fold_tokens(b, p),
            Err(_) => true,
        },
    decreases a.len(),
{
    if a.len() == 0 {
        assert(a + b =~= b);
    } else {
        let key = key_of(a[0]);
        let ev = eq_val_of(a[0]);
        assert((a + b)[0] == a[0]);
        match lookup(key) {
            None => {},
            Some(o) => {
                if is_flag(o) {
                    match ev {
                        Some(_) => {},
                        None => {
                            assert((a + b).skip(1) =~= a.skip(1) + b);
                            lemma_fold_append(a.skip(1), b, set_flag(acc, o));
                        },
                    }
                } else {
                    match ev {
                        Some(v) => {
                            match apply_value(acc, o, v) {
                                Some(p2) => {
                                    assert((a + b).skip(1) =~= a.skip(1) + b);
                                    lemma_fold_append(a.skip(1), b, p2);
                                },
                                None => {},
                            }
                        },
                        None => {
                            assert(a.len() >= 2);
                            assert((a + b)[1] == a[1]);
                            match apply_value(acc, o, a[1]) {
                                Some(p2) => {
                                    assert((a + b).skip(2) =~= a.skip(2) + b);
                                    lemma_fold_append(a.skip(2), b, p2);
                                },
                                None => {},
                            }
                        },
                    }
                }
            },
        }
    }
}

/// The options whose values are restricted to an enumerated set.
pub open spec fn enum_opt(o: OptId) -> bool {
    o is Concat || o is SplitMethod || o is Encoder || o is TargetQualityMethod
}

pub open spec fn enum_value_ok(o: OptId, v: Seq<char>) -> bool {
    match o {
        OptId::Concat => concat_ok(v),
        OptId::SplitMethod => split_method_ok(v),
        OptId::Encoder => encoder_ok(v),
        OptId::TargetQualityMethod => target_quality_method_ok(v),
        _ => true,
    }
}

/// Law: after any cleanly resolving prefix, supplying an enum-typed
/// option a value outside its declared set makes resolution fail with
/// `InvalidValue`.
pub proof fn lemma_enum_value_rejected(prefix: Seq<Seq<char>>, k: Seq<char>, v: Seq<char>)
    requires
        fold_tokens(prefix, init_partial()) is Ok,
        eq_val_of(k) is None,
        match lookup(key_of(k)) {
            Some(o) => enum_opt(o) && !enum_value_ok(o, v),
            None => false,
        },
    ensures
        resolve_spec(prefix + seq![k, v]) == Err::<ConfigModel, ResolveError>(
            ResolveError::InvalidValue,
        ),
{
    let toks = seq![k, v];
    lemma_fold_append(prefix, toks, init_partial());
    match fold_tokens(prefix, init_partial()) {
        Ok(p0) => {
            assert(toks[0] == k);
            assert(toks[1] == v);
            match lookup(key_of(k)) {
                Some(o) => {
                    assert(!is_flag(o));
                    assert(apply_value(p0, o, v) is None);
                    assert(fold_tokens(toks, p0) == Err::<PartialModel, ResolveError>(
                        ResolveError::InvalidValue,
                    ));
                },
                None => {},
            }
        },
        Err(_) => {},
    }
}

// ---------------------------------------------------------------------------
// Defaults
// ---------------------------------------------------------------------------

/// The configuration in which every field except the chunk method holds
/// its table-listed default.
pub open spec fn default_config_with(cm: Seq<char>) -> ConfigModel {
    ConfigModel {
        input: None,
        temp_dir: None,
        output: None,
        concat: "ffmpeg"@,
        quiet: false,
        log: None,
        resume: false,
        keep: false,
        config: None,
        webm: false,
        chunk_method: cm,
        scenes: None,
        split_method: Some("pyscene"@),
        extra_split: 240,
        threshold: "35.0"@,
        min_scene_len: 60,
        reuse_first_pass: false,
        passes: None,
        video_params: None,
        encoder: "aom"@,
        workers: 0,
        no_check: false,
        force: false,
        ffmpeg: ""@,
        audio_params: "-c:a copy"@,
        pix_format: "yuv420p10le"@,
        vmaf: false,
        vmaf_path: None,
        vmaf_res: "1920x1080"@,
        vmaf_threads: None,
        target_quality: None,
        target_quality_method: Some("per_shot"@),
        probes: 4,
        min_q: None,
        max_q: None,
        vmaf_plots: false,
        probing_rate: 4,
        vmaf_filter: None,
    }
}

/// Law: supplying only the chunk method resolves, and every other field
/// of the result holds its declared default.
pub proof fn lemma_chunk_method_alone(v: Seq<char>)
    ensures
        resolve_spec(seq!["-m"@, v]) == Ok::<ConfigModel, ResolveError>(default_config_with(v)),
{
    reveal_strlit("-m");
    let t = "-m"@;
    assert(t.len() == 2);
    assert(eq_pos(t, 2) == 2);
    assert(eq_pos(t, 1) == 2);
    assert(eq_pos(t, 0) == 2);
    assert(key_of(t) =~= t);
    assert(eq_val_of(t) is None);
    reveal_strlit("-i");
    reveal_strlit("--input");
    reveal_strlit("--temp-dir");
    reveal_strlit("-o");
    reveal_strlit("--output");
    reveal_strlit("--concat");
    reveal_strlit("-q");
    reveal_strlit("--quiet");
    reveal_strlit("-l");
    reveal_strlit("--log");
    reveal_strlit("-r");
    reveal_strlit("--resume");
    reveal_strlit("--keep");
    reveal_strlit("-c");
    reveal_strlit("--config");
    reveal_strlit("--webm");
    assert(lookup(t) == Some(OptId::ChunkMethod));
    let toks = seq![t, v];
    assert(toks.len() == 2);
    assert(toks[0] == t);
    assert(toks[1] == v);
    let p1 = apply_value(init_partial(), OptId::ChunkMethod, v);
    assert(p1 is Some);
    assert(toks.skip(2) =~= Seq::<Seq<char>>::empty());
    match p1 {
        Some(p) => {
            assert(fold_tokens(toks.skip(2), p) == Ok::<PartialModel, ResolveError>(p));
            assert(!is_flag(OptId::ChunkMethod));
            assert(fold_tokens(toks, init_partial()) == Ok::<PartialModel, ResolveError>(p));
            assert(finalize_spec(p) == Ok::<ConfigModel, ResolveError>(default_config_with(v)));
        },
        None => {},
    }
}

// ---------------------------------------------------------------------------
// Serialization is a function of the configuration alone
// ---------------------------------------------------------------------------

/// Law: serializing the same configuration twice yields the identical
/// document, character for character.
pub proof fn lemma_serialize_deterministic(c1: ConfigModel, c2: ConfigModel)
    requires
        c1 == c2,
    ensures
        spec_serialize(c1) == spec_serialize(c2),
{
}

// ---------------------------------------------------------------------------
// The document never conflates "unset" with "set"
// ---------------------------------------------------------------------------

/// The sixteen fields of the schema that may be absent.
pub open spec fn optional_field(k: int) -> bool {
    k == 0 || k == 1 || k == 2 || k == 5 || k == 8 || k == 11 || k == 12 || k == 17 || k == 18
        || k == 27 || k == 29 || k == 30 || k == 31 || k == 33 || k == 34 || k == 37
}

/// Whether optional field `k` is absent in `c`.
pub open spec fn field_unset(c: ConfigModel, k: int) -> bool {
    if k == 0 {
        c.input is None
    } else if k == 1 {
        c.temp_dir is None
    } else if k == 2 {
        c.output is None
    } else if k == 5 {
        c.log is None
    } else if k == 8 {
        c.config is None
    } else if k == 11 {
        c.scenes is None
    } else if k == 12 {
        c.split_method is None
    } else if k == 17 {
        c.passes is None
    } else if k == 18 {
        c.video_params is None
    } else if k == 27 {
        c.vmaf_path is None
    } else if k == 29 {
        c.vmaf_threads is None
    } else if k == 30 {
        c.target_quality is None
    } else if k == 31 {
        c.target_quality_method is None
    } else if k == 33 {
        c.min_q is None
    } else if k == 34 {
        c.max_q is None
    } else if k == 37 {
        c.vmaf_filter is None
    } else {
        false
    }
}

/// Whether `c1` and `c2` agree on field `j`.
pub open spec fn field_eq(c1: ConfigModel, c2: ConfigModel, j: int) -> bool {
    if j == 0 {
        c1.input == c2.input
    } else if j == 1 {
        c1.temp_dir == c2.temp_dir
    } else if j == 2 {
        c1.output == c2.output
    } else if j == 3 {
        c1.concat == c2.concat
    } else if j == 4 {
        c1.quiet == c2.quiet
    } else if j == 5 {
        c1.log == c2.log
    } else if j == 6 {
        c1.resume == c2.resume
    } else if j == 7 {
        c1.keep == c2.keep
    } else if j == 8 {
        c1.config == c2.config
    } else if j == 9 {
        c1.webm == c2.webm
    } else if j == 10 {
        c1.chunk_method == c2.chunk_method
    } else if j == 11 {
        c1.scenes == c2.scenes
    } else if j == 12 {
        c1.split_method == c2.split_method
    } else if j == 13 {
        c1.extra_split == c2.extra_split
    } else if j == 14 {
        c1.threshold == c2.threshold
    } else if j == 15 {
        c1.min_scene_len == c2.min_scene_len
    } else if j == 16 {
        c1.reuse_first_pass == c2.reuse_first_pass
    } else if j == 17 {
        c1.passes == c2.passes
    } else if j == 18 {
        c1.video_params == c2.video_params
    } else if j == 19 {
        c1.encoder == c2.encoder
    } else if j == 20 {
        c1.workers == c2.workers
    } else if j == 21 {
        c1.no_check == c2.no_check
    } else if j == 22 {
        c1.force == c2.force
    } else if j == 23 {
        c1.ffmpeg == c2.ffmpeg
    } else if j == 24 {
        c1.audio_params == c2.audio_params
    } else if j == 25 {
        c1.pix_format == c2.pix_format
    } else if j == 26 {
        c1.vmaf == c2.vmaf
    } else if j == 27 {
        c1.vmaf_path == c2.vmaf_path
    } else if j == 28 {
        c1.vmaf_res == c2.vmaf_res
    } else if j == 29 {
        c1.vmaf_threads == c2.vmaf_threads
    } else if j == 30 {
        c1.target_quality == c2.target_quality
    } else if j == 31 {
        c1.target_quality_method == c2.target_quality_method
    } else if j == 32 {
        c1.probes == c2.probes
    } else if j == 33 {
        c1.min_q == c2.min_q
    } else if j == 34 {
        c1.max_q == c2.max_q
    } else if j == 35 {
        c1.vmaf_plots == c2.vmaf_plots
    } else if j == 36 {
        c1.probing_rate == c2.probing_rate
    } else if j == 37 {
        c1.vmaf_filter == c2.vmaf_filter
    } else {
        true
    }
}

proof fn lemma_seg_congruent(c1: ConfigModel, c2: ConfigModel, j: int)
    requires
        0 <= j < field_count(),
        field_eq(c1, c2, j),
    ensures
        field_seg(c1, j) == field_seg(c2, j),
{
}

proof fn lemma_upto_congruent(c1: ConfigModel, c2: ConfigModel, k: int)
    requires
        0 <= k <= field_count(),
        forall|j: int| 0 <= j < k ==> field_seg(c1, j) == #[trigger] field_seg(c2, j),
    ensures
        ser_upto(c1, k) == ser_upto(c2, k),
    decreases k,
{
    if k > 0 {
        lemma_upto_congruent(c1, c2, k - 1);
    }
}

proof fn lemma_index_stable(c: ConfigModel, k: int, p: int)
    requires
        0 <= k <= field_count(),
        0 <= p < ser_upto(c, k).len(),
    ensures
        p < spec_serialize(c).len(),
        spec_serialize(c)[p] == ser_upto(c, k)[p],
    decreases field_count() - k,
{
    if k < field_count() {
        assert(ser_upto(c, k + 1) == ser_upto(c, k) + field_seg(c, k));
        assert(ser_upto(c, k + 1)[p] == ser_upto(c, k)[p]);
        lemma_index_stable(c, k + 1, p);
    }
}

proof fn lemma_dec_repr_digit(n: int)
    requires
        n >= 0,
    ensures
        dec_repr(n).len() > 0,
        is_digit(dec_repr(n)[0]),
    decreases n,
{
    reveal_strlit("0");
    reveal_strlit("1");
    reveal_strlit("2");
    reveal_strlit("3");
    reveal_strlit("4");
    reveal_strlit("5");
    reveal_strlit("6");
    reveal_strlit("7");
    reveal_strlit("8");
    reveal_strlit("9");
    if n >= 10 {
        lemma_dec_repr_digit(n / 10);
        assert(dec_repr(n)[0] == dec_repr(n / 10)[0]);
    }
}

proof fn lemma_json_string_first(s: Seq<char>)
    ensures
        json_string(s).len() >= 2,
        json_string(s)[0] == '"',
{
    reveal_strlit("\"");
    assert(("\""@ + escape(s))[0] == '"');
}

proof fn lemma_val_unset(c: ConfigModel, k: int)
    requires
        optional_field(k),
        field_unset(c, k),
    ensures
        val_repr(c, k) == "null"@,
{
}

proof fn lemma_val_set_first(c: ConfigModel, k: int)
    requires
        optional_field(k),
        config_wf(c),
        !field_unset(c, k),
    ensures
        val_repr(c, k).len() > 0,
        val_repr(c, k)[0] != 'n',
{
    if k == 0 {
        lemma_json_string_first(c.input->0);
    } else if k == 1 {
        lemma_json_string_first(c.temp_dir->0);
    } else if k == 2 {
        lemma_json_string_first(c.output->0);
    } else if k == 5 {
        lemma_json_string_first(c.log->0);
    } else if k == 8 {
        lemma_json_string_first(c.config->0);
    } else if k == 11 {
        lemma_json_string_first(c.scenes->0);
    } else if k == 12 {
        lemma_json_string_first(c.split_method->0);
    } else if k == 17 {
        lemma_dec_repr_digit(c.passes->0);
    } else if k == 18 {
        lemma_json_string_first(c.video_params->0);
    } else if k == 27 {
        lemma_json_string_first(c.vmaf_path->0);
    } else if k == 29 {
        lemma_dec_repr_digit(c.vmaf_threads->0);
    } else if k == 30 {
        let s = c.target_quality->0;
        assert(is_number_token(s));
        if !(s.len() > 0 && s[0] == '-') {
            assert(digits_end(s, 0) > 0);
            assert(is_digit(s[0]));
        }
    } else if k == 31 {
        lemma_json_string_first(c.target_quality_method->0);
    } else if k == 33 {
        lemma_dec_repr_digit(c.min_q->0);
    } else if k == 34 {
        lemma_dec_repr_digit(c.max_q->0);
    } else {
        lemma_json_string_first(c.vmaf_filter->0);
    }
}

/// Law: the serialized document never loses an optional field's
/// "unset" state. Two configurations that agree everywhere except on
/// one optional field, absent in one and present in the other (however
/// the present value reads, an empty string or zero included), always
/// serialize to different documents.
pub proof fn lemma_set_state_distinguished(c1: ConfigModel, c2: ConfigModel, k: int)
    requires
        config_wf(c2),
        optional_field(k),
        forall|j: int| 0 <= j < field_count() && j != k ==> #[trigger] field_eq(c1, c2, j),
        field_unset(c1, k),
        !field_unset(c2, k),
    ensures
        spec_serialize(c1) != spec_serialize(c2),
{
    assert forall|j: int| 0 <= j < k implies field_seg(c1, j) == #[trigger] field_seg(c2, j) by {
        assert(field_eq(c1, c2, j));
        lemma_seg_congruent(c1, c2, j);
    }
    lemma_upto_congruent(c1, c2, k);
    lemma_val_unset(c1, k);
    lemma_val_set_first(c2, k);
    reveal_strlit("null");
    let pre = ser_upto(c1, k);
    let nm = name_lit(k);
    let p: int = pre.len() as int + nm.len() as int;
    assert(ser_upto(c1, k + 1) == pre + field_seg(c1, k));
    assert(field_seg(c1, k)[nm.len() as int] == 'n');
    assert(ser_upto(c1, k + 1)[p] == 'n');
    lemma_index_stable(c1, k + 1, p);
    assert(spec_serialize(c1)[p] == 'n');
    assert(ser_upto(c2, k) == pre);
    assert(ser_upto(c2, k + 1) == pre + field_seg(c2, k));
    assert(field_seg(c2, k)[nm.len() as int] == val_repr(c2, k)[0]);
    assert(ser_upto(c2, k + 1)[p] == val_repr(c2, k)[0]);
    lemma_index_stable(c2, k + 1, p);
    assert(spec_serialize(c2)[p] != 'n');
}

} // verus!
