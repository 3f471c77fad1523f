use vstd::prelude::*;
use vstd::string::StrSliceExecFns;
use vstd::string::StringExecFns;
use crate::args::Args;
use crate::args::opt_string_view;
use crate::args::opt_usize_view;
use crate::args::opt_u8_view;
use crate::schema::ConfigModel;

verus! {

// ---------------------------------------------------------------------------
// Value representations in the output document
// ---------------------------------------------------------------------------

pub open spec fn hex_lit(n: int) -> Seq<char> {
    if n == 0 {
        "0"@
    } else if n == 1 {
        "1"@
    } else if n == 2 {
        "2"@
    } else if n == 3 {
        "3"@
    } else if n == 4 {
        "4"@
    } else if n == 5 {
        "5"@
    } else if n == 6 {
        "6"@
    } else if n == 7 {
        "7"@
    } else if n == 8 {
        "8"@
    } else if n == 9 {
        "9"@
    } else if n == 10 {
        "a"@
    } else if n == 11 {
        "b"@
    } else if n == 12 {
        "c"@
    } else if n == 13 {
        "d"@
    } else if n == 14 {
        "e"@
    } else {
        "f"@
    }
}

/// How one character stands inside a string of the document: the two
/// delimiter characters and the controls are escaped, everything else
/// stands as itself.
pub open spec fn esc_char(c: char) -> Seq<char> {
    if c == '"' {
        "\\\""@
    } else if c == '\\' {
        "\\\\"@
    } else if (c as u32) < 32 {
        "\\u00"@ + hex_lit((c as u32 as int) / 16) + hex_lit((c as u32 as int) % 16)
    } else {
        seq![c]
    }
}

pub open spec fn escape(s: Seq<char>) -> Seq<char>
    decreases s.len(),
{
    if s.len() == 0 {
        Seq::empty()
    } else {
        escape(s.drop_last()) + esc_char(s.last())
    }
}

pub open spec fn json_string(s: Seq<char>) -> Seq<char> {
    "\""@ + escape(s) + "\""@
}

/// An absent optional is written as an explicit `null` marker, never
/// omitted and never conflated with an empty string.
pub open spec fn opt_json_string(v: Option<Seq<char>>) -> Seq<char> {
    match v {
        None => "null"@,
        Some(s) => json_string(s),
    }
}

pub open spec fn digit_lit(n: int) -> Seq<char> {
    if n == 0 {
        "0"@
    } else if n == 1 {
        "1"@
    } else if n == 2 {
        "2"@
    } else if n == 3 {
        "3"@
    } else if n == 4 {
        "4"@
    } else if n == 5 {
        "5"@
    } else if n == 6 {
        "6"@
    } else if n == 7 {
        "7"@
    } else if n == 8 {
        "8"@
    } else {
        "9"@
    }
}

/// Decimal form of a non-negative integer, most significant digit first.
pub open spec fn dec_repr(n: int) -> Seq<char>
    decreases n,
    when n >= 0
{
    if n < 10 {
        digit_lit(n)
    } else {
        dec_repr(n / 10) + digit_lit(n % 10)
    }
}

pub open spec fn opt_dec_repr(v: Option<int>) -> Seq<char> {
    match v {
        None => "null"@,
        Some(n) => dec_repr(n),
    }
}

pub open spec fn bool_repr(b: bool) -> Seq<char> {
    if b {
        "true"@
    } else {
        "false"@
    }
}

/// A real-valued option already holds its validated number syntax, which
/// stands verbatim as the number in the document.
pub open spec fn opt_number_repr(v: Option<Seq<char>>) -> Seq<char> {
    match v {
        None => "null"@,
        Some(s) => s,
    }
}

// ---------------------------------------------------------------------------
// The document, field by field
// ---------------------------------------------------------------------------

/// Number of declared fields in the document.
pub open spec fn field_count() -> int {
    38
}

/// The key part of field `k`: its separator, quoted name and colon.
pub open spec fn name_lit(k: int) -> Seq<char> {
    if k == 0 {
        "\"input\":"@
    } else if k == 1 {
        ",\"temp_dir\":"@
    } else if k == 2 {
        ",\"output\":"@
    } else if k == 3 {
        ",\"concat\":"@
    } else if k == 4 {
        ",\"quiet\":"@
    } else if k == 5 {
        ",\"log\":"@
    } else if k == 6 {
        ",\"resume\":"@
    } else if k == 7 {
        ",\"keep\":"@
    } else if k == 8 {
        ",\"config\":"@
    } else if k == 9 {
        ",\"webm\":"@
    } else if k == 10 {
        ",\"chunk_method\":"@
    } else if k == 11 {
        ",\"scenes\":"@
    } else if k == 12 {
        ",\"split_method\":"@
    } else if k == 13 {
        ",\"extra_split\":"@
    } else if k == 14 {
        ",\"threshold\":"@
    } else if k == 15 {
        ",\"min_scene_len\":"@
    } else if k == 16 {
        ",\"reuse_first_pass\":"@
    } else if k == 17 {
        ",\"passes\":"@
    } else if k == 18 {
        ",\"video_params\":"@
    } else if k == 19 {
        ",\"encoder\":"@
    } else if k == 20 {
        ",\"workers\":"@
    } else if k == 21 {
        ",\"no_check\":"@
    } else if k == 22 {
        ",\"force\":"@
    } else if k == 23 {
        ",\"ffmpeg\":"@
    } else if k == 24 {
        ",\"audio_params\":"@
    } else if k == 25 {
        ",\"pix_format\":"@
    } else if k == 26 {
        ",\"vmaf\":"@
    } else if k == 27 {
        ",\"vmaf_path\":"@
    } else if k == 28 {
        ",\"vmaf_res\":"@
    } else if k == 29 {
        ",\"vmaf_threads\":"@
    } else if k == 30 {
        ",\"target_quality\":"@
    } else if k == 31 {
        ",\"target_quality_method\":"@
    } else if k == 32 {
        ",\"probes\":"@
    } else if k == 33 {
        ",\"min_q\":"@
    } else if k == 34 {
        ",\"max_q\":"@
    } else if k == 35 {
        ",\"vmaf_plots\":"@
    } else if k == 36 {
        ",\"probing_rate\":"@
    } else {
        ",\"vmaf_filter\":"@
    }
}

/// The value part of field `k`.
pub open spec fn val_repr(c: ConfigModel, k: int) -> Seq<char> {
    if k == 0 {
        opt_json_string(c.input)
    } else if k == 1 {
        opt_json_string(c.temp_dir)
    } else if k == 2 {
        opt_json_string(c.output)
    } else if k == 3 {
        json_string(c.concat)
    } else if k == 4 {
        bool_repr(c.quiet)
    } else if k == 5 {
        opt_json_string(c.log)
    } else if k == 6 {
        bool_repr(c.resume)
    } else if k == 7 {
        bool_repr(c.keep)
    } else if k == 8 {
        opt_json_string(c.config)
    } else if k == 9 {
        bool_repr(c.webm)
    } else if k == 10 {
        json_string(c.chunk_method)
    } else if k == 11 {
        opt_json_string(c.scenes)
    } else if k == 12 {
        opt_json_string(c.split_method)
    } else if k == 13 {
        dec_repr(c.extra_split)
    } else if k == 14 {
        c.threshold
    } else if k == 15 {
        dec_repr(c.min_scene_len)
    } else if k == 16 {
        bool_repr(c.reuse_first_pass)
    } else if k == 17 {
        opt_dec_repr(c.passes)
    } else if k == 18 {
        opt_json_string(c.video_params)
    } else if k == 19 {
        json_string(c.encoder)
    } else if k == 20 {
        dec_repr(c.workers)
    } else if k == 21 {
        bool_repr(c.no_check)
    } else if k == 22 {
        bool_repr(c.force)
    } else if k == 23 {
        json_string(c.ffmpeg)
    } else if k == 24 {
        json_string(c.audio_params)
    } else if k == 25 {
        json_string(c.pix_format)
    } else if k == 26 {
        bool_repr(c.vmaf)
    } else if k == 27 {
        opt_json_string(c.vmaf_path)
    } else if k == 28 {
        json_string(c.vmaf_res)
    } else if k == 29 {
        opt_dec_repr(c.vmaf_threads)
    } else if k == 30 {
        opt_number_repr(c.target_quality)
    } else if k == 31 {
        opt_json_string(c.target_quality_method)
    } else if k == 32 {
        dec_repr(c.probes)
    } else if k == 33 {
        opt_dec_repr(c.min_q)
    } else if k == 34 {
        opt_dec_repr(c.max_q)
    } else if k == 35 {
        bool_repr(c.vmaf_plots)
    } else if k == 36 {
        dec_repr(c.probing_rate)
    } else {
        opt_json_string(c.vmaf_filter)
    }
}

pub open spec fn field_seg(c: ConfigModel, k: int) -> Seq<char> {
    name_lit(k) + val_repr(c, k)
}

/// The document up to and excluding field `k`: the opening brace and the
/// first `k` fields.
pub open spec fn ser_upto(c: ConfigModel, k: int) -> Seq<char>
    decreases k,
    when 0 <= k <= field_count()
{
    if k <= 0 {
        "{"@
    } else {
        ser_upto(c, k - 1) + field_seg(c, k - 1)
    }
}

/// The whole document: every declared field in declared order, with an
/// explicit `null` for each absent optional.
pub open spec fn spec_serialize(c: ConfigModel) -> Seq<char> {
    ser_upto(c, field_count()) + "}"@
}

// ---------------------------------------------------------------------------
// Building the document
// ---------------------------------------------------------------------------

fn digit_str(d: usize) -> (r: &'static str)
    requires
        d < 10,
    ensures
        r@ == digit_lit(d as int),
{
    if d == 0 {
        "0"
    } else if d == 1 {
        "1"
    } else if d == 2 {
        "2"
    } else if d == 3 {
        "3"
    } else if d == 4 {
        "4"
    } else if d == 5 {
        "5"
    } else if d == 6 {
        "6"
    } else if d == 7 {
        "7"
    } else if d == 8 {
        "8"
    } else {
        "9"
    }
}

fn hex_str(d: u32) -> (r: &'static str)
    requires
        d < 16,
    ensures
        r@ == hex_lit(d as int),
{
    if d == 0 {
        "0"
    } else if d == 1 {
        "1"
    } else if d == 2 {
        "2"
    } else if d == 3 {
        "3"
    } else if d == 4 {
        "4"
    } else if d == 5 {
        "5"
    } else if d == 6 {
        "6"
    } else if d == 7 {
        "7"
    } else if d == 8 {
        "8"
    } else if d == 9 {
        "9"
    } else if d == 10 {
        "a"
    } else if d == 11 {
        "b"
    } else if d == 12 {
        "c"
    } else if d == 13 {
        "d"
    } else if d == 14 {
        "e"
    } else {
        "f"
    }
}

fn append_dec(s: &mut String, n: usize)
    ensures
        final(s)@ == old(s)@ + dec_repr(n as int),
    decreases n,
{
    if n < 10 {
        s.append(digit_str(n));
    } else {
        append_dec(s, n / 10);
        s.append(digit_str(n % 10));
        proof {
            assert(s@ =~= old(s)@ + dec_repr(n as int));
        }
    }
}

fn append_json_string(s: &mut String, v: &str)
    ensures
        final(s)@ == old(s)@ + json_string(v@),
{
    s.append("\"");
    let n = v.unicode_len();
    let mut i: usize = 0;
    while i < n
        invariant
            0 <= i <= n,
            n as int == v@.len(),
            s@ == old(s)@ + "\""@ + escape(v@.subrange(0, i as int)),
        decreases n - i,
    {
        let c = v.get_char(i);
        let u = c as u32;
        if c == '"' {
            s.append("\\\"");
        } else if c == '\\' {
            s.append("\\\\");
        } else if u < 32 {
            s.append("\\u00");
            s.append(hex_str(u / 16));
            s.append(hex_str(u % 16));
        } else {
            s.append(v.substring_char(i, i + 1));
            proof {
                assert(v@.subrange(i as int, i as int + 1) =~= seq![v@[i as int]]);
            }
        }
        proof {
            assert(v@.subrange(0, i as int + 1).drop_last() =~= v@.subrange(0, i as int));
            assert(v@.subrange(0, i as int + 1).last() == v@[i as int]);
            assert(s@ =~= old(s)@ + "\""@ + escape(v@.subrange(0, i as int + 1)));
        }
        i += 1;
    }
    proof {
        assert(v@.subrange(0, n as int) =~= v@);
    }
    s.append("\"");
    proof {
        assert(s@ =~= old(s)@ + json_string(v@));
    }
}

fn append_opt_json_string(s: &mut String, v: &Option<String>)
    ensures
        final(s)@ == old(s)@ + opt_json_string(opt_string_view(*v)),
{
    match v {
        None => {
            s.append("null");
        },
        Some(x) => {
            append_json_string(s, x.as_str());
        },
    }
}

fn append_bool(s: &mut String, b: bool)
    ensures
        final(s)@ == old(s)@ + bool_repr(b),
{
    if b {
        s.append("true");
    } else {
        s.append("false");
    }
}

fn append_opt_dec_usize(s: &mut String, v: &Option<usize>)
    ensures
        final(s)@ == old(s)@ + opt_dec_repr(opt_usize_view(*v)),
{
    match v {
        None => {
            s.append("null");
        },
        Some(x) => {
            append_dec(s, *x);
        },
    }
}

fn append_opt_dec_u8(s: &mut String, v: &Option<u8>)
    ensures
        final(s)@ == old(s)@ + opt_dec_repr(opt_u8_view(*v)),
{
    match v {
        None => {
            s.append("null");
        },
        Some(x) => {
            append_dec(s, *x as usize);
        },
    }
}

fn append_opt_number(s: &mut String, v: &Option<String>)
    ensures
        final(s)@ == old(s)@ + opt_number_repr(opt_string_view(*v)),
{
    match v {
        None => {
            s.append("null");
        },
        Some(x) => {
            s.append(x.as_str());
        },
    }
}

#[verifier::rlimit(50)]
fn write_fields_a(s: &mut String, a: &Args, Ghost(c): Ghost<ConfigModel>)
    requires
        a@ == c,
        old(s)@ == ser_upto(c, 0),
    ensures
        final(s)@ == ser_upto(c, 10),
{
    s.append("\"input\":");
    append_opt_json_string(s, &a.input);
    proof {
        assert(s@ =~= ser_upto(c, 1));
    }
    s.append(",\"temp_dir\":");
    append_opt_json_string(s, &a.temp_dir);
    proof {
        assert(s@ =~= ser_upto(c, 2));
    }
    s.append(",\"output\":");
    append_opt_json_string(s, &a.output);
    proof {
        assert(s@ =~= ser_upto(c, 3));
    }
    s.append(",\"concat\":");
    append_json_string(s, a.concat.as_str());
    proof {
        assert(s@ =~= ser_upto(c, 4));
    }
    s.append(",\"quiet\":");
    append_bool(s, a.quiet);
    proof {
        assert(s@ =~= ser_upto(c, 5));
    }
    s.append(",\"log\":");
    append_opt_json_string(s, &a.log);
    proof {
        assert(s@ =~= ser_upto(c, 6));
    }
    s.append(",\"resume\":");
    append_bool(s, a.resume);
    proof {
        assert(s@ =~= ser_upto(c, 7));
    }
    s.append(",\"keep\":");
    append_bool(s, a.keep);
    proof {
        assert(s@ =~= ser_upto(c, 8));
    }
    s.append(",\"config\":");
    append_opt_json_string(s, &a.config);
    proof {
        assert(s@ =~= ser_upto(c, 9));
    }
    s.append(",\"webm\":");
    append_bool(s, a.webm);
    proof {
        assert(s@ =~= ser_upto(c, 10));
    }
}

fn write_fields_b(s: &mut String, a: &Args, Ghost(c): Ghost<ConfigModel>)
    requires
        a@ == c,
        old(s)@ == ser_upto(c, 10),
    ensures
        final(s)@ == ser_upto(c, 20),
{
        s.append(",\"chunk_method\":");
    append_json_string(s, a.chunk_method.as_str());
    proof {
        assert(s@ =~= ser_upto(c, 11));
    }
    s.append(",\"scenes\":");
    append_opt_json_string(s, &a.scenes);
    proof {
        assert(s@ =~= ser_upto(c, 12));
    }
    s.append(",\"split_method\":");
    append_opt_json_string(s, &a.split_method);
    proof {
        assert(s@ =~= ser_upto(c, 13));
    }
    s.append(",\"extra_split\":");
    append_dec(s, a.extra_split);
    proof {
        assert(s@ =~= ser_upto(c, 14));
    }
    s.append(",\"threshold\":");
    s.append(a.threshold.as_str());
    proof {
        assert(s@ =~= ser_upto(c, 15));
    }
    s.append(",\"min_scene_len\":");
    append_dec(s, a.min_scene_len);
    proof {
        assert(s@ =~= ser_upto(c, 16));
    }
    s.append(",\"reuse_first_pass\":");
    append_bool(s, a.reuse_first_pass);
    proof {
        assert(s@ =~= ser_upto(c, 17));
    }
    s.append(",\"passes\":");
    append_opt_dec_u8(s, &a.passes);
    proof {
        assert(s@ =~= ser_upto(c, 18));
    }
    s.append(",\"video_params\":");
    append_opt_json_string(s, &a.video_params);
    proof {
        assert(s@ =~= ser_upto(c, 19));
    }
    s.append(",\"encoder\":");
    append_json_string(s, a.encoder.as_str());
    proof {
        assert(s@ =~= ser_upto(c, 20));
    }
}

#[verifier::rlimit(50)]
fn write_fields_c(s: &mut String, a: &Args, Ghost(c): Ghost<ConfigModel>)
    requires
        a@ == c,
        old(s)@ == ser_upto(c, 20),
    ensures
        final(s)@ == ser_upto(c, 30),
{
        s.append(",\"workers\":");
    append_dec(s, a.workers);
    proof {
        assert(s@ =~= ser_upto(c, 21));
    }
    s.append(",\"no_check\":");
    append_bool(s, a.no_check);
    proof {
        assert(s@ =~= ser_upto(c, 22));
    }
    s.append(",\"force\":");
    append_bool(s, a.force);
    proof {
        assert(s@ =~= ser_upto(c, 23));
    }
    s.append(",\"ffmpeg\":");
    append_json_string(s, a.ffmpeg.as_str());
    proof {
        assert(s@ =~= ser_upto(c, 24));
    }
    s.append(",\"audio_params\":");
    append_json_string(s, a.audio_params.as_str());
    proof {
        assert(s@ =~= ser_upto(c, 25));
    }
    s.append(",\"pix_format\":");
    append_json_string(s, a.pix_format.as_str());
    proof {
        assert(s@ =~= ser_upto(c, 26));
    }
    s.append(",\"vmaf\":");
    append_bool(s, a.vmaf);
    proof {
        assert(s@ =~= ser_upto(c, 27));
    }
    s.append(",\"vmaf_path\":");
    append_opt_json_string(s, &a.vmaf_path);
    proof {
        assert(s@ =~= ser_upto(c, 28));
    }
    s.append(",\"vmaf_res\":");
    append_json_string(s, a.vmaf_res.as_str());
    proof {
        assert(s@ =~= ser_upto(c, 29));
    }
    s.append(",\"vmaf_threads\":");
    append_opt_dec_usize(s, &a.vmaf_threads);
    proof {
        assert(s@ =~= ser_upto(c, 30));
    }
}

fn write_fields_d(s: &mut String, a: &Args, Ghost(c): Ghost<ConfigModel>)
    requires
        a@ == c,
        old(s)@ == ser_upto(c, 30),
    ensures
        final(s)@ == ser_upto(c, 38),
{
        s.append(",\"target_quality\":");
    append_opt_number(s, &a.target_quality);
    proof {
        assert(s@ =~= ser_upto(c, 31));
    }
    s.append(",\"target_quality_method\":");
    append_opt_json_string(s, &a.target_quality_method);
    proof {
        assert(s@ =~= ser_upto(c, 32));
    }
    s.append(",\"probes\":");
    append_dec(s, a.probes);
    proof {
        assert(s@ =~= ser_upto(c, 33));
    }
    s.append(",\"min_q\":");
    append_opt_dec_u8(s, &a.min_q);
    proof {
        assert(s@ =~= ser_upto(c, 34));
    }
    s.append(",\"max_q\":");
    append_opt_dec_u8(s, &a.max_q);
    proof {
        assert(s@ =~= ser_upto(c, 35));
    }
    s.append(",\"vmaf_plots\":");
    append_bool(s, a.vmaf_plots);
    proof {
        assert(s@ =~= ser_upto(c, 36));
    }
    s.append(",\"probing_rate\":");
    append_dec(s, a.probing_rate);
    proof {
        assert(s@ =~= ser_upto(c, 37));
    }
    s.append(",\"vmaf_filter\":");
    append_opt_json_string(s, &a.vmaf_filter);
    proof {
        assert(s@ =~= ser_upto(c, 38));
    }
}

impl Args {
    /// Writes the configuration as a structured document: one entry per
    /// declared field, names and order fixed by the schema, an explicit
    /// `null` marking every absent optional. The document is a function
    /// of the configuration value alone.
    pub fn serialize(&self) -> (r: String)
        ensures
            r@ == spec_serialize(self@),
    {
        let ghost c = self@;
        let mut s = "{".to_owned();
        proof {
            assert(ser_upto(c, 0) == "{"@);
        }
        write_fields_a(&mut s, self, Ghost(c));
        write_fields_b(&mut s, self, Ghost(c));
        write_fields_c(&mut s, self, Ghost(c));
        write_fields_d(&mut s, self, Ghost(c));
        s.append("}");
        proof {
            assert(s@ =~= spec_serialize(c));
        }
        s
    }
}

} // verus!
