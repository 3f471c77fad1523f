use vstd::prelude::*;
use crate::schema::ConfigModel;
use crate::schema::PartialModel;

verus! {

pub open spec fn opt_string_view(v: Option<String>) -> Option<Seq<char>> {
    match v {
        Some(s) => Some(s@),
        None => None,
    }
}

pub open spec fn opt_usize_view(v: Option<usize>) -> Option<int> {
    match v {
        Some(n) => Some(n as int),
        None => None,
    }
}

pub open spec fn opt_u8_view(v: Option<u8>) -> Option<int> {
    match v {
        Some(n) => Some(n as int),
        None => None,
    }
}

/// A fully resolved configuration: one immutable value per declared
/// option. The two real-valued options are kept in the validated textual
/// form in which they were supplied (or their declared default), so that
/// they can stand verbatim as numbers in the serialized document.
#[derive(Debug)]
pub struct Args {
    pub input: Option<String>,
    pub temp_dir: Option<String>,
    pub output: Option<String>,
    pub concat: String,
    pub quiet: bool,
    pub log: Option<String>,
    pub resume: bool,
    pub keep: bool,
    pub config: Option<String>,
    pub webm: bool,
    pub chunk_method: String,
    pub scenes: Option<String>,
    pub split_method: Option<String>,
    pub extra_split: usize,
    pub threshold: String,
    pub min_scene_len: usize,
    pub reuse_first_pass: bool,
    pub passes: Option<u8>,
    pub video_params: Option<String>,
    pub encoder: String,
    pub workers: usize,
    pub no_check: bool,
    pub force: bool,
    pub ffmpeg: String,
    pub audio_params: String,
    pub pix_format: String,
    pub vmaf: bool,
    pub vmaf_path: Option<String>,
    pub vmaf_res: String,
    pub vmaf_threads: Option<usize>,
    pub target_quality: Option<String>,
    pub target_quality_method: Option<String>,
    pub probes: usize,
    pub min_q: Option<u8>,
    pub max_q: Option<u8>,
    pub vmaf_plots: bool,
    pub probing_rate: usize,
    pub vmaf_filter: Option<String>,
}

impl View for Args {
    type V = ConfigModel;

    open spec fn view(&self) -> ConfigModel {
        ConfigModel {
            input: opt_string_view(self.input),
            temp_dir: opt_string_view(self.temp_dir),
            output: opt_string_view(self.output),
            concat: self.concat@,
            quiet: self.quiet,
            log: opt_string_view(self.log),
            resume: self.resume,
            keep: self.keep,
            config: opt_string_view(self.config),
            webm: self.webm,
            chunk_method: self.chunk_method@,
            scenes: opt_string_view(self.scenes),
            split_method: opt_string_view(self.split_method),
            extra_split: self.extra_split as int,
            threshold: self.threshold@,
            min_scene_len: self.min_scene_len as int,
            reuse_first_pass: self.reuse_first_pass,
            passes: opt_u8_view(self.passes),
            video_params: opt_string_view(self.video_params),
            encoder: self.encoder@,
            workers: self.workers as int,
            no_check: self.no_check,
            force: self.force,
            ffmpeg: self.ffmpeg@,
            audio_params: self.audio_params@,
            pix_format: self.pix_format@,
            vmaf: self.vmaf,
            vmaf_path: opt_string_view(self.vmaf_path),
            vmaf_res: self.vmaf_res@,
            vmaf_threads: opt_usize_view(self.vmaf_threads),
            target_quality: opt_string_view(self.target_quality),
            target_quality_method: opt_string_view(self.target_quality_method),
            probes: self.probes as int,
            min_q: opt_u8_view(self.min_q),
            max_q: opt_u8_view(self.max_q),
            vmaf_plots: self.vmaf_plots,
            probing_rate: self.probing_rate as int,
            vmaf_filter: opt_string_view(self.vmaf_filter),
        }
    }
}

/// Working state of the resolution pass, before defaults are applied.
pub struct PartialArgs {
    pub input: Option<String>,
    pub temp_dir: Option<String>,
    pub output: Option<String>,
    pub concat: Option<String>,
    pub quiet: bool,
    pub log: Option<String>,
    pub resume: bool,
    pub keep: bool,
    pub config: Option<String>,
    pub webm: bool,
    pub chunk_method: Option<String>,
    pub scenes: Option<String>,
    pub split_method: Option<String>,
    pub extra_split: Option<usize>,
    pub threshold: Option<String>,
    pub min_scene_len: Option<usize>,
    pub reuse_first_pass: bool,
    pub passes: Option<u8>,
    pub video_params: Option<String>,
    pub encoder: Option<String>,
    pub workers: Option<usize>,
    pub no_check: bool,
    pub force: bool,
    pub ffmpeg: Option<String>,
    pub audio_params: Option<String>,
    pub pix_format: Option<String>,
    pub vmaf: bool,
    pub vmaf_path: Option<String>,
    pub vmaf_res: Option<String>,
    pub vmaf_threads: Option<usize>,
    pub target_quality: Option<String>,
    pub target_quality_method: Option<String>,
    pub probes: Option<usize>,
    pub min_q: Option<u8>,
    pub max_q: Option<u8>,
    pub vmaf_plots: bool,
    pub probing_rate: Option<usize>,
    pub vmaf_filter: Option<String>,
}

impl View for PartialArgs {
    type V = PartialModel;

    open spec fn view(&self) -> PartialModel {
        PartialModel {
            input: opt_string_view(self.input),
            temp_dir: opt_string_view(self.temp_dir),
            output: opt_string_view(self.output),
            concat: opt_string_view(self.concat),
            quiet: self.quiet,
            log: opt_string_view(self.log),
            resume: self.resume,
            keep: self.keep,
            config: opt_string_view(self.config),
            webm: self.webm,
            chunk_method: opt_string_view(self.chunk_method),
            scenes: opt_string_view(self.scenes),
            split_method: opt_string_view(self.split_method),
            extra_split: opt_usize_view(self.extra_split),
            threshold: opt_string_view(self.threshold),
            min_scene_len: opt_usize_view(self.min_scene_len),
            reuse_first_pass: self.reuse_first_pass,
            passes: opt_u8_view(self.passes),
            video_params: opt_string_view(self.video_params),
            encoder: opt_string_view(self.encoder),
            workers: opt_usize_view(self.workers),
            no_check: self.no_check,
            force: self.force,
            ffmpeg: opt_string_view(self.ffmpeg),
            audio_params: opt_string_view(self.audio_params),
            pix_format: opt_string_view(self.pix_format),
            vmaf: self.vmaf,
            vmaf_path: opt_string_view(self.vmaf_path),
            vmaf_res: opt_string_view(self.vmaf_res),
            vmaf_threads: opt_usize_view(self.vmaf_threads),
            target_quality: opt_string_view(self.target_quality),
            target_quality_method: opt_string_view(self.target_quality_method),
            probes: opt_usize_view(self.probes),
            min_q: opt_u8_view(self.min_q),
            max_q: opt_u8_view(self.max_q),
            vmaf_plots: self.vmaf_plots,
            probing_rate: opt_usize_view(self.probing_rate),
            vmaf_filter: opt_string_view(self.vmaf_filter),
        }
    }
}

impl Args {
    /// The cross-field constraint that the schema itself does not
    /// enforce, isolated as its own named check: when both quality
    /// bounds are present, the lower one must not exceed the upper.
    pub fn q_range_consistent(&self) -> (r: bool)
        ensures
            r == match (self@.min_q, self@.max_q) {
                (Some(lo), Some(hi)) => lo <= hi,
                _ => true,
            },
    {
        match (&self.min_q, &self.max_q) {
            (Some(lo), Some(hi)) => *lo <= *hi,
            _ => true,
        }
    }
}

impl PartialArgs {
    /// Starting state: nothing supplied.
    pub fn new() -> (r: PartialArgs)
        ensures
            r@ == crate::schema::init_partial(),
    {
        PartialArgs {
            input: None,
            temp_dir: None,
            output: None,
            concat: None,
            quiet: false,
            log: None,
            resume: false,
            keep: false,
            config: None,
            webm: false,
            chunk_method: None,
            scenes: None,
            split_method: None,
            extra_split: None,
            threshold: None,
            min_scene_len: None,
            reuse_first_pass: false,
            passes: None,
            video_params: None,
            encoder: None,
            workers: None,
            no_check: false,
            force: false,
            ffmpeg: None,
            audio_params: None,
            pix_format: None,
            vmaf: false,
            vmaf_path: None,
            vmaf_res: None,
            vmaf_threads: None,
            target_quality: None,
            target_quality_method: None,
            probes: None,
            min_q: None,
            max_q: None,
            vmaf_plots: false,
            probing_rate: None,
            vmaf_filter: None,
        }
    }
}

} // verus!
