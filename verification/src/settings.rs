//! Conversion settings: the user's choices, in a form the command builder
//! translates directly into vips arguments.
//!
//! Option names in the doc comments match the libvips save option names.
//! Defaults match the libvips defaults except where noted.

use vstd::prelude::*;
use crate::path::{dir_prefix, file_stem, join, chars_of_stem, push_joined, stripped_dir_prefix};
use crate::text::{chars_of, push_chars};
use crate::worker::{default_worker_count_for, DEFAULT_VIPS_CONCURRENCY};

verus! {

/// Chroma subsampling control, shared by `jpegsave` and `heifsave`.
#[derive(Debug, Clone, Copy, PartialEq, Eq, Structural, Hash)]
pub enum SubsampleMode {
    /// `subsample-mode=auto`: libvips disables subsampling at Q >= 90.
    Auto,
    /// `subsample-mode=on`: always subsample (smaller, softer colour).
    On,
    /// `subsample-mode=off`: never subsample (larger, sharper colour).
    Off,
}

impl SubsampleMode {
    /// The value libvips expects, as text.
    pub open spec fn vips_text(self) -> Seq<char> {
        match self {
            SubsampleMode::Auto => "auto"@,
            SubsampleMode::On => "on"@,
            SubsampleMode::Off => "off"@,
        }
    }

    /// The value libvips expects.
    pub fn as_vips(self) -> (r: &'static str)
        ensures
            r@ == self.vips_text(),
    {
        match self {
            SubsampleMode::Auto => "auto",
            SubsampleMode::On => "on",
            SubsampleMode::Off => "off",
        }
    }

    pub open spec fn label_text(self) -> Seq<char> {
        match self {
            SubsampleMode::Auto => "Auto (off above Q90)"@,
            SubsampleMode::On => "Always on"@,
            SubsampleMode::Off => "Always off"@,
        }
    }

    pub fn label(self) -> (r: &'static str)
        ensures
            r@ == self.label_text(),
    {
        match self {
            SubsampleMode::Auto => "Auto (off above Q90)",
            SubsampleMode::On => "Always on",
            SubsampleMode::Off => "Always off",
        }
    }

    pub const ALL: [Self; 3] = [Self::Auto, Self::On, Self::Off];
}

impl Default for SubsampleMode {
    fn default() -> (r: Self)
        ensures
            r == SubsampleMode::Auto,
    {
        SubsampleMode::Auto
    }
}

/// `webpsave` tuning preset.
#[derive(Debug, Clone, Copy, PartialEq, Eq, Structural, Hash)]
pub enum WebpPreset {
    Default,
    Picture,
    Photo,
    Drawing,
    Icon,
    Text,
}

impl WebpPreset {
    pub open spec fn vips_text(self) -> Seq<char> {
        match self {
            WebpPreset::Default => "default"@,
            WebpPreset::Picture => "picture"@,
            WebpPreset::Photo => "photo"@,
            WebpPreset::Drawing => "drawing"@,
            WebpPreset::Icon => "icon"@,
            WebpPreset::Text => "text"@,
        }
    }

    pub fn as_vips(self) -> (r: &'static str)
        ensures
            r@ == self.vips_text(),
    {
        match self {
            WebpPreset::Default => "default",
            WebpPreset::Picture => "picture",
            WebpPreset::Photo => "photo",
            WebpPreset::Drawing => "drawing",
            WebpPreset::Icon => "icon",
            WebpPreset::Text => "text",
        }
    }

    pub open spec fn label_text(self) -> Seq<char> {
        match self {
            WebpPreset::Default => "Default"@,
            WebpPreset::Picture => "Picture"@,
            WebpPreset::Photo => "Photo"@,
            WebpPreset::Drawing => "Drawing"@,
            WebpPreset::Icon => "Icon"@,
            WebpPreset::Text => "Text"@,
        }
    }

    pub fn label(self) -> (r: &'static str)
        ensures
            r@ == self.label_text(),
    {
        match self {
            WebpPreset::Default => "Default",
            WebpPreset::Picture => "Picture",
            WebpPreset::Photo => "Photo",
            WebpPreset::Drawing => "Drawing",
            WebpPreset::Icon => "Icon",
            WebpPreset::Text => "Text",
        }
    }

    pub const ALL: [Self; 6] = [
        Self::Default,
        Self::Picture,
        Self::Photo,
        Self::Drawing,
        Self::Icon,
        Self::Text,
    ];
}

impl Default for WebpPreset {
    fn default() -> (r: Self)
        ensures
            r == WebpPreset::Default,
    {
        WebpPreset::Default
    }
}

/// JPEG encoder settings (`jpegsave`).
#[derive(Debug, Clone, Copy, PartialEq, Eq, Structural)]
pub struct JpegOptions {
    /// `Q`, 1-100.
    pub quality: u8,
    /// `optimize-coding`: compute optimal Huffman tables. Smaller, slower.
    pub optimize_coding: bool,
    /// `interlace`: progressive JPEG.
    pub progressive: bool,
    /// `optimize-scans`: split DCT coefficients into separate scans.
    /// Only meaningful for progressive JPEGs.
    pub optimize_scans: bool,
    /// `trellis-quant`: trellis quantisation per 8x8 block.
    pub trellis_quant: bool,
    /// `overshoot-deringing`: reduce ringing around hard edges.
    pub overshoot_deringing: bool,
    /// `quant-table`, 0-8. Table 3 is often better for photos than the default.
    pub quant_table: u8,
    /// `subsample-mode`.
    pub subsample: SubsampleMode,
}

/// The JPEG defaults: Q80 (libvips uses 75), optimised Huffman tables and a
/// progressive scan.
pub open spec fn default_jpeg() -> JpegOptions {
    JpegOptions {
        quality: 80,
        optimize_coding: true,
        progressive: true,
        optimize_scans: false,
        trellis_quant: false,
        overshoot_deringing: false,
        quant_table: 0,
        subsample: SubsampleMode::Auto,
    }
}

impl Default for JpegOptions {
    fn default() -> (r: Self)
        ensures
            r == default_jpeg(),
    {
        JpegOptions {
            quality: 80,
            optimize_coding: true,
            progressive: true,
            optimize_scans: false,
            trellis_quant: false,
            overshoot_deringing: false,
            quant_table: 0,
            subsample: SubsampleMode::Auto,
        }
    }
}

/// PNG encoder settings (`pngsave`).
#[derive(Debug, Clone, Copy, PartialEq, Eq, Structural)]
pub struct PngOptions {
    /// `compression`, 0-9 (zlib level).
    pub compression: u8,
    /// `interlace`: Adam7. Usually makes files bigger.
    pub interlace: bool,
    /// `palette`: quantise to a palette. This is what makes PNGs small.
    pub palette: bool,
    /// `Q`, 0-100: palette quantisation quality. Only used when `palette`.
    pub quality: u8,
    /// `dither` in hundredths: 0-100 stands for 0.0-1.0. Only used when
    /// `palette`.
    pub dither_hundredths: u32,
    /// `bitdepth`: 1, 2, 4, 8 or 16.
    pub bitdepth: u8,
    /// `effort`, 1-10: quantisation CPU effort. Only used when `palette`.
    pub effort: u8,
}

pub open spec fn default_png() -> PngOptions {
    PngOptions {
        compression: 6,
        interlace: false,
        palette: false,
        quality: 100,
        dither_hundredths: 100,
        bitdepth: 8,
        effort: 7,
    }
}

impl Default for PngOptions {
    fn default() -> (r: Self)
        ensures
            r == default_png(),
    {
        PngOptions {
            compression: 6,
            interlace: false,
            palette: false,
            quality: 100,
            dither_hundredths: 100,
            bitdepth: 8,
            effort: 7,
        }
    }
}

/// WebP encoder settings (`webpsave`).
#[derive(Debug, Clone, Copy, PartialEq, Eq, Structural)]
pub struct WebpOptions {
    /// `Q`, 0-100. In near-lossless mode this selects the preprocessing level.
    pub quality: u8,
    /// `lossless`.
    pub lossless: bool,
    /// `near-lossless`: lossless with lossy preprocessing, driven by `Q`.
    pub near_lossless: bool,
    /// `effort`, 0-6.
    pub effort: u8,
    /// `alpha-q`, 0-100: alpha channel fidelity in lossy mode.
    pub alpha_quality: u8,
    /// `smart-subsample`: higher quality chroma subsampling.
    pub smart_subsample: bool,
    /// `preset`.
    pub preset: WebpPreset,
    /// `min-size`: optimise hard for size. Slow.
    pub min_size: bool,
}

pub open spec fn default_webp() -> WebpOptions {
    WebpOptions {
        quality: 80,
        lossless: false,
        near_lossless: false,
        effort: 4,
        alpha_quality: 100,
        smart_subsample: false,
        preset: WebpPreset::Default,
        min_size: false,
    }
}

impl Default for WebpOptions {
    fn default() -> (r: Self)
        ensures
            r == default_webp(),
    {
        WebpOptions {
            quality: 80,
            lossless: false,
            near_lossless: false,
            effort: 4,
            alpha_quality: 100,
            smart_subsample: false,
            preset: WebpPreset::Default,
            min_size: false,
        }
    }
}

/// AVIF encoder settings (`heifsave` with an `.avif` target).
#[derive(Debug, Clone, Copy, PartialEq, Eq, Structural)]
pub struct AvifOptions {
    /// `Q`, 1-100. AVIF Q30 is roughly JPEG Q75.
    pub quality: u8,
    /// `lossless`.
    pub lossless: bool,
    /// `effort`, 0-9. Slow but effective; this is the main size lever.
    pub effort: u8,
    /// `bitdepth`: 8, 10 or 12.
    pub bitdepth: u8,
    /// `subsample-mode`.
    pub subsample: SubsampleMode,
}

/// The AVIF defaults. libvips defaults `heifsave` to 12 bits; 8 is used here
/// because 12-bit AVIF is rejected or mis-rendered by many consumers.
pub open spec fn default_avif() -> AvifOptions {
    AvifOptions {
        quality: 50,
        lossless: false,
        effort: 4,
        bitdepth: 8,
        subsample: SubsampleMode::Auto,
    }
}

impl Default for AvifOptions {
    fn default() -> (r: Self)
        ensures
            r == default_avif(),
    {
        AvifOptions {
            quality: 50,
            lossless: false,
            effort: 4,
            bitdepth: 8,
            subsample: SubsampleMode::Auto,
        }
    }
}

/// Output image format.
#[derive(Debug, Clone, Copy, PartialEq, Eq, Structural, Hash)]
pub enum OutputFormat {
    Jpeg,
    Webp,
    Png,
    Avif,
}

/// Every output format, in the declared order.
pub open spec fn all_formats() -> Seq<OutputFormat> {
    seq![OutputFormat::Jpeg, OutputFormat::Png, OutputFormat::Webp, OutputFormat::Avif]
}

impl OutputFormat {
    pub open spec fn ext_text(self) -> Seq<char> {
        match self {
            OutputFormat::Jpeg => "jpg"@,
            OutputFormat::Png => "png"@,
            OutputFormat::Webp => "webp"@,
            OutputFormat::Avif => "avif"@,
        }
    }

    /// File extension, without the dot.
    pub fn extension(self) -> (r: &'static str)
        ensures
            r@ == self.ext_text(),
    {
        match self {
            OutputFormat::Jpeg => "jpg",
            OutputFormat::Png => "png",
            OutputFormat::Webp => "webp",
            OutputFormat::Avif => "avif",
        }
    }

    pub open spec fn label_text(self) -> Seq<char> {
        match self {
            OutputFormat::Jpeg => "JPEG"@,
            OutputFormat::Png => "PNG"@,
            OutputFormat::Webp => "WebP"@,
            OutputFormat::Avif => "AVIF"@,
        }
    }

    pub fn label(self) -> (r: &'static str)
        ensures
            r@ == self.label_text(),
    {
        match self {
            OutputFormat::Jpeg => "JPEG",
            OutputFormat::Png => "PNG",
            OutputFormat::Webp => "WebP",
            OutputFormat::Avif => "AVIF",
        }
    }

    pub open spec fn saver_text(self) -> Seq<char> {
        match self {
            OutputFormat::Jpeg => "jpegsave"@,
            OutputFormat::Png => "pngsave"@,
            OutputFormat::Webp => "webpsave"@,
            OutputFormat::Avif => "heifsave"@,
        }
    }

    /// The libvips saver this format uses, for capability checks and messages.
    pub fn saver_name(self) -> (r: &'static str)
        ensures
            r@ == self.saver_text(),
    {
        match self {
            OutputFormat::Jpeg => "jpegsave",
            OutputFormat::Png => "pngsave",
            OutputFormat::Webp => "webpsave",
            OutputFormat::Avif => "heifsave",
        }
    }

    pub const ALL: [Self; 4] = [Self::Jpeg, Self::Png, Self::Webp, Self::Avif];
}

impl Default for OutputFormat {
    /// WebP: broad support and a good ratio.
    fn default() -> (r: Self)
        ensures
            r == OutputFormat::Webp,
    {
        OutputFormat::Webp
    }
}

/// Downscaling settings. Upscaling is never done unless explicitly allowed.
#[derive(Debug, Clone, Copy, PartialEq, Eq, Structural)]
pub struct ResizeSettings {
    pub enabled: bool,
    /// Bounding box width in pixels.
    pub max_width: u32,
    /// Bounding box height in pixels.
    pub max_height: u32,
    /// When true, images smaller than the box are left alone
    /// (`--size down`). When false, they are enlarged (`--size both`).
    pub never_upscale: bool,
}

pub open spec fn default_resize() -> ResizeSettings {
    ResizeSettings { enabled: false, max_width: 1920, max_height: 1920, never_upscale: true }
}

impl Default for ResizeSettings {
    fn default() -> (r: Self)
        ensures
            r == default_resize(),
    {
        ResizeSettings { enabled: false, max_width: 1920, max_height: 1920, never_upscale: true }
    }
}

/// What to do when the output path already exists.
#[derive(Debug, Clone, Copy, PartialEq, Eq, Structural)]
pub enum OverwritePolicy {
    /// Leave the existing file alone and report the job as skipped.
    Skip,
    /// Replace it.
    Overwrite,
    /// Write `name (1).ext`, `name (2).ext`, and so on. The default, because it
    /// makes a same-format conversion into the source folder incapable of
    /// destroying the input.
    Rename,
}

impl OverwritePolicy {
    pub open spec fn label_text(self) -> Seq<char> {
        match self {
            OverwritePolicy::Skip => "Skip existing files"@,
            OverwritePolicy::Overwrite => "Overwrite existing files"@,
            OverwritePolicy::Rename => "Rename to avoid collisions"@,
        }
    }

    pub fn label(self) -> (r: &'static str)
        ensures
            r@ == self.label_text(),
    {
        match self {
            OverwritePolicy::Skip => "Skip existing files",
            OverwritePolicy::Overwrite => "Overwrite existing files",
            OverwritePolicy::Rename => "Rename to avoid collisions",
        }
    }

    pub const ALL: [Self; 3] = [Self::Rename, Self::Skip, Self::Overwrite];
}

impl Default for OverwritePolicy {
    fn default() -> (r: Self)
        ensures
            r == OverwritePolicy::Rename,
    {
        OverwritePolicy::Rename
    }
}

/// Where converted files go.
#[derive(Debug, Clone, PartialEq, Eq)]
pub enum OutputDestination {
    /// Alongside each input file.
    SameAsSource,
    /// A single directory for every output.
    Directory(String),
}

impl Default for OutputDestination {
    fn default() -> (r: Self)
        ensures
            r is SameAsSource,
    {
        OutputDestination::SameAsSource
    }
}

/// How much of the machine to use for a batch. Kept apart from
/// [`ConversionSettings`] because it does not affect the output.
#[derive(Debug, Clone, Copy, PartialEq, Eq, Structural)]
pub struct PerformanceSettings {
    /// Number of files converted at once.
    pub workers: usize,
    /// Thread pool size inside each `vips` child (`VIPS_CONCURRENCY`).
    pub vips_concurrency: usize,
}

/// Upper bound on workers for a machine reporting `parallelism` cores
/// (4 when unknown), never below 1.
pub open spec fn max_workers_spec(parallelism: Option<usize>) -> usize {
    let n = match parallelism {
        Some(n) => n,
        None => 4,
    };
    if n < 1 {
        1
    } else {
        n
    }
}

/// `min(max(v, lo), hi)` for `lo <= hi`.
pub open spec fn clamp(v: usize, lo: usize, hi: usize) -> usize {
    if v < lo {
        lo
    } else if v > hi {
        hi
    } else {
        v
    }
}

impl PerformanceSettings {
    /// The defaults for a machine reporting `parallelism` cores.
    pub fn for_parallelism(parallelism: Option<usize>) -> (r: Self)
        ensures
            r.workers == crate::worker::default_workers_spec(parallelism),
            r.vips_concurrency == DEFAULT_VIPS_CONCURRENCY,
    {
        PerformanceSettings {
            workers: default_worker_count_for(parallelism),
            vips_concurrency: DEFAULT_VIPS_CONCURRENCY,
        }
    }

    /// The largest worker count offered for a machine reporting
    /// `parallelism` cores. Beyond the core count there is nothing to gain.
    pub fn max_workers(parallelism: Option<usize>) -> (r: usize)
        ensures
            r == max_workers_spec(parallelism),
            r >= 1,
    {
        let n = match parallelism {
            Some(n) => n,
            None => 4,
        };
        if n < 1 {
            1
        } else {
            n
        }
    }

    /// Clamp to what a machine offering `max_workers` workers can sensibly
    /// run, in case a persisted value came from a very different computer.
    pub fn sanitised(self, max_workers: usize) -> (r: Self)
        ensures
            r.workers == clamp(self.workers, 1, if max_workers < 1 { 1 } else { max_workers }),
            r.vips_concurrency == clamp(self.vips_concurrency, 1, 32),
            1 <= r.workers,
            max_workers >= 1 ==> r.workers <= max_workers,
            1 <= r.vips_concurrency <= 32,
    {
        let hi = if max_workers < 1 {
            1
        } else {
            max_workers
        };
        let workers = if self.workers < 1 {
            1
        } else if self.workers > hi {
            hi
        } else {
            self.workers
        };
        let vips_concurrency = if self.vips_concurrency < 1 {
            1
        } else if self.vips_concurrency > 32 {
            32
        } else {
            self.vips_concurrency
        };
        PerformanceSettings { workers, vips_concurrency }
    }
}

/// The complete set of conversion choices.
#[derive(Debug, Clone, PartialEq, Eq)]
pub struct ConversionSettings {
    pub format: OutputFormat,
    pub jpeg: JpegOptions,
    pub png: PngOptions,
    pub webp: WebpOptions,
    pub avif: AvifOptions,
    pub resize: ResizeSettings,
    /// Drop EXIF, XMP, IPTC, ICC and friends (`keep=none`, or `strip` on
    /// libvips older than 8.15).
    pub strip_metadata: bool,
    pub destination: OutputDestination,
    pub overwrite: OverwritePolicy,
}

/// A first run: WebP, every option at its default, no resize, metadata kept,
/// output next to the source, and collisions renamed.
pub open spec fn default_settings() -> ConversionSettings {
    ConversionSettings {
        format: OutputFormat::Webp,
        jpeg: default_jpeg(),
        png: default_png(),
        webp: default_webp(),
        avif: default_avif(),
        resize: default_resize(),
        strip_metadata: false,
        destination: OutputDestination::SameAsSource,
        overwrite: OverwritePolicy::Rename,
    }
}

impl Default for ConversionSettings {
    fn default() -> (r: Self)
        ensures
            r == default_settings(),
    {
        ConversionSettings {
            format: OutputFormat::Webp,
            jpeg: JpegOptions::default(),
            png: PngOptions::default(),
            webp: WebpOptions::default(),
            avif: AvifOptions::default(),
            resize: ResizeSettings::default(),
            strip_metadata: false,
            destination: OutputDestination::SameAsSource,
            overwrite: OverwritePolicy::Rename,
        }
    }
}

/// `supported` may answer `b` for format `f`.
pub open spec fn answers<F: Fn(OutputFormat) -> bool>(supported: F, f: OutputFormat, b: bool) -> bool {
    call_ensures(supported, (f,), b)
}

/// `chosen` is the first format in the declared order that `supported`
/// accepted, or `unchanged` when it accepted none.
pub open spec fn first_supported<F: Fn(OutputFormat) -> bool>(
    supported: F,
    chosen: OutputFormat,
    unchanged: OutputFormat,
) -> bool {
    ||| exists|i: int|
        0 <= i < 4 && chosen == all_formats()[i] && answers(supported, all_formats()[i], true)
            && forall|j: int| 0 <= j < i ==> answers(supported, #[trigger] all_formats()[j], false)
    ||| chosen == unchanged && forall|j: int|
        0 <= j < 4 ==> answers(supported, #[trigger] all_formats()[j], false)
}

/// The file name an input gets in `format`: its stem, a dot and the format's
/// extension. An input with no file name has an empty stem.
pub open spec fn output_file_name(input: Seq<char>, format: OutputFormat) -> Seq<char> {
    let stem = match file_stem(input) {
        Some(s) => s,
        None => Seq::empty(),
    };
    stem.push('.') + format.ext_text()
}

/// Where the output for `input` goes, before collision handling.
pub open spec fn output_path(settings: ConversionSettings, input: Seq<char>) -> Seq<char> {
    let name = output_file_name(input, settings.format);
    match settings.destination {
        OutputDestination::SameAsSource => dir_prefix(input) + name,
        OutputDestination::Directory(dir) => join(dir@, name),
    }
}

impl ConversionSettings {
    /// Switch away from a format the installed libvips cannot write.
    ///
    /// Settings persist across runs but the libvips on PATH can change. The
    /// replacement is the first format in the declared order that is
    /// supported; with none supported the selection is left alone. Returns
    /// the format that was abandoned, if any.
    pub fn ensure_format_supported<F: Fn(OutputFormat) -> bool>(&mut self, supported: F) -> (r:
        Option<OutputFormat>)
        requires
            forall|f: OutputFormat| call_requires(supported, (f,)),
        ensures
            final(self).jpeg == old(self).jpeg,
            final(self).png == old(self).png,
            final(self).webp == old(self).webp,
            final(self).avif == old(self).avif,
            final(self).resize == old(self).resize,
            final(self).strip_metadata == old(self).strip_metadata,
            final(self).destination == old(self).destination,
            final(self).overwrite == old(self).overwrite,
            match r {
                None => answers(supported, old(self).format, true) && final(self).format == old(
                    self,
                ).format,
                Some(g) => g == old(self).format && answers(supported, g, false) && first_supported(
                    supported,
                    final(self).format,
                    old(self).format,
                ),
            },
    {
        let original = self.format;
        if supported(original) {
            return None;
        }
        let jpeg = supported(OutputFormat::Jpeg);
        if jpeg {
            self.format = OutputFormat::Jpeg;
            assert(all_formats()[0] == OutputFormat::Jpeg);
            return Some(original);
        }
        let png = supported(OutputFormat::Png);
        if png {
            self.format = OutputFormat::Png;
            assert(all_formats()[1] == OutputFormat::Png);
            assert(forall|j: int| 0 <= j < 1 ==> all_formats()[j] == OutputFormat::Jpeg);
            return Some(original);
        }
        let webp = supported(OutputFormat::Webp);
        if webp {
            self.format = OutputFormat::Webp;
            assert(all_formats()[2] == OutputFormat::Webp);
            assert(forall|j: int|
                0 <= j < 2 ==> all_formats()[j] == OutputFormat::Jpeg || all_formats()[j]
                    == OutputFormat::Png);
            return Some(original);
        }
        let avif = supported(OutputFormat::Avif);
        if avif {
            self.format = OutputFormat::Avif;
            assert(all_formats()[3] == OutputFormat::Avif);
            assert(forall|j: int|
                0 <= j < 3 ==> all_formats()[j] == OutputFormat::Jpeg || all_formats()[j]
                    == OutputFormat::Png || all_formats()[j] == OutputFormat::Webp);
            return Some(original);
        }
        assert(forall|j: int|
            0 <= j < 4 ==> all_formats()[j] == OutputFormat::Jpeg || all_formats()[j]
                == OutputFormat::Png || all_formats()[j] == OutputFormat::Webp || all_formats()[j]
                == OutputFormat::Avif);
        Some(original)
    }

    /// Resolve the output path for one input, before collision handling.
    pub fn output_path_for(&self, input: &str) -> (r: String)
        ensures
            r@ == output_path(*self, input@),
    {
        let p = chars_of(input);
        let mut name = chars_of_stem(p.as_slice());
        name.push('.');
        let ext = chars_of(self.format.extension());
        let mut i: usize = 0;
        let ghost base = name@;
        while i < ext.len()
            invariant
                0 <= i <= ext@.len(),
                name@ == base + ext@.subrange(0, i as int),
            decreases ext@.len() - i,
        {
            name.push(ext[i]);
            i += 1;
            assert(name@ =~= base + ext@.subrange(0, i as int));
        }
        assert(ext@.subrange(0, ext@.len() as int) =~= ext@);
        assert(name@ == output_file_name(input@, self.format));
        let mut out = String::new();
        match &self.destination {
            OutputDestination::SameAsSource => {
                let prefix = stripped_dir_prefix(p.as_slice());
                push_chars(&mut out, prefix.as_slice());
                push_chars(&mut out, name.as_slice());
            },
            OutputDestination::Directory(dir) => {
                let d = chars_of(dir.as_str());
                push_joined(&mut out, d.as_slice(), name.as_slice());
            },
        }
        assert(out@ =~= output_path(*self, input@));
        out
    }
}

/// Two sets of choices that produce the same output: equal in every field,
/// the destination folder compared by its text.
pub open spec fn same_settings(a: ConversionSettings, b: ConversionSettings) -> bool {
    &&& a.format == b.format
    &&& a.jpeg == b.jpeg
    &&& a.png == b.png
    &&& a.webp == b.webp
    &&& a.avif == b.avif
    &&& a.resize == b.resize
    &&& a.strip_metadata == b.strip_metadata
    &&& a.overwrite == b.overwrite
    &&& match (a.destination, b.destination) {
        (OutputDestination::SameAsSource, OutputDestination::SameAsSource) => true,
        (OutputDestination::Directory(x), OutputDestination::Directory(y)) => x@ == y@,
        _ => false,
    }
}

impl ConversionSettings {
    /// Whether `other` makes the same choices.
    pub fn same_as(&self, other: &ConversionSettings) -> (r: bool)
        ensures
            r == same_settings(*self, *other),
    {
        let destination = match (&self.destination, &other.destination) {
            (OutputDestination::SameAsSource, OutputDestination::SameAsSource) => true,
            (OutputDestination::Directory(x), OutputDestination::Directory(y)) => *x == *y,
            _ => false,
        };
        self.format == other.format && self.jpeg == other.jpeg && self.png == other.png
            && self.webp == other.webp && self.avif == other.avif && self.resize == other.resize
            && self.strip_metadata == other.strip_metadata && self.overwrite == other.overwrite
            && destination
    }

    /// A copy making the same choices.
    pub fn duplicate(&self) -> (r: ConversionSettings)
        ensures
            same_settings(r, *self),
    {
        let destination = match &self.destination {
            OutputDestination::SameAsSource => OutputDestination::SameAsSource,
            OutputDestination::Directory(d) => OutputDestination::Directory(d.clone()),
        };
        ConversionSettings {
            format: self.format,
            jpeg: self.jpeg,
            png: self.png,
            webp: self.webp,
            avif: self.avif,
            resize: self.resize,
            strip_metadata: self.strip_metadata,
            destination,
            overwrite: self.overwrite,
        }
    }
}


/// Any change is seen: two sets of choices that differ in any one of them
/// (the format, any encoder option of any format, the resize box, metadata,
/// the overwrite policy, or where the output goes) are not the same, while
/// a set of choices is the same as itself, whichever way round it is asked.
pub proof fn lemma_any_change_is_seen(a: ConversionSettings, b: ConversionSettings)
    ensures
        same_settings(a, a),
        same_settings(a, b) == same_settings(b, a),
        a.format != b.format ==> !same_settings(a, b),
        a.jpeg != b.jpeg ==> !same_settings(a, b),
        a.png != b.png ==> !same_settings(a, b),
        a.webp != b.webp ==> !same_settings(a, b),
        a.avif != b.avif ==> !same_settings(a, b),
        a.resize != b.resize ==> !same_settings(a, b),
        a.strip_metadata != b.strip_metadata ==> !same_settings(a, b),
        a.overwrite != b.overwrite ==> !same_settings(a, b),
        (a.destination is SameAsSource) != (b.destination is SameAsSource) ==> !same_settings(a, b),
        (a.destination matches OutputDestination::Directory(x) && b.destination matches OutputDestination::Directory(y) && x@ != y@)
            ==> !same_settings(a, b),
{
}

} // verus!
