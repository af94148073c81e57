//! Turning [`ConversionSettings`] into vips command-line arguments.
//!
//! Everything here is a pure function of the settings. Two command shapes
//! cover every case:
//!
//! - No resize: `vips copy IN OUT[opts]`
//! - Resize:    `vips thumbnail IN OUT[opts] WIDTH --height H --size down`
//!
//! `thumbnail` is used rather than `resize` because it shrinks on load.
//! Encoder options ride along in the `[key=value,...]` suffix on the output
//! filename, using the hyphenated option names of the libvips reference.

use vstd::prelude::*;
use crate::settings::{
    output_path, same_settings, AvifOptions, ConversionSettings, JpegOptions, OutputFormat,
    PngOptions, SubsampleMode, WebpOptions, WebpPreset,
};
use crate::text::{decimal, digit, has_prefix, lemma_decimal_digits, push_char, push_decimal};
use super::discovery::{version_ge, VipsVersion};

verus! {

/// The vips subcommand plus all its arguments, ready for `Command::args`.
#[derive(Debug, Clone, PartialEq, Eq)]
pub struct VipsArgs(pub Vec<String>);

/// The texts of a list of strings.
pub open spec fn texts(v: Seq<String>) -> Seq<Seq<char>> {
    v.map_values(|s: String| s@)
}

impl View for VipsArgs {
    type V = Seq<Seq<char>>;

    open spec fn view(&self) -> Seq<Seq<char>> {
        texts(self.0@)
    }
}

/// `parts` joined with `sep` between neighbours.
pub open spec fn join_with(parts: Seq<Seq<char>>, sep: char) -> Seq<char>
    decreases parts.len(),
{
    if parts.len() == 0 {
        Seq::empty()
    } else if parts.len() == 1 {
        parts[0]
    } else {
        join_with(parts.drop_last(), sep).push(sep) + parts.last()
    }
}

/// How an argument is shown in a message: quoted when it holds a space.
pub open spec fn display_arg(a: Seq<char>) -> Seq<char> {
    if a.contains(' ') {
        seq!['"'] + a + seq!['"']
    } else {
        a
    }
}

/// `s` with `x` appended when `b` holds.
pub open spec fn push_if(s: Seq<Seq<char>>, b: bool, x: Seq<char>) -> Seq<Seq<char>> {
    if b {
        s.push(x)
    } else {
        s
    }
}

/// A value in hundredths as libvips wants it: `1`, `0.5` or `0.25`, never
/// `1.00` or a locale's decimal comma.
pub open spec fn hundredths_text(h: nat) -> Seq<char> {
    let whole = decimal(h / 100);
    let frac = h % 100;
    if frac == 0 {
        whole
    } else if frac % 10 == 0 {
        whole.push('.').push(digit(frac / 10))
    } else {
        whole.push('.').push(digit(frac / 10)).push(digit(frac % 10))
    }
}

/// `jpegsave` options. Booleans appear only when enabled, since libvips
/// defaults them to false; `optimize-scans` only with a progressive scan;
/// the quantisation table and subsampling only when not the default.
pub open spec fn jpeg_options_spec(o: JpegOptions) -> Seq<Seq<char>> {
    let s = seq!["Q="@ + decimal(o.quality as nat)];
    let s = push_if(s, o.optimize_coding, "optimize-coding=true"@);
    let s = push_if(s, o.progressive, "interlace=true"@);
    let s = push_if(s, o.optimize_scans && o.progressive, "optimize-scans=true"@);
    let s = push_if(s, o.trellis_quant, "trellis-quant=true"@);
    let s = push_if(s, o.overshoot_deringing, "overshoot-deringing=true"@);
    let s = push_if(s, o.quant_table != 0, "quant-table="@ + decimal(o.quant_table as nat));
    push_if(s, o.subsample != SubsampleMode::Auto, "subsample-mode="@ + o.subsample.vips_text())
}

/// `pngsave` options. Q, dither and effort only mean anything to the
/// quantiser, so they come only with `palette`; bit depth 8 is the default.
pub open spec fn png_options_spec(o: PngOptions) -> Seq<Seq<char>> {
    let s = seq!["compression="@ + decimal(o.compression as nat)];
    let s = push_if(s, o.interlace, "interlace=true"@);
    let s = push_if(s, o.palette, "palette=true"@);
    let s = push_if(s, o.palette, "Q="@ + decimal(o.quality as nat));
    let s = push_if(s, o.palette, "dither="@ + hundredths_text(o.dither_hundredths as nat));
    let s = push_if(s, o.palette, "effort="@ + decimal(o.effort as nat));
    push_if(s, o.bitdepth != 8, "bitdepth="@ + decimal(o.bitdepth as nat))
}

/// `webpsave` options. Alpha quality is a lossy-mode control whose default
/// is 100.
pub open spec fn webp_options_spec(o: WebpOptions) -> Seq<Seq<char>> {
    let s = seq!["Q="@ + decimal(o.quality as nat)];
    let s = push_if(s, o.lossless, "lossless=true"@);
    let s = push_if(s, o.near_lossless, "near-lossless=true"@);
    let s = s.push("effort="@ + decimal(o.effort as nat));
    let s = push_if(
        s,
        o.alpha_quality != 100 && !o.lossless,
        "alpha-q="@ + decimal(o.alpha_quality as nat),
    );
    let s = push_if(s, o.smart_subsample, "smart-subsample=true"@);
    let s = push_if(s, o.preset != WebpPreset::Default, "preset="@ + o.preset.vips_text());
    push_if(s, o.min_size, "min-size=true"@)
}

/// `heifsave` options. The bit depth is always explicit, because libvips
/// would otherwise default to 12.
pub open spec fn avif_options_spec(o: AvifOptions) -> Seq<Seq<char>> {
    let s = seq!["Q="@ + decimal(o.quality as nat)];
    let s = push_if(s, o.lossless, "lossless=true"@);
    let s = s.push("effort="@ + decimal(o.effort as nat));
    let s = s.push("bitdepth="@ + decimal(o.bitdepth as nat));
    push_if(s, o.subsample != SubsampleMode::Auto, "subsample-mode="@ + o.subsample.vips_text())
}

/// The option that discards metadata: `keep=none` from libvips 8.15 on,
/// `strip=true` before.
pub open spec fn strip_text(version: VipsVersion) -> Seq<char> {
    if version_ge(version, VipsVersion { major: 8, minor: 15, patch: 0 }) {
        "keep=none"@
    } else {
        "strip=true"@
    }
}

/// The save options for the selected format, in a fixed order, with the
/// format-independent metadata option last.
pub open spec fn save_options_spec(settings: ConversionSettings, version: VipsVersion) -> Seq<
    Seq<char>,
> {
    let s = match settings.format {
        OutputFormat::Jpeg => jpeg_options_spec(settings.jpeg),
        OutputFormat::Png => png_options_spec(settings.png),
        OutputFormat::Webp => webp_options_spec(settings.webp),
        OutputFormat::Avif => avif_options_spec(settings.avif),
    };
    push_if(s, settings.strip_metadata, strip_text(version))
}

/// The output path with its `[key=value,...]` option suffix attached.
pub open spec fn target_spec(
    settings: ConversionSettings,
    output: Seq<char>,
    version: VipsVersion,
) -> Seq<char> {
    let opts = save_options_spec(settings, version);
    if opts.len() == 0 {
        output
    } else {
        output.push('[') + join_with(opts, ',').push(']')
    }
}

/// The full argument list for one conversion.
pub open spec fn build_spec(
    settings: ConversionSettings,
    input: Seq<char>,
    output: Seq<char>,
    version: VipsVersion,
) -> Seq<Seq<char>> {
    let target = target_spec(settings, output, version);
    if settings.resize.enabled {
        seq![
            "thumbnail"@,
            input,
            target,
            decimal(settings.resize.max_width as nat),
            "--height"@,
            decimal(settings.resize.max_height as nat),
            "--size"@,
            if settings.resize.never_upscale {
                "down"@
            } else {
                "both"@
            },
        ]
    } else {
        seq!["copy"@, input, target]
    }
}

/// Append `s` to a list of options.
fn push_text(opts: &mut Vec<String>, s: String)
    ensures
        texts(final(opts)@) == texts(old(opts)@).push(s@),
{
    opts.push(s);
    assert(texts(opts@) =~= texts(old(opts)@).push(s@));
}

/// Append `s` to a list of options when `b` holds.
fn push_text_if(opts: &mut Vec<String>, b: bool, s: String)
    ensures
        texts(final(opts)@) == push_if(texts(old(opts)@), b, s@),
{
    if b {
        push_text(opts, s);
    }
}

/// `key` (which ends in `=`) followed by `n` in decimal.
fn key_number(key: &str, n: u64) -> (s: String)
    ensures
        s@ == key@ + decimal(n as nat),
{
    let mut s = String::new();
    s.append(key);
    push_decimal(&mut s, n);
    assert(s@ =~= key@ + decimal(n as nat));
    s
}

/// `key` (which ends in `=`) followed by `value`.
fn key_text(key: &str, value: &str) -> (s: String)
    ensures
        s@ == key@ + value@,
{
    let mut s = String::new();
    s.append(key);
    s.append(value);
    assert(s@ =~= key@ + value@);
    s
}

/// Append `h` hundredths as libvips wants a fractional value.
pub fn push_hundredths(s: &mut String, h: u32)
    ensures
        final(s)@ == old(s)@ + hundredths_text(h as nat),
{
    let whole = h / 100;
    let frac = h % 100;
    push_decimal(s, whole as u64);
    if frac != 0 {
        push_char(s, '.');
        let tens = (frac / 10) as u8;
        push_char(s, (tens + 48) as char);
        assert(((tens + 48) as char) == digit((frac / 10) as nat));
        if frac % 10 != 0 {
            let ones = (frac % 10) as u8;
            push_char(s, (ones + 48) as char);
            assert(((ones + 48) as char) == digit((frac % 10) as nat));
        }
    }
    assert(s@ =~= old(s)@ + hundredths_text(h as nat));
}

/// A fractional value given in hundredths, as libvips wants it.
pub fn format_hundredths(h: u32) -> (s: String)
    ensures
        s@ == hundredths_text(h as nat),
{
    let mut s = String::new();
    push_hundredths(&mut s, h);
    assert(s@ =~= hundredths_text(h as nat));
    s
}

pub fn jpeg_options(o: &JpegOptions) -> (r: Vec<String>)
    ensures
        texts(r@) == jpeg_options_spec(*o),
{
    let mut opts: Vec<String> = Vec::new();
    push_text(&mut opts, key_number("Q=", o.quality as u64));
    assert(texts(opts@) =~= seq!["Q="@ + decimal(o.quality as nat)]);
    push_text_if(&mut opts, o.optimize_coding, "optimize-coding=true".to_owned());
    push_text_if(&mut opts, o.progressive, "interlace=true".to_owned());
    push_text_if(&mut opts, o.optimize_scans && o.progressive, "optimize-scans=true".to_owned());
    push_text_if(&mut opts, o.trellis_quant, "trellis-quant=true".to_owned());
    push_text_if(&mut opts, o.overshoot_deringing, "overshoot-deringing=true".to_owned());
    push_text_if(&mut opts, o.quant_table != 0, key_number("quant-table=", o.quant_table as u64));
    push_text_if(
        &mut opts,
        o.subsample != SubsampleMode::Auto,
        key_text("subsample-mode=", o.subsample.as_vips()),
    );
    opts
}

pub fn png_options(o: &PngOptions) -> (r: Vec<String>)
    ensures
        texts(r@) == png_options_spec(*o),
{
    let mut opts: Vec<String> = Vec::new();
    push_text(&mut opts, key_number("compression=", o.compression as u64));
    assert(texts(opts@) =~= seq!["compression="@ + decimal(o.compression as nat)]);
    push_text_if(&mut opts, o.interlace, "interlace=true".to_owned());
    push_text_if(&mut opts, o.palette, "palette=true".to_owned());
    push_text_if(&mut opts, o.palette, key_number("Q=", o.quality as u64));
    let mut dither = String::new();
    dither.append("dither=");
    push_hundredths(&mut dither, o.dither_hundredths);
    assert(dither@ =~= "dither="@ + hundredths_text(o.dither_hundredths as nat));
    push_text_if(&mut opts, o.palette, dither);
    push_text_if(&mut opts, o.palette, key_number("effort=", o.effort as u64));
    push_text_if(&mut opts, o.bitdepth != 8, key_number("bitdepth=", o.bitdepth as u64));
    opts
}

pub fn webp_options(o: &WebpOptions) -> (r: Vec<String>)
    ensures
        texts(r@) == webp_options_spec(*o),
{
    let mut opts: Vec<String> = Vec::new();
    push_text(&mut opts, key_number("Q=", o.quality as u64));
    assert(texts(opts@) =~= seq!["Q="@ + decimal(o.quality as nat)]);
    push_text_if(&mut opts, o.lossless, "lossless=true".to_owned());
    push_text_if(&mut opts, o.near_lossless, "near-lossless=true".to_owned());
    push_text(&mut opts, key_number("effort=", o.effort as u64));
    push_text_if(
        &mut opts,
        o.alpha_quality != 100 && !o.lossless,
        key_number("alpha-q=", o.alpha_quality as u64),
    );
    push_text_if(&mut opts, o.smart_subsample, "smart-subsample=true".to_owned());
    push_text_if(
        &mut opts,
        o.preset != WebpPreset::Default,
        key_text("preset=", o.preset.as_vips()),
    );
    push_text_if(&mut opts, o.min_size, "min-size=true".to_owned());
    opts
}

pub fn avif_options(o: &AvifOptions) -> (r: Vec<String>)
    ensures
        texts(r@) == avif_options_spec(*o),
{
    let mut opts: Vec<String> = Vec::new();
    push_text(&mut opts, key_number("Q=", o.quality as u64));
    assert(texts(opts@) =~= seq!["Q="@ + decimal(o.quality as nat)]);
    push_text_if(&mut opts, o.lossless, "lossless=true".to_owned());
    push_text(&mut opts, key_number("effort=", o.effort as u64));
    push_text(&mut opts, key_number("bitdepth=", o.bitdepth as u64));
    push_text_if(
        &mut opts,
        o.subsample != SubsampleMode::Auto,
        key_text("subsample-mode=", o.subsample.as_vips()),
    );
    opts
}

/// The option that discards metadata for this libvips.
pub fn strip_option(version: VipsVersion) -> (r: &'static str)
    ensures
        r@ == strip_text(version),
{
    if version.uses_keep_option() {
        "keep=none"
    } else {
        "strip=true"
    }
}

/// The save options for the selected format, in a fixed order.
pub fn save_options(settings: &ConversionSettings, version: VipsVersion) -> (r: Vec<String>)
    ensures
        texts(r@) == save_options_spec(*settings, version),
{
    let mut opts = match settings.format {
        OutputFormat::Jpeg => jpeg_options(&settings.jpeg),
        OutputFormat::Png => png_options(&settings.png),
        OutputFormat::Webp => webp_options(&settings.webp),
        OutputFormat::Avif => avif_options(&settings.avif),
    };
    push_text_if(&mut opts, settings.strip_metadata, strip_option(version).to_owned());
    opts
}

/// Append `parts` joined with `sep`.
pub fn push_join(out: &mut String, parts: &Vec<String>, sep: char)
    ensures
        final(out)@ == old(out)@ + join_with(texts(parts@), sep),
{
    let ghost start = out@;
    let ghost all = texts(parts@);
    let mut i: usize = 0;
    while i < parts.len()
        invariant
            0 <= i <= parts@.len(),
            all == texts(parts@),
            out@ == start + join_with(all.take(i as int), sep),
        decreases parts@.len() - i,
    {
        if i > 0 {
            push_char(out, sep);
        }
        out.append(parts[i].as_str());
        proof {
            let t = all.take(i + 1);
            assert(t.drop_last() =~= all.take(i as int));
            assert(t.last() == parts@[i as int]@);
            if i == 0 {
                assert(all.take(0) =~= Seq::<Seq<char>>::empty());
            }
        }
        i += 1;
        assert(out@ =~= start + join_with(all.take(i as int), sep));
    }
    assert(all.take(parts@.len() as int) =~= all);
}

/// The output path with its option suffix attached.
pub fn target_with_options(settings: &ConversionSettings, output: &str, version: VipsVersion) -> (r:
    String)
    ensures
        r@ == target_spec(*settings, output@, version),
{
    let options = save_options(settings, version);
    let mut target = String::new();
    target.append(output);
    if options.len() > 0 {
        push_char(&mut target, '[');
        push_join(&mut target, &options, ',');
        push_char(&mut target, ']');
    }
    assert(target@ =~= target_spec(*settings, output@, version));
    target
}

/// Append `s` to an argument list.
fn push_arg(args: &mut Vec<String>, s: String)
    ensures
        texts(final(args)@) == texts(old(args)@).push(s@),
{
    push_text(args, s);
}

/// Build the full argument list for one conversion. `version` decides the
/// metadata-stripping spelling, which changed in 8.15.
pub fn build(settings: &ConversionSettings, input: &str, output: &str, version: VipsVersion) -> (r:
    VipsArgs)
    ensures
        r@ == build_spec(*settings, input@, output@, version),
{
    let target = target_with_options(settings, output, version);
    let mut args: Vec<String> = Vec::new();
    if settings.resize.enabled {
        push_arg(&mut args, "thumbnail".to_owned());
        push_arg(&mut args, input.to_owned());
        push_arg(&mut args, target);
        push_arg(&mut args, key_number("", settings.resize.max_width as u64));
        push_arg(&mut args, "--height".to_owned());
        push_arg(&mut args, key_number("", settings.resize.max_height as u64));
        push_arg(&mut args, "--size".to_owned());
        let size = if settings.resize.never_upscale {
            "down"
        } else {
            "both"
        };
        push_arg(&mut args, size.to_owned());
        proof {
            assert(""@ =~= Seq::<char>::empty()) by {
                reveal_strlit("");
            }
        }
    } else {
        push_arg(&mut args, "copy".to_owned());
        push_arg(&mut args, input.to_owned());
        push_arg(&mut args, target);
    }
    let r = VipsArgs(args);
    assert(r@ =~= build_spec(*settings, input@, output@, version));
    r
}

impl VipsArgs {
    /// Render as a shell-ish string, for error messages: arguments joined
    /// with spaces, each one that holds a space wrapped in double quotes. The
    /// real invocation passes the vector straight to the OS with no shell.
    pub fn to_display_string(&self) -> (r: String)
        ensures
            r@ == join_with(self@.map_values(|a: Seq<char>| display_arg(a)), ' '),
    {
        let mut shown: Vec<String> = Vec::new();
        let mut i: usize = 0;
        while i < self.0.len()
            invariant
                0 <= i <= self.0@.len(),
                texts(shown@) == self@.take(i as int).map_values(|a: Seq<char>| display_arg(a)),
            decreases self.0@.len() - i,
        {
            let a = &self.0[i];
            let v = crate::text::chars_of(a.as_str());
            let s = if crate::text::contains_char(v.as_slice(), ' ') {
                let mut q = String::new();
                push_char(&mut q, '"');
                q.append(a.as_str());
                push_char(&mut q, '"');
                q
            } else {
                a.clone()
            };
            assert(s@ == display_arg(self@[i as int])) by {
                assert(self@[i as int] == a@);
                if a@.contains(' ') {
                    assert(s@ =~= seq!['"'] + a@ + seq!['"']);
                }
            }
            push_text(&mut shown, s);
            i += 1;
            assert(texts(shown@) =~= self@.take(i as int).map_values(|a: Seq<char>| display_arg(a)));
        }
        assert(self@.take(self.0@.len() as int) =~= self@);
        let mut out = String::new();
        push_join(&mut out, &shown, ' ');
        assert(out@ =~= join_with(self@.map_values(|a: Seq<char>| display_arg(a)), ' '));
        out
    }

    /// The arguments as strings, for assertions.
    pub fn as_strings(&self) -> (r: Vec<String>)
        ensures
            texts(r@) == self@,
    {
        let mut out: Vec<String> = Vec::new();
        let mut i: usize = 0;
        while i < self.0.len()
            invariant
                0 <= i <= self.0@.len(),
                texts(out@) == self@.take(i as int),
            decreases self.0@.len() - i,
        {
            push_text(&mut out, self.0[i].clone());
            i += 1;
            assert(texts(out@) =~= self@.take(i as int));
        }
        assert(self@.take(self.0@.len() as int) =~= self@);
        out
    }
}

/// A character that may stand in an option's key or value: anything but
/// the `=`, `,` and brackets of the option syntax, and spaces.
pub open spec fn plain_char(c: char) -> bool {
    c != '=' && c != ',' && c != ' ' && c != '[' && c != ']'
}

pub open spec fn plain_text(s: Seq<char>) -> bool {
    forall|i: int| 0 <= i < s.len() ==> plain_char(#[trigger] s[i])
}

/// `key=value`, with a non-empty key and a non-empty value, and nothing in
/// either that the option syntax would split on.
pub open spec fn key_value(o: Seq<char>) -> bool {
    exists|k: int|
        0 < k < o.len() - 1 && o[k] == '=' && #[trigger] plain_text(o.subrange(0, k)) && plain_text(
            o.subrange(k + 1, o.len() as int),
        )
}

/// The metadata option, in either spelling.
pub open spec fn metadata_option(o: Seq<char>) -> bool {
    has_prefix(o, "keep="@) || has_prefix(o, "strip="@)
}

/// An encoder option: well formed, and not a metadata option.
pub open spec fn encoder_option(o: Seq<char>) -> bool {
    key_value(o) && !metadata_option(o)
}

pub open spec fn all_encoder_options(s: Seq<Seq<char>>) -> bool {
    forall|i: int| 0 <= i < s.len() ==> encoder_option(#[trigger] s[i])
}

proof fn lemma_option(key: Seq<char>, value: Seq<char>)
    requires
        key.len() >= 2,
        key.last() == '=',
        plain_text(key.drop_last()),
        key[0] != 'k',
        key[0] != 's' || key[1] != 't',
        value.len() >= 1,
        plain_text(value),
    ensures
        encoder_option(key + value),
{
    let o = key + value;
    let k = key.len() - 1;
    assert(o.subrange(0, k) =~= key.drop_last());
    assert(o.subrange(k + 1, o.len() as int) =~= value);
    assert(o[k] == '=');
    assert(plain_text(o.subrange(0, k)));
    reveal_strlit("keep=");
    reveal_strlit("strip=");
    if has_prefix(o, "keep="@) {
        assert(o.subrange(0, 5)[0] == o[0]);
    }
    if has_prefix(o, "strip="@) {
        assert(o.subrange(0, 6)[0] == o[0]);
        assert(o.subrange(0, 6)[1] == o[1]);
    }
}

proof fn lemma_decimal_plain(n: nat)
    ensures
        decimal(n).len() >= 1,
        plain_text(decimal(n)),
{
    lemma_decimal_digits(n);
}

proof fn lemma_hundredths_plain(h: nat)
    ensures
        hundredths_text(h).len() >= 1,
        plain_text(hundredths_text(h)),
{
    lemma_decimal_digits(h / 100);
    let whole = decimal(h / 100);
    let frac = h % 100;
    assert(plain_char(digit(frac / 10)));
    assert(plain_char(digit(frac % 10)));
}

proof fn lemma_literal_option(o: Seq<char>, k: int)
    requires
        0 < k < o.len() - 1,
        o[k] == '=',
        plain_text(o.subrange(0, k)),
        plain_text(o.subrange(k + 1, o.len() as int)),
        o[0] != 'k',
        o[0] != 's' || o[1] != 't',
    ensures
        encoder_option(o),
{
    let key = o.subrange(0, k + 1);
    let value = o.subrange(k + 1, o.len() as int);
    assert(key.drop_last() =~= o.subrange(0, k));
    lemma_option(key, value);
    assert(key + value =~= o);
}

proof fn lemma_push_if_encoder(s: Seq<Seq<char>>, b: bool, x: Seq<char>)
    requires
        all_encoder_options(s),
        b ==> encoder_option(x),
    ensures
        all_encoder_options(push_if(s, b, x)),
{
    if b {
        assert forall|i: int| 0 <= i < s.len() + 1 implies encoder_option(#[trigger] s.push(x)[i]) by {
            if i < s.len() {
                assert(s.push(x)[i] == s[i]);
            }
        }
    }
}

proof fn lemma_subsample_value(m: SubsampleMode)
    ensures
        m.vips_text().len() >= 1,
        plain_text(m.vips_text()),
{
    reveal_strlit("auto");
    reveal_strlit("on");
    reveal_strlit("off");
}

proof fn lemma_jpeg_options(o: JpegOptions)
    ensures
        jpeg_options_spec(o).len() >= 1,
        all_encoder_options(jpeg_options_spec(o)),
{
    reveal_strlit("Q=");
    reveal_strlit("optimize-coding=true");
    reveal_strlit("interlace=true");
    reveal_strlit("optimize-scans=true");
    reveal_strlit("trellis-quant=true");
    reveal_strlit("overshoot-deringing=true");
    reveal_strlit("quant-table=");
    reveal_strlit("subsample-mode=");
    lemma_decimal_plain(o.quality as nat);
    lemma_decimal_plain(o.quant_table as nat);
    lemma_subsample_value(o.subsample);
    lemma_option("Q="@, decimal(o.quality as nat));
    lemma_literal_option("optimize-coding=true"@, 15);
    lemma_literal_option("interlace=true"@, 9);
    lemma_literal_option("optimize-scans=true"@, 14);
    lemma_literal_option("trellis-quant=true"@, 13);
    lemma_literal_option("overshoot-deringing=true"@, 19);
    lemma_option("quant-table="@, decimal(o.quant_table as nat));
    lemma_option("subsample-mode="@, o.subsample.vips_text());
    let s0 = seq!["Q="@ + decimal(o.quality as nat)];
    assert(all_encoder_options(s0));
    let s1 = push_if(s0, o.optimize_coding, "optimize-coding=true"@);
    lemma_push_if_encoder(s0, o.optimize_coding, "optimize-coding=true"@);
    let s2 = push_if(s1, o.progressive, "interlace=true"@);
    lemma_push_if_encoder(s1, o.progressive, "interlace=true"@);
    let s3 = push_if(s2, o.optimize_scans && o.progressive, "optimize-scans=true"@);
    lemma_push_if_encoder(s2, o.optimize_scans && o.progressive, "optimize-scans=true"@);
    let s4 = push_if(s3, o.trellis_quant, "trellis-quant=true"@);
    lemma_push_if_encoder(s3, o.trellis_quant, "trellis-quant=true"@);
    let s5 = push_if(s4, o.overshoot_deringing, "overshoot-deringing=true"@);
    lemma_push_if_encoder(s4, o.overshoot_deringing, "overshoot-deringing=true"@);
    let s6 = push_if(s5, o.quant_table != 0, "quant-table="@ + decimal(o.quant_table as nat));
    lemma_push_if_encoder(s5, o.quant_table != 0, "quant-table="@ + decimal(o.quant_table as nat));
    lemma_push_if_encoder(
        s6,
        o.subsample != SubsampleMode::Auto,
        "subsample-mode="@ + o.subsample.vips_text(),
    );
}

proof fn lemma_png_options(o: PngOptions)
    ensures
        png_options_spec(o).len() >= 1,
        all_encoder_options(png_options_spec(o)),
{
    reveal_strlit("compression=");
    reveal_strlit("interlace=true");
    reveal_strlit("palette=true");
    reveal_strlit("Q=");
    reveal_strlit("dither=");
    reveal_strlit("effort=");
    reveal_strlit("bitdepth=");
    lemma_decimal_plain(o.compression as nat);
    lemma_decimal_plain(o.quality as nat);
    lemma_decimal_plain(o.effort as nat);
    lemma_decimal_plain(o.bitdepth as nat);
    lemma_hundredths_plain(o.dither_hundredths as nat);
    lemma_option("compression="@, decimal(o.compression as nat));
    lemma_literal_option("interlace=true"@, 9);
    lemma_literal_option("palette=true"@, 7);
    lemma_option("Q="@, decimal(o.quality as nat));
    lemma_option("dither="@, hundredths_text(o.dither_hundredths as nat));
    lemma_option("effort="@, decimal(o.effort as nat));
    lemma_option("bitdepth="@, decimal(o.bitdepth as nat));
    let s0 = seq!["compression="@ + decimal(o.compression as nat)];
    assert(all_encoder_options(s0));
    let s1 = push_if(s0, o.interlace, "interlace=true"@);
    lemma_push_if_encoder(s0, o.interlace, "interlace=true"@);
    let s2 = push_if(s1, o.palette, "palette=true"@);
    lemma_push_if_encoder(s1, o.palette, "palette=true"@);
    let s3 = push_if(s2, o.palette, "Q="@ + decimal(o.quality as nat));
    lemma_push_if_encoder(s2, o.palette, "Q="@ + decimal(o.quality as nat));
    let s4 = push_if(s3, o.palette, "dither="@ + hundredths_text(o.dither_hundredths as nat));
    lemma_push_if_encoder(s3, o.palette, "dither="@ + hundredths_text(o.dither_hundredths as nat));
    let s5 = push_if(s4, o.palette, "effort="@ + decimal(o.effort as nat));
    lemma_push_if_encoder(s4, o.palette, "effort="@ + decimal(o.effort as nat));
    lemma_push_if_encoder(s5, o.bitdepth != 8, "bitdepth="@ + decimal(o.bitdepth as nat));
}

proof fn lemma_webp_options(o: WebpOptions)
    ensures
        webp_options_spec(o).len() >= 1,
        all_encoder_options(webp_options_spec(o)),
{
    reveal_strlit("Q=");
    reveal_strlit("lossless=true");
    reveal_strlit("near-lossless=true");
    reveal_strlit("effort=");
    reveal_strlit("alpha-q=");
    reveal_strlit("smart-subsample=true");
    reveal_strlit("preset=");
    reveal_strlit("min-size=true");
    reveal_strlit("default");
    reveal_strlit("picture");
    reveal_strlit("photo");
    reveal_strlit("drawing");
    reveal_strlit("icon");
    reveal_strlit("text");
    lemma_decimal_plain(o.quality as nat);
    lemma_decimal_plain(o.effort as nat);
    lemma_decimal_plain(o.alpha_quality as nat);
    lemma_option("Q="@, decimal(o.quality as nat));
    lemma_literal_option("lossless=true"@, 8);
    lemma_literal_option("near-lossless=true"@, 13);
    lemma_option("effort="@, decimal(o.effort as nat));
    lemma_option("alpha-q="@, decimal(o.alpha_quality as nat));
    lemma_literal_option("smart-subsample=true"@, 15);
    assert(o.preset.vips_text().len() >= 1 && plain_text(o.preset.vips_text()));
    lemma_option("preset="@, o.preset.vips_text());
    lemma_literal_option("min-size=true"@, 8);
    let s0 = seq!["Q="@ + decimal(o.quality as nat)];
    assert(all_encoder_options(s0));
    let s1 = push_if(s0, o.lossless, "lossless=true"@);
    lemma_push_if_encoder(s0, o.lossless, "lossless=true"@);
    let s2 = push_if(s1, o.near_lossless, "near-lossless=true"@);
    lemma_push_if_encoder(s1, o.near_lossless, "near-lossless=true"@);
    let s3 = s2.push("effort="@ + decimal(o.effort as nat));
    lemma_push_if_encoder(s2, true, "effort="@ + decimal(o.effort as nat));
    let a = o.alpha_quality != 100 && !o.lossless;
    let s4 = push_if(s3, a, "alpha-q="@ + decimal(o.alpha_quality as nat));
    lemma_push_if_encoder(s3, a, "alpha-q="@ + decimal(o.alpha_quality as nat));
    let s5 = push_if(s4, o.smart_subsample, "smart-subsample=true"@);
    lemma_push_if_encoder(s4, o.smart_subsample, "smart-subsample=true"@);
    let s6 = push_if(s5, o.preset != WebpPreset::Default, "preset="@ + o.preset.vips_text());
    lemma_push_if_encoder(s5, o.preset != WebpPreset::Default, "preset="@ + o.preset.vips_text());
    lemma_push_if_encoder(s6, o.min_size, "min-size=true"@);
}

proof fn lemma_avif_options(o: AvifOptions)
    ensures
        avif_options_spec(o).len() >= 1,
        all_encoder_options(avif_options_spec(o)),
{
    reveal_strlit("Q=");
    reveal_strlit("lossless=true");
    reveal_strlit("effort=");
    reveal_strlit("bitdepth=");
    reveal_strlit("subsample-mode=");
    lemma_decimal_plain(o.quality as nat);
    lemma_decimal_plain(o.effort as nat);
    lemma_decimal_plain(o.bitdepth as nat);
    lemma_subsample_value(o.subsample);
    lemma_option("Q="@, decimal(o.quality as nat));
    lemma_literal_option("lossless=true"@, 8);
    lemma_option("effort="@, decimal(o.effort as nat));
    lemma_option("bitdepth="@, decimal(o.bitdepth as nat));
    lemma_option("subsample-mode="@, o.subsample.vips_text());
    let s0 = seq!["Q="@ + decimal(o.quality as nat)];
    assert(all_encoder_options(s0));
    let s1 = push_if(s0, o.lossless, "lossless=true"@);
    lemma_push_if_encoder(s0, o.lossless, "lossless=true"@);
    let s2 = s1.push("effort="@ + decimal(o.effort as nat));
    lemma_push_if_encoder(s1, true, "effort="@ + decimal(o.effort as nat));
    let s3 = s2.push("bitdepth="@ + decimal(o.bitdepth as nat));
    lemma_push_if_encoder(s2, true, "bitdepth="@ + decimal(o.bitdepth as nat));
    lemma_push_if_encoder(
        s3,
        o.subsample != SubsampleMode::Auto,
        "subsample-mode="@ + o.subsample.vips_text(),
    );
}

/// Every option suffix parses: each option for the chosen format is
/// `key=value` with non-empty parts and nothing the suffix syntax would split
/// on; there is at least one; and the metadata option appears only last,
/// only when stripping, and then in the one spelling the version wants, so
/// the old and new spellings never both appear.
pub proof fn lemma_save_options_well_formed(settings: ConversionSettings, version: VipsVersion)
    ensures
        ({
            let opts = save_options_spec(settings, version);
            &&& opts.len() >= 1
            &&& forall|i: int| 0 <= i < opts.len() ==> key_value(#[trigger] opts[i])
            &&& forall|i: int| 0 <= i < opts.len() - 1 ==> !metadata_option(#[trigger] opts[i])
            &&& metadata_option(opts.last()) <==> settings.strip_metadata
            &&& settings.strip_metadata ==> opts.last() == strip_text(version)
        }),
{
    let base = match settings.format {
        OutputFormat::Jpeg => jpeg_options_spec(settings.jpeg),
        OutputFormat::Png => png_options_spec(settings.png),
        OutputFormat::Webp => webp_options_spec(settings.webp),
        OutputFormat::Avif => avif_options_spec(settings.avif),
    };
    match settings.format {
        OutputFormat::Jpeg => lemma_jpeg_options(settings.jpeg),
        OutputFormat::Png => lemma_png_options(settings.png),
        OutputFormat::Webp => lemma_webp_options(settings.webp),
        OutputFormat::Avif => lemma_avif_options(settings.avif),
    }
    assert(all_encoder_options(base));
    let opts = save_options_spec(settings, version);
    reveal_strlit("keep=none");
    reveal_strlit("strip=true");
    reveal_strlit("keep=");
    reveal_strlit("strip=");
    lemma_literal_meta("keep=none"@, 4);
    lemma_literal_meta("strip=true"@, 5);
    assert(has_prefix("keep=none"@, "keep="@)) by {
        assert("keep=none"@.subrange(0, 5) =~= "keep="@);
    }
    assert(has_prefix("strip=true"@, "strip="@)) by {
        assert("strip=true"@.subrange(0, 6) =~= "strip="@);
    }
    assert forall|i: int| 0 <= i < opts.len() implies key_value(#[trigger] opts[i]) by {
        if i < base.len() {
            assert(opts[i] == base[i]);
            assert(encoder_option(base[i]));
        }
    }
    assert forall|i: int| 0 <= i < opts.len() - 1 implies !metadata_option(#[trigger] opts[i]) by {
        assert(opts[i] == base[i]);
        assert(encoder_option(base[i]));
    }
    if !settings.strip_metadata {
        assert(encoder_option(base[base.len() - 1]));
    }
}

proof fn lemma_literal_meta(o: Seq<char>, k: int)
    requires
        0 < k < o.len() - 1,
        o[k] == '=',
        plain_text(o.subrange(0, k)),
        plain_text(o.subrange(k + 1, o.len() as int)),
    ensures
        key_value(o),
{
}


/// A JPEG is written progressive exactly when the user asked for it: for
/// every JPEG conversion and every libvips version, the save options hold
/// `interlace=true` if and only if `progressive` is on, whatever the other
/// encoder choices are.
pub proof fn lemma_jpeg_interlace_follows_progressive(
    settings: ConversionSettings,
    version: VipsVersion,
)
    requires
        settings.format == OutputFormat::Jpeg,
    ensures
        save_options_spec(settings, version).contains("interlace=true"@) <==> settings.jpeg.progressive,
{
    reveal_strlit("Q=");
    reveal_strlit("optimize-coding=true");
    reveal_strlit("interlace=true");
    reveal_strlit("optimize-scans=true");
    reveal_strlit("trellis-quant=true");
    reveal_strlit("overshoot-deringing=true");
    reveal_strlit("quant-table=");
    reveal_strlit("subsample-mode=");
    reveal_strlit("keep=none");
    reveal_strlit("strip=true");
    let o = settings.jpeg;
    let it = "interlace=true"@;
    let opts = save_options_spec(settings, version);
    let s0 = seq!["Q="@ + decimal(o.quality as nat)];
    let s1 = push_if(s0, o.optimize_coding, "optimize-coding=true"@);
    let s2 = push_if(s1, o.progressive, it);
    let s3 = push_if(s2, o.optimize_scans && o.progressive, "optimize-scans=true"@);
    let s4 = push_if(s3, o.trellis_quant, "trellis-quant=true"@);
    let s5 = push_if(s4, o.overshoot_deringing, "overshoot-deringing=true"@);
    let s6 = push_if(s5, o.quant_table != 0, "quant-table="@ + decimal(o.quant_table as nat));
    let s7 = push_if(s6, o.subsample != SubsampleMode::Auto, "subsample-mode="@ + o.subsample.vips_text());
    assert(jpeg_options_spec(o) == s7);
    assert(opts == push_if(s7, settings.strip_metadata, strip_text(version)));
    if o.progressive {
        let k = s1.len() as int;
        assert(s2[k] == it);
        assert(s3[k] == it);
        assert(s4[k] == it);
        assert(s5[k] == it);
        assert(s6[k] == it);
        assert(s7[k] == it);
        assert(opts[k] == it);
    } else {
        assert(("Q="@ + decimal(o.quality as nat))[0] == 'Q');
        assert(("quant-table="@ + decimal(o.quant_table as nat))[0] == 'q');
        assert(("subsample-mode="@ + o.subsample.vips_text())[0] == 's');
        assert(strip_text(version)[0] != 'i');
        assert forall|k: int| 0 <= k < opts.len() implies opts[k].len() > 0 && (#[trigger] opts[k])[0]
            != 'i' by {
            if k < s0.len() {
                assert(opts[k] == s0[k]);
            } else if k < s1.len() {
                assert(opts[k] == s1[k]);
            } else if k < s3.len() {
                assert(opts[k] == s3[k]);
            } else if k < s4.len() {
                assert(opts[k] == s4[k]);
            } else if k < s5.len() {
                assert(opts[k] == s5[k]);
            } else if k < s6.len() {
                assert(opts[k] == s6[k]);
            } else if k < s7.len() {
                assert(opts[k] == s7[k]);
            }
        }
        if opts.contains(it) {
            let k = choose|k: int| 0 <= k < opts.len() && opts[k] == it;
            assert(opts[k][0] == 'i');
        }
    }
}

/// Settings counted as the same make the same files: for every input, output
/// path and libvips version they give the same vips command, and they put
/// the output in the same place.
pub proof fn lemma_same_settings_same_command(
    a: ConversionSettings,
    b: ConversionSettings,
    input: Seq<char>,
    output: Seq<char>,
    version: VipsVersion,
)
    requires
        same_settings(a, b),
    ensures
        build_spec(a, input, output, version) == build_spec(b, input, output, version),
        output_path(a, input) == output_path(b, input),
{
    assert(save_options_spec(a, version) == save_options_spec(b, version));
    assert(target_spec(a, output, version) == target_spec(b, output, version));
}

} // verus!
