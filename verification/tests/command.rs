use vips_gui::settings::{ConversionSettings, OutputFormat, SubsampleMode, WebpPreset};
use vips_gui::vips::command::{build, format_hundredths, save_options};
use vips_gui::vips::VipsVersion;

/// libvips 8.18, i.e. the modern `keep=none` spelling.
fn modern() -> VipsVersion {
    VipsVersion { major: 8, minor: 18, patch: 6 }
}

/// libvips 8.14, i.e. the legacy `strip` spelling.
fn legacy() -> VipsVersion {
    VipsVersion { major: 8, minor: 14, patch: 0 }
}

fn build_strings(settings: &ConversionSettings, version: VipsVersion) -> Vec<String> {
    build(settings, "in.jpg", "out.webp", version).as_strings()
}

#[test]
fn without_resize_it_uses_copy_with_three_arguments() {
    let settings = ConversionSettings::default();
    let args = build_strings(&settings, modern());
    assert_eq!(args[0], "copy");
    assert_eq!(args[1], "in.jpg");
    assert_eq!(args.len(), 3, "copy takes exactly in and out: {args:?}");
}

#[test]
fn with_resize_it_uses_thumbnail_with_a_bounding_box() {
    let mut settings = ConversionSettings::default();
    settings.resize.enabled = true;
    settings.resize.max_width = 1920;
    settings.resize.max_height = 1080;
    settings.resize.never_upscale = true;

    let args = build_strings(&settings, modern());
    assert_eq!(args[0], "thumbnail");
    assert_eq!(args[1], "in.jpg");
    assert_eq!(args[3], "1920");
    assert_eq!(args[4], "--height");
    assert_eq!(args[5], "1080");
    assert_eq!(args[6], "--size");
    assert_eq!(args[7], "down");
}

#[test]
fn allowing_upscale_switches_size_to_both() {
    let mut settings = ConversionSettings::default();
    settings.resize.enabled = true;
    settings.resize.never_upscale = false;

    let args = build_strings(&settings, modern());
    let size_value = &args[args.len() - 1];
    assert_eq!(size_value, "both");
}

#[test]
fn jpeg_defaults_produce_the_expected_option_suffix() {
    let mut settings = ConversionSettings::default();
    settings.format = OutputFormat::Jpeg;
    let args = build(&settings, "in.jpg", "out.jpg", modern()).as_strings();
    assert_eq!(args[2], "out.jpg[Q=80,optimize-coding=true,interlace=true]");
}

#[test]
fn jpeg_emits_every_advanced_option_when_enabled() {
    let mut settings = ConversionSettings::default();
    settings.format = OutputFormat::Jpeg;
    settings.jpeg.quality = 92;
    settings.jpeg.optimize_scans = true;
    settings.jpeg.trellis_quant = true;
    settings.jpeg.overshoot_deringing = true;
    settings.jpeg.quant_table = 3;
    settings.jpeg.subsample = SubsampleMode::Off;

    let args = build(&settings, "in.jpg", "out.jpg", modern()).as_strings();
    assert_eq!(
        args[2],
        "out.jpg[Q=92,optimize-coding=true,interlace=true,optimize-scans=true,\
         trellis-quant=true,overshoot-deringing=true,quant-table=3,subsample-mode=off]"
            .replace(['\n', ' '], "")
    );
}

#[test]
fn optimize_scans_is_dropped_without_a_progressive_scan() {
    let mut settings = ConversionSettings::default();
    settings.format = OutputFormat::Jpeg;
    settings.jpeg.progressive = false;
    settings.jpeg.optimize_scans = true;

    let args = build(&settings, "in.jpg", "out.jpg", modern()).as_strings();
    assert!(
        !args[2].contains("optimize-scans"),
        "optimize-scans is meaningless without interlace: {}",
        args[2]
    );
}

#[test]
fn png_without_palette_omits_the_quantiser_options() {
    let mut settings = ConversionSettings::default();
    settings.format = OutputFormat::Png;
    let args = build(&settings, "in.jpg", "out.png", modern()).as_strings();
    assert_eq!(args[2], "out.png[compression=6]");
    assert!(!args[2].contains("dither"));
    assert!(!args[2].contains("effort"));
}

#[test]
fn png_with_palette_includes_the_quantiser_options() {
    let mut settings = ConversionSettings::default();
    settings.format = OutputFormat::Png;
    settings.png.palette = true;
    settings.png.compression = 9;
    settings.png.quality = 90;
    settings.png.dither_hundredths = 50;
    settings.png.effort = 8;

    let args = build(&settings, "in.jpg", "out.png", modern()).as_strings();
    assert_eq!(
        args[2],
        "out.png[compression=9,palette=true,Q=90,dither=0.5,effort=8]"
    );
}

#[test]
fn png_bitdepth_is_only_mentioned_when_it_differs_from_the_default() {
    let mut settings = ConversionSettings::default();
    settings.format = OutputFormat::Png;

    let args = build(&settings, "in.jpg", "out.png", modern()).as_strings();
    assert!(!args[2].contains("bitdepth"), "8 is the default");

    settings.png.bitdepth = 4;
    let args = build(&settings, "in.jpg", "out.png", modern()).as_strings();
    assert!(args[2].contains("bitdepth=4"));
}

#[test]
fn webp_defaults_produce_the_expected_option_suffix() {
    let settings = ConversionSettings::default();
    let args = build_strings(&settings, modern());
    assert_eq!(args[2], "out.webp[Q=80,effort=4]");
}

#[test]
fn webp_lossless_suppresses_alpha_quality() {
    let mut settings = ConversionSettings::default();
    settings.webp.lossless = true;
    settings.webp.alpha_quality = 50;

    let args = build_strings(&settings, modern());
    assert!(args[2].contains("lossless=true"));
    assert!(
        !args[2].contains("alpha-q"),
        "alpha-q is a lossy-mode control: {}",
        args[2]
    );
}

#[test]
fn webp_emits_alpha_quality_only_when_not_the_default() {
    let mut settings = ConversionSettings::default();
    let args = build_strings(&settings, modern());
    assert!(!args[2].contains("alpha-q"), "100 is the default");

    settings.webp.alpha_quality = 60;
    let args = build_strings(&settings, modern());
    assert!(args[2].contains("alpha-q=60"));
}

#[test]
fn webp_emits_every_advanced_option_when_enabled() {
    let mut settings = ConversionSettings::default();
    settings.webp.quality = 65;
    settings.webp.near_lossless = true;
    settings.webp.effort = 6;
    settings.webp.smart_subsample = true;
    settings.webp.preset = WebpPreset::Photo;
    settings.webp.min_size = true;

    let args = build_strings(&settings, modern());
    assert_eq!(
        args[2],
        "out.webp[Q=65,near-lossless=true,effort=6,smart-subsample=true,\
         preset=photo,min-size=true]"
            .replace(['\n', ' '], "")
    );
}

#[test]
fn avif_always_pins_bitdepth_explicitly() {
    let mut settings = ConversionSettings::default();
    settings.format = OutputFormat::Avif;
    let args = build(&settings, "in.jpg", "out.avif", modern()).as_strings();
    assert_eq!(args[2], "out.avif[Q=50,effort=4,bitdepth=8]");
}

#[test]
fn avif_emits_every_advanced_option_when_enabled() {
    let mut settings = ConversionSettings::default();
    settings.format = OutputFormat::Avif;
    settings.avif.quality = 30;
    settings.avif.lossless = true;
    settings.avif.effort = 9;
    settings.avif.bitdepth = 10;
    settings.avif.subsample = SubsampleMode::On;

    let args = build(&settings, "in.jpg", "out.avif", modern()).as_strings();
    assert_eq!(
        args[2],
        "out.avif[Q=30,lossless=true,effort=9,bitdepth=10,subsample-mode=on]"
    );
}

#[test]
fn stripping_metadata_uses_keep_none_on_modern_vips() {
    let mut settings = ConversionSettings::default();
    settings.strip_metadata = true;
    let args = build_strings(&settings, modern());
    assert!(args[2].ends_with(",keep=none]"), "got {}", args[2]);
}

#[test]
fn stripping_metadata_falls_back_to_strip_on_older_vips() {
    let mut settings = ConversionSettings::default();
    settings.strip_metadata = true;
    let args = build_strings(&settings, legacy());
    assert!(args[2].ends_with(",strip=true]"), "got {}", args[2]);
    assert!(
        !args[2].contains("keep=none"),
        "keep=none does not exist before 8.15"
    );
}

#[test]
fn metadata_is_kept_by_default_so_no_option_is_emitted() {
    let settings = ConversionSettings::default();
    let args = build_strings(&settings, modern());
    assert!(!args[2].contains("keep"));
    assert!(!args[2].contains("strip"));
}

#[test]
fn resize_and_options_combine_without_interfering() {
    let mut settings = ConversionSettings::default();
    settings.format = OutputFormat::Avif;
    settings.avif.effort = 6;
    settings.resize.enabled = true;
    settings.resize.max_width = 1920;
    settings.resize.max_height = 1920;
    settings.strip_metadata = true;

    let args = build(&settings, "in.jpg", "out.avif", modern()).as_strings();

    assert_eq!(args[0], "thumbnail");
    assert_eq!(args[2], "out.avif[Q=50,effort=6,bitdepth=8,keep=none]");
    assert_eq!(args[3], "1920");
}

#[test]
fn every_format_produces_a_parseable_suffix_for_all_defaults() {
    for format in OutputFormat::ALL {
        let mut settings = ConversionSettings::default();
        settings.format = format;
        let output = format!("out.{}", format.extension());
        let args = build(&settings, "in.png", &output, modern()).as_strings();
        let target = &args[2];

        assert!(
            target.starts_with(&format!("out.{}", format.extension())),
            "target should start with the output path: {target}"
        );
        assert!(
            target.contains('[') && target.ends_with(']'),
            "every format should emit at least one option: {target}"
        );
        let inner = target
            .split_once('[')
            .and_then(|(_, rest)| rest.strip_suffix(']'))
            .expect("suffix should be well formed");
        for pair in inner.split(',') {
            assert!(!pair.is_empty(), "empty option in {target}");
            assert!(
                pair.contains('='),
                "option {pair} should be key=value in {target}"
            );
        }
    }
}

#[test]
fn float_formatting_avoids_noisy_representations() {
    // Values are in hundredths: 1.0, 0.0, 0.5 and 0.25.
    assert_eq!(format_hundredths(100), "1");
    assert_eq!(format_hundredths(0), "0");
    assert_eq!(format_hundredths(50), "0.5");
    assert_eq!(format_hundredths(25), "0.25");
}

#[test]
fn paths_with_spaces_are_passed_through_untouched() {
    let settings = ConversionSettings::default();
    let args = build(&settings, r"C:\My Photos\a b.jpg", r"C:\Out Dir\a b.webp", modern());
    let strings = args.as_strings();

    assert_eq!(strings[1], r"C:\My Photos\a b.jpg");
    assert!(strings[2].starts_with(r"C:\Out Dir\a b.webp["));

    let shown = args.to_display_string();
    assert!(shown.contains('"'), "display form should quote: {shown}");
}

#[test]
fn every_reachable_option_builds_a_well_formed_command() {
    let mut variations: Vec<ConversionSettings> = Vec::new();
    for format in OutputFormat::ALL {
        for strip in [false, true] {
            for resize in [false, true] {
                let mut s = ConversionSettings::default();
                s.format = format;
                s.strip_metadata = strip;
                s.resize.enabled = resize;
                variations.push(s);
            }
        }
    }
    for quality in [1u8, 50, 100] {
        for table in 0u8..=8 {
            let mut s = ConversionSettings::default();
            s.format = OutputFormat::Jpeg;
            s.jpeg.quality = quality;
            s.jpeg.quant_table = table;
            s.jpeg.optimize_scans = table % 2 == 0;
            s.jpeg.trellis_quant = table % 3 == 0;
            s.jpeg.subsample = SubsampleMode::ALL[(table % 3) as usize];
            variations.push(s);
        }
    }
    for dither in [0u32, 25, 50, 75, 100] {
        for bitdepth in [1u8, 2, 4, 8, 16] {
            let mut s = ConversionSettings::default();
            s.format = OutputFormat::Png;
            s.png.palette = true;
            s.png.dither_hundredths = dither;
            s.png.bitdepth = bitdepth;
            variations.push(s);
        }
    }
    for preset in WebpPreset::ALL {
        for (lossless, near) in [(false, false), (true, false), (false, true)] {
            let mut s = ConversionSettings::default();
            s.webp.preset = preset;
            s.webp.lossless = lossless;
            s.webp.near_lossless = near;
            s.webp.alpha_quality = 50;
            s.webp.min_size = true;
            variations.push(s);
        }
    }
    for bitdepth in [8u8, 10, 12] {
        for mode in SubsampleMode::ALL {
            let mut s = ConversionSettings::default();
            s.format = OutputFormat::Avif;
            s.avif.bitdepth = bitdepth;
            s.avif.subsample = mode;
            s.avif.lossless = true;
            variations.push(s);
        }
    }

    for version in [legacy(), modern()] {
        for settings in &variations {
            let output = format!("out.{}", settings.format.extension());
            let strings = build(settings, "in.png", &output, version).as_strings();
            assert!(strings[0] == "copy" || strings[0] == "thumbnail");
            let target = &strings[2];
            let (path_part, options) = match target.split_once('[') {
                Some((path, rest)) => (path, rest.strip_suffix(']').expect("terminated suffix")),
                None => (target.as_str(), ""),
            };
            assert!(path_part.ends_with(settings.format.extension()));
            for pair in options.split(',').filter(|p| !p.is_empty()) {
                let (key, value) = pair.split_once('=').expect("key=value");
                assert!(!key.is_empty());
                assert!(!value.is_empty());
                assert!(!key.contains(' ') && !value.contains(' '));
                assert!(!(options.contains("keep=none") && options.contains("strip=")));
            }
            let opts = save_options(settings, version);
            assert_eq!(opts.is_empty(), false);
        }
    }
}
