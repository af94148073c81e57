use vips_gui::cli::{usage, Cli};
use vips_gui::diagnostics::check_report;
use vips_gui::vips::discovery::{Capabilities, DiscoveryError, DiscoverySource, VipsInstall};
use vips_gui::vips::VipsVersion;

fn args(a: &[&str]) -> Vec<String> {
    a.iter().map(|s| s.to_string()).collect()
}

#[test]
fn flags_choose_the_mode_and_strays_are_ignored() {
    assert_eq!(Cli::from_args(&args(&[])), Cli::Gui);
    assert_eq!(Cli::from_args(&args(&["--check"])), Cli::Check);
    assert_eq!(Cli::from_args(&args(&["-c"])), Cli::Check);
    assert_eq!(Cli::from_args(&args(&["-V"])), Cli::Version);
    assert_eq!(Cli::from_args(&args(&["--stray", "-?"])), Cli::Help);
    assert_eq!(Cli::from_args(&args(&["--help", "--check"])), Cli::Help, "the first flag wins");
    assert_eq!(Cli::from_args(&args(&["photo.jpg"])), Cli::Gui);
}

#[test]
fn help_output_documents_the_libvips_prerequisite() {
    let text = usage("0.1.0");
    assert!(text.starts_with("vips-gui 0.1.0 - batch image conversion with libvips\n"));
    assert!(text.contains("libvips must be installed separately"));
    assert!(text.contains("https://github.com/libvips/libvips/releases"));
    assert!(text.contains("--check"));
}

#[test]
fn the_check_report_lists_what_was_found() {
    let install = VipsInstall {
        exe: "C:\\vips\\bin\\vips.exe".to_owned(),
        version: VipsVersion { major: 8, minor: 18, patch: 6 },
        capabilities: Capabilities { jpeg: true, png: true, webp: true, avif: false },
        source: DiscoverySource::Path,
    };
    let (text, code) = check_report("0.1.0", &Ok(install), true);
    assert_eq!(code, 0);
    assert_eq!(
        text,
        "vips-gui 0.1.0\n\n\
         libvips:     8.18.6 (minimum required: 8.13.0)\n\
         executable:  C:\\vips\\bin\\vips.exe\n\
         found via:   found on PATH\n\n\
         Output formats:\n\
         \x20 yes   JPEG       (jpegsave)\n\
         \x20 yes   PNG        (pngsave)\n\
         \x20 yes   WebP       (webpsave)\n\
         \x20 no    AVIF       (heifsave)\n\n\
         Previews:    streaming (this libvips can write to stdout)\n\n\
         Note: some formats are unavailable in this libvips build.\n\
         A build with more format support is available at https://github.com/libvips/libvips/releases\n"
    );
}

#[test]
fn the_check_report_explains_a_missing_libvips() {
    let (text, code) = check_report("0.1.0", &Err(DiscoveryError::NotFound), false);
    assert_eq!(code, 1);
    assert!(text.contains("libvips:     NOT USABLE\n"));
    assert!(text.contains("Could not find vips.exe on your PATH"));
    assert!(text.contains("Alternatively set VIPS_GUI_VIPS_EXE to the full path of vips.exe."));
}
