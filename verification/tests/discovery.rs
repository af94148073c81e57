use vips_gui::vips::discovery::{
    capabilities_from_output, is_vips_dir_name, locate, truncate_for_display, validate_output,
    well_known_roots, Capabilities, DiscoveryError, DiscoverySource,
};
use vips_gui::vips::{min_version, VipsVersion};

#[test]
fn parses_the_standard_vips_version_output() {
    let v = VipsVersion::parse("vips-8.18.6").expect("should parse");
    assert_eq!(v, VipsVersion { major: 8, minor: 18, patch: 6 });
}

#[test]
fn parses_with_surrounding_whitespace_and_newline() {
    let v = VipsVersion::parse("  vips-8.15.1\n").expect("should parse");
    assert_eq!(v.minor, 15);
    assert_eq!(v.patch, 1);
}

#[test]
fn parses_a_bare_version_without_the_vips_prefix() {
    let v = VipsVersion::parse("8.14.2").expect("should parse");
    assert_eq!(v, VipsVersion { major: 8, minor: 14, patch: 2 });
}

#[test]
fn parses_a_prerelease_by_discarding_the_suffix() {
    let v = VipsVersion::parse("vips-8.16.0-rc2").expect("should parse");
    assert_eq!(v, VipsVersion { major: 8, minor: 16, patch: 0 });
}

#[test]
fn treats_missing_components_as_zero() {
    assert_eq!(
        VipsVersion::parse("vips-9").expect("should parse"),
        VipsVersion { major: 9, minor: 0, patch: 0 }
    );
    assert_eq!(
        VipsVersion::parse("vips-8.20").expect("should parse"),
        VipsVersion { major: 8, minor: 20, patch: 0 }
    );
}

#[test]
fn rejects_output_with_no_version_in_it() {
    assert!(VipsVersion::parse("").is_none());
    assert!(VipsVersion::parse("   ").is_none());
    assert!(VipsVersion::parse("command not found").is_none());
    assert!(VipsVersion::parse("vips-").is_none());
    assert!(VipsVersion::parse("vips-x.y.z").is_none());
}

#[test]
fn version_ordering_is_numeric_not_lexicographic() {
    let older = VipsVersion::parse("vips-8.9.0").unwrap();
    let newer = VipsVersion::parse("vips-8.18.0").unwrap();
    assert!(older < newer);
    assert!(older < min_version());
    assert!(newer > min_version());
    assert!(!older.at_least(newer));
    assert!(newer.at_least(older));
}

#[test]
fn min_version_boundary_is_inclusive() {
    let exactly_min = VipsVersion::parse("8.13.0").unwrap();
    assert!(exactly_min >= min_version());
    assert!(exactly_min.at_least(min_version()));
    let just_below = VipsVersion::parse("8.12.9").unwrap();
    assert!(just_below < min_version());
    assert!(!just_below.at_least(min_version()));
}

#[test]
fn keep_option_switches_over_at_8_15() {
    assert!(!VipsVersion::parse("8.14.5").unwrap().uses_keep_option());
    assert!(VipsVersion::parse("8.15.0").unwrap().uses_keep_option());
    assert!(VipsVersion::parse("8.18.6").unwrap().uses_keep_option());
}

#[test]
fn detects_savers_from_a_real_vips_listing() {
    let listing = "\
    VipsForeignSavePng (pngsave_base), save png (.png), priority=0, mono rgb alpha
      VipsForeignSavePngFile (pngsave), save image to file as png, nocache (.png)
    VipsForeignSaveJpeg (jpegsave_base), save as jpeg (.jpg, .jpeg)
      VipsForeignSaveJpegFile (jpegsave), save as jpeg, nocache (.jpg)
    VipsForeignSaveWebp (webpsave_base), save as WebP (.webp)
      VipsForeignSaveWebpFile (webpsave), save as WebP, nocache (.webp)
    VipsForeignSaveHeif (heifsave_base), save image in HEIF format
      VipsForeignSaveHeifFile (heifsave), save image in HEIF format, nocache (.heic, .heif, .avif)";
    let caps = Capabilities::parse_listing(listing);
    assert!(caps.jpeg && caps.png && caps.webp && caps.avif);
    assert!(caps.all_present());
}

#[test]
fn detects_a_build_without_libheif() {
    let listing = "\
      VipsForeignSavePngFile (pngsave), save image to file as png, nocache (.png)
      VipsForeignSaveJpegFile (jpegsave), save as jpeg, nocache (.jpg)
      VipsForeignSaveWebpFile (webpsave), save as WebP, nocache (.webp)";
    let caps = Capabilities::parse_listing(listing);
    assert!(caps.jpeg && caps.png && caps.webp);
    assert!(!caps.avif, "AVIF must be reported as unavailable");
    assert!(!caps.all_present());
}

#[test]
fn saver_base_classes_alone_do_not_count_as_support() {
    let listing = "VipsForeignSaveHeif (heifsave_base), save image in HEIF format";
    let caps = Capabilities::parse_listing(listing);
    assert!(!caps.avif);
}

#[test]
fn a_missing_user_override_is_reported_as_such() {
    let err = locate(
        Some(("C:\\tmp\\not-here.exe".to_owned(), false)),
        None,
        || panic!("PATH must not be searched"),
        || panic!("install directories must not be scanned"),
    )
    .expect_err("should fail");
    assert!(
        matches!(err, DiscoveryError::OverrideMissing { ref path } if path == "C:\\tmp\\not-here.exe"),
        "got {err:?}"
    );
}

#[test]
fn user_override_takes_priority_over_everything_else() {
    // A file that exists is tried even when PATH would have a vips.
    let found = locate(
        Some(("C:\\tmp\\vips.exe".to_owned(), true)),
        Some(("C:\\env\\vips.exe".to_owned(), true)),
        || Some("C:\\path\\vips.exe".to_owned()),
        || None,
    )
    .expect("the override is the candidate");
    assert_eq!(found, ("C:\\tmp\\vips.exe".to_owned(), DiscoverySource::UserOverride));

    // And a candidate that is not a working vips is rejected on its output.
    let result = validate_output(
        "C:\\tmp\\vips.exe",
        DiscoverySource::UserOverride,
        b"not a real executable",
        b"",
        None,
    );
    match result {
        Err(DiscoveryError::UnreadableVersion { path, output }) => {
            assert_eq!(path, "C:\\tmp\\vips.exe");
            assert_eq!(output, "not a real executable");
        }
        other => panic!("expected the override to be attempted and rejected, got {other:?}"),
    }
}

#[test]
fn the_environment_override_is_used_when_there_is_no_user_choice() {
    let found = locate(
        None,
        Some(("C:\\env\\vips.exe".to_owned(), true)),
        || panic!("PATH must not be searched"),
        || panic!("install directories must not be scanned"),
    );
    assert_eq!(found, Ok(("C:\\env\\vips.exe".to_owned(), DiscoverySource::Environment)));

    let empty = locate(None, Some((String::new(), false)), || None, || None);
    assert_eq!(empty, Err(DiscoveryError::NotFound));

    // An empty value means no override: the normal search goes on.
    let empty_then_path =
        locate(None, Some((String::new(), false)), || Some("C:\\bin\\vips.exe".to_owned()), || None);
    assert_eq!(empty_then_path, Ok(("C:\\bin\\vips.exe".to_owned(), DiscoverySource::Path)));
    let empty_then_scan = locate(
        None,
        Some((String::new(), false)),
        || None,
        || Some("D:\\vips\\bin\\vips.exe".to_owned()),
    );
    assert_eq!(
        empty_then_scan,
        Ok(("D:\\vips\\bin\\vips.exe".to_owned(), DiscoverySource::WellKnownDirectory))
    );

    let missing = locate(None, Some(("C:\\gone.exe".to_owned(), false)), || None, || None);
    assert_eq!(
        missing,
        Err(DiscoveryError::OverrideMissing { path: "C:\\gone.exe".to_owned() })
    );
}

#[test]
fn path_comes_before_the_install_directories() {
    let found = locate(None, None, || Some("C:\\bin\\vips.exe".to_owned()), || {
        panic!("install directories must not be scanned")
    });
    assert_eq!(found, Ok(("C:\\bin\\vips.exe".to_owned(), DiscoverySource::Path)));

    let scanned = locate(None, None, || None, || Some("D:\\vips-8.18\\bin\\vips.exe".to_owned()));
    assert_eq!(
        scanned,
        Ok(("D:\\vips-8.18\\bin\\vips.exe".to_owned(), DiscoverySource::WellKnownDirectory))
    );

    assert_eq!(locate(None, None, || None, || None), Err(DiscoveryError::NotFound));
}

#[test]
fn install_roots_follow_the_documented_order() {
    let roots = well_known_roots(
        Some("C:\\Program Files"),
        None,
        Some("C:\\Users\\me\\AppData\\Local"),
        Some("C:\\Users\\me"),
        Some("C:\\ProgramData\\chocolatey"),
    );
    assert_eq!(
        roots,
        vec![
            "C:\\Program Files",
            "C:\\Program Files\\Programs",
            "C:\\Users\\me\\AppData\\Local",
            "C:\\Users\\me\\AppData\\Local\\Programs",
            "C:\\Users\\me",
            "C:\\Users\\me\\Programs",
            "C:\\Users\\me\\scoop\\apps\\libvips",
            "C:\\Users\\me\\scoop\\shims",
            "C:\\ProgramData\\chocolatey\\bin",
            "C:\\",
            "C:\\Bin",
            "C:\\tools",
            "D:\\",
            "D:\\Bin",
            "D:\\tools",
        ]
    );
    assert_eq!(well_known_roots(None, None, None, None, None).len(), 6);
}

#[test]
fn only_vips_folders_are_searched() {
    assert!(is_vips_dir_name("vips-dev-8.18"));
    assert!(is_vips_dir_name("VIPS-8.16"));
    assert!(is_vips_dir_name("libvips"));
    assert!(!is_vips_dir_name("Microsoft"));
    assert!(!is_vips_dir_name("my-vips"));
}

#[test]
fn validation_reports_each_way_a_candidate_can_fail() {
    let old = validate_output("vips.exe", DiscoverySource::Path, b"vips-8.12.0\n", b"", None);
    assert_eq!(
        old,
        Err(DiscoveryError::TooOld {
            path: "vips.exe".to_owned(),
            found: VipsVersion { major: 8, minor: 12, patch: 0 },
            min: min_version(),
        })
    );
    let ok = validate_output("vips.exe", DiscoverySource::Path, b"", b"vips-8.18.6\n", None)
        .expect("stderr is read when stdout is blank");
    assert_eq!(ok.version, VipsVersion { major: 8, minor: 18, patch: 6 });
    assert!(ok.capabilities.all_present(), "a failed probe assumes every saver");
    let msg = DiscoveryError::TooOld {
        path: "vips.exe".to_owned(),
        found: VipsVersion { major: 8, minor: 12, patch: 0 },
        min: min_version(),
    }
    .message();
    assert_eq!(
        msg,
        "Found libvips 8.12.0 at vips.exe, but this app needs 8.13.0 or newer. Please update libvips."
    );
}

#[test]
fn a_probe_that_prints_nothing_gives_no_capabilities() {
    assert_eq!(capabilities_from_output(b"  \n", b""), None);
    let caps = capabilities_from_output(b"", b"VipsForeignSaveJpegFile (jpegsave), save as jpeg")
        .expect("stderr is used when stdout is blank");
    assert!(caps.jpeg && !caps.png);
}

#[test]
fn display_truncation_keeps_dialogs_readable() {
    assert_eq!(truncate_for_display(""), "<nothing>");
    assert_eq!(truncate_for_display("short"), "short");
    assert_eq!(truncate_for_display("a\nb"), "a b");
    let long = "x".repeat(500);
    let out = truncate_for_display(&long);
    assert!(out.len() <= 124, "was {}", out.len());
    assert!(out.ends_with("..."));
}
