use std::str::FromStr;

use bumpit::{BumpError, BumpKind, Version, VersionModifier};

fn bumped(current: &str, kind: BumpKind, label: Option<&str>) -> Result<Version, BumpError> {
    let mut version = Version::parse(current).unwrap();
    let modifier = VersionModifier::new(kind, label.map(|l| l.to_owned()));
    assert!(modifier.can_apply(&version));
    modifier.apply(&mut version).map(|()| version)
}

#[test]
fn test_replace() {
    let mut version = Version::parse("0.1.0").unwrap();
    let modifier = VersionModifier::new(BumpKind::Replace(Version::parse("0.2.0").unwrap()), None);
    modifier.apply(&mut version).unwrap();
    assert_eq!(version, Version::parse("0.2.0").unwrap());
}

#[test]
fn test_premajor() {
    let mut version = Version::parse("0.1.0").unwrap();
    let modifier = VersionModifier::new(BumpKind::PreMajor, None);
    modifier.apply(&mut version).unwrap();
    assert_eq!(version, Version::parse("1.0.0-0").unwrap());
}

#[test]
fn test_major() {
    let mut version = Version::parse("0.1.0").unwrap();
    let modifier = VersionModifier::new(BumpKind::Major, None);
    modifier.apply(&mut version).unwrap();
    assert_eq!(version, Version::parse("1.0.0").unwrap());
}

#[test]
fn test_major_prereleased() {
    let mut version = Version::parse("1.0.0-rc.0").unwrap();
    let modifier = VersionModifier::new(BumpKind::Major, None);
    modifier.apply(&mut version).unwrap();
    assert_eq!(version, Version::parse("1.0.0").unwrap());
}

#[test]
fn test_preminor() {
    let mut version = Version::parse("0.1.0").unwrap();
    let modifier = VersionModifier::new(BumpKind::PreMinor, None);
    modifier.apply(&mut version).unwrap();
    assert_eq!(version, Version::parse("0.2.0-0").unwrap());
}

#[test]
fn test_minor() {
    let mut version = Version::parse("0.1.0").unwrap();
    let modifier = VersionModifier::new(BumpKind::Minor, None);
    modifier.apply(&mut version).unwrap();
    assert_eq!(version, Version::parse("0.2.0").unwrap());
}

#[test]
fn test_minor_prereleased() {
    let mut version = Version::parse("0.1.0-rc.0").unwrap();
    let modifier = VersionModifier::new(BumpKind::Minor, None);
    modifier.apply(&mut version).unwrap();
    assert_eq!(version, Version::parse("0.1.0").unwrap());
}

#[test]
fn test_prepatch() {
    let mut version = Version::parse("0.1.0").unwrap();
    let modifier = VersionModifier::new(BumpKind::PrePatch, None);
    modifier.apply(&mut version).unwrap();
    assert_eq!(version, Version::parse("0.1.1-0").unwrap());
}

#[test]
fn test_patch() {
    let mut version = Version::parse("0.1.0").unwrap();
    let modifier = VersionModifier::new(BumpKind::Patch, None);
    modifier.apply(&mut version).unwrap();
    assert_eq!(version, Version::parse("0.1.1").unwrap());
}

#[test]
fn test_patch_prereleased() {
    let mut version = Version::parse("0.1.1-rc.0").unwrap();
    let modifier = VersionModifier::new(BumpKind::Patch, None);
    modifier.apply(&mut version).unwrap();
    assert_eq!(version, Version::parse("0.1.1").unwrap());
}

#[test]
fn test_prerelease() {
    let mut version = Version::parse("0.1.0").unwrap();
    let modifier = VersionModifier::new(BumpKind::PreRelease, None);
    modifier.apply(&mut version).unwrap();
    assert_eq!(version, Version::parse("0.1.1-0").unwrap());
}

#[test]
fn test_prerelease_prereleased() {
    let mut version = Version::parse("0.1.0-0").unwrap();
    let modifier = VersionModifier::new(BumpKind::PreRelease, None);
    modifier.apply(&mut version).unwrap();
    assert_eq!(version, Version::parse("0.1.0-1").unwrap());
}

#[test]
fn test_prerelease_prereleased_restart() {
    let mut version = Version::parse("0.1.0-1").unwrap();
    let modifier = VersionModifier::new(BumpKind::PreRelease, Some("rc".to_owned()));
    modifier.apply(&mut version).unwrap();
    assert_eq!(version, Version::parse("0.1.0-rc.0").unwrap());
}

#[test]
fn test_prerelease_with_id() {
    let mut version = Version::parse("0.1.0").unwrap();
    let modifier = VersionModifier::new(BumpKind::PreRelease, Some("rc".to_owned()));
    modifier.apply(&mut version).unwrap();
    assert_eq!(version, Version::parse("0.1.1-rc.0").unwrap());
}

#[test]
fn test_prerelease_with_id_prereleased() {
    let mut version = Version::parse("0.1.0-rc.0").unwrap();
    let modifier = VersionModifier::new(BumpKind::PreRelease, Some("rc".to_owned()));
    modifier.apply(&mut version).unwrap();
    assert_eq!(version, Version::parse("0.1.0-rc.1").unwrap());
}

#[test]
fn test_prerelease_with_id_prereleased_restart() {
    let mut version = Version::parse("0.1.0-alpha.1").unwrap();
    let modifier = VersionModifier::new(BumpKind::PreRelease, Some("rc".to_owned()));
    modifier.apply(&mut version).unwrap();
    assert_eq!(version, Version::parse("0.1.0-rc.0").unwrap());
}

#[test]
fn replace_ignores_the_current_version() {
    for current in ["0.0.0", "9.9.9-rc.x+b", "1.2.3-beta"] {
        let w = Version::parse("4.5.6-a.1+meta").unwrap();
        let got = bumped(current, BumpKind::Replace(w.duplicate()), Some("zz")).unwrap();
        assert_eq!(got, w);
        assert_eq!(got.to_string(), "4.5.6-a.1+meta");
    }
}

#[test]
fn major_of_a_release_resets_what_is_below() {
    let got = bumped("3.7.9+build.5", BumpKind::Major, None).unwrap();
    assert_eq!((got.major, got.minor, got.patch), (4, 0, 0));
    assert_eq!(got.pre, "");
    assert_eq!(got.build, "");
}

#[test]
fn major_of_a_prerelease_only_clears_the_tag() {
    let got = bumped("3.7.9-rc.4+build.5", BumpKind::Major, Some("rc")).unwrap();
    assert_eq!(got.to_string(), "3.7.9+build.5");
    let got = bumped("3.7.9-rc.4", BumpKind::Minor, None).unwrap();
    assert_eq!(got.to_string(), "3.7.9");
    let got = bumped("3.7.9-0", BumpKind::Patch, None).unwrap();
    assert_eq!(got.to_string(), "3.7.9");
}

#[test]
fn minor_and_patch_of_a_release() {
    assert_eq!(bumped("3.7.9", BumpKind::Minor, None).unwrap().to_string(), "3.8.0");
    assert_eq!(bumped("3.7.9", BumpKind::Patch, None).unwrap().to_string(), "3.7.10");
    assert_eq!(bumped("3.7.9+b", BumpKind::Patch, None).unwrap().to_string(), "3.7.10");
}

#[test]
fn pre_directives_start_at_zero() {
    assert_eq!(bumped("1.2.3", BumpKind::PreMajor, Some("rc")).unwrap().to_string(), "2.0.0-rc.0");
    assert_eq!(bumped("1.2.3", BumpKind::PreMinor, Some("rc")).unwrap().to_string(), "1.3.0-rc.0");
    assert_eq!(bumped("1.2.3", BumpKind::PrePatch, Some("rc")).unwrap().to_string(), "1.2.4-rc.0");
    assert_eq!(bumped("1.2.3-rc.7+b", BumpKind::PreMajor, None).unwrap().to_string(), "2.0.0-0");
    assert_eq!(bumped("1.2.3-rc.7", BumpKind::PrePatch, Some("a.b")).unwrap().to_string(), "1.2.4-a.b.0");
}

#[test]
fn train_continues_with_the_same_label() {
    assert_eq!(bumped("0.1.0-rc.1", BumpKind::PreRelease, Some("rc")).unwrap().to_string(), "0.1.0-rc.2");
    assert_eq!(bumped("0.1.0-rc.9", BumpKind::PreRelease, Some("rc")).unwrap().to_string(), "0.1.0-rc.10");
    assert_eq!(bumped("0.1.0-41", BumpKind::PreRelease, None).unwrap().to_string(), "0.1.0-42");
    assert_eq!(bumped("0.1.0-rc.1+b.2", BumpKind::PreRelease, Some("rc")).unwrap().to_string(), "0.1.0-rc.2+b.2");
}

#[test]
fn train_switch_resets_the_counter() {
    assert_eq!(bumped("0.1.0-alpha.1", BumpKind::PreRelease, Some("rc")).unwrap().to_string(), "0.1.0-rc.0");
    assert_eq!(bumped("0.1.0-alpha.1", BumpKind::PreRelease, None).unwrap().to_string(), "0.1.0-0");
    assert_eq!(bumped("0.1.0-7", BumpKind::PreRelease, Some("rc")).unwrap().to_string(), "0.1.0-rc.0");
}

#[test]
fn prerelease_of_a_release_moves_to_the_next_patch() {
    assert_eq!(bumped("0.1.0", BumpKind::PreRelease, None).unwrap().to_string(), "0.1.1-0");
    assert_eq!(bumped("0.1.0+b", BumpKind::PreRelease, Some("dev")).unwrap().to_string(), "0.1.1-dev.0");
}

#[test]
fn label_without_counter_starts_at_zero() {
    assert_eq!(bumped("0.1.0-beta", BumpKind::PreRelease, Some("beta")).unwrap().to_string(), "0.1.0-beta.0");
    assert_eq!(bumped("0.1.0-beta", BumpKind::PreRelease, Some("rc")).unwrap().to_string(), "0.1.0-rc.0");
    assert_eq!(bumped("0.1.0-beta", BumpKind::PreRelease, None).unwrap().to_string(), "0.1.0-0");
}

#[test]
fn dotted_numbers_split_at_the_first_dot() {
    assert_eq!(bumped("0.1.0-1.2", BumpKind::PreRelease, Some("1")).unwrap().to_string(), "0.1.0-1.3");
    assert_eq!(bumped("0.1.0-1.2", BumpKind::PreRelease, None).unwrap().to_string(), "0.1.0-0");
}

#[test]
fn malformed_tag_is_unsupported() {
    for current in ["0.1.0-rc.x", "0.1.0-rc.1.2", "0.1.0-rc.1x", "0.1.0-rc.-1", "0.1.0-a.b.c"] {
        for label in [None, Some("rc"), Some("other")] {
            let before = Version::parse(current).unwrap();
            let mut version = before.duplicate();
            let modifier = VersionModifier::new(BumpKind::PreRelease, label.map(|l| l.to_owned()));
            assert!(modifier.can_apply(&version));
            assert_eq!(modifier.apply(&mut version), Err(BumpError::UnsupportedPrereleaseScheme));
            assert_eq!(version, before);
        }
    }
}

#[test]
fn counter_beyond_64_bits_is_unsupported() {
    let got = bumped("0.1.0-rc.18446744073709551616", BumpKind::PreRelease, Some("rc"));
    assert_eq!(got, Err(BumpError::UnsupportedPrereleaseScheme));
    let got = bumped("0.1.0-18446744073709551616", BumpKind::PreRelease, None).unwrap();
    assert_eq!(got.to_string(), "0.1.0-0");
}

#[test]
fn invalid_label_is_a_format_error() {
    for kind in [BumpKind::PreMajor, BumpKind::PreMinor, BumpKind::PrePatch, BumpKind::PreRelease] {
        for label in ["r c", "", "rc.", ".rc", "a..b", "01", "rc.007", "r_c", "é", "a+b"] {
            for current in ["1.2.3", "1.2.3-alpha.1+b"] {
                let before = Version::parse(current).unwrap();
                let mut version = before.duplicate();
                let modifier = VersionModifier::new(kind.clone(), Some(label.to_owned()));
                assert!(modifier.can_apply(&version));
                assert_eq!(modifier.apply(&mut version), Err(BumpError::PrereleaseFormatError));
                assert_eq!(version, before);
            }
        }
    }
}

#[test]
fn release_directives_ignore_the_label() {
    assert_eq!(bumped("1.2.3", BumpKind::Major, Some("r c")).unwrap().to_string(), "2.0.0");
    assert_eq!(bumped("1.2.3-x", BumpKind::Patch, Some("")).unwrap().to_string(), "1.2.3");
}

#[test]
fn can_apply_tells_the_limits() {
    let top = "18446744073709551615";
    let cases = [
        (format!("{top}.0.0"), BumpKind::Major, None, false),
        (format!("{top}.0.0"), BumpKind::PreMajor, None, false),
        (format!("{top}.0.0-rc.1"), BumpKind::Major, None, true),
        (format!("{top}.0.0-rc.1"), BumpKind::PreMajor, None, false),
        (format!("{top}.0.0"), BumpKind::Minor, None, true),
        (format!("0.{top}.0"), BumpKind::Minor, None, false),
        (format!("0.{top}.0"), BumpKind::PreMinor, None, false),
        (format!("0.{top}.0-0"), BumpKind::Minor, None, true),
        (format!("0.0.{top}"), BumpKind::Patch, None, false),
        (format!("0.0.{top}"), BumpKind::PrePatch, None, false),
        (format!("0.0.{top}"), BumpKind::PreRelease, None, false),
        (format!("0.0.{top}-0"), BumpKind::PreRelease, None, true),
        (format!("0.0.{top}-0"), BumpKind::Patch, None, true),
        (format!("0.0.1-rc.{top}"), BumpKind::PreRelease, Some("rc"), false),
        (format!("0.0.1-rc.{top}"), BumpKind::PreRelease, Some("dev"), true),
        (format!("0.0.1-{top}"), BumpKind::PreRelease, None, false),
        (format!("0.0.1-{top}"), BumpKind::PreRelease, Some("rc"), true),
        (format!("{top}.{top}.{top}"), BumpKind::Replace(Version::new(1, 2, 3)), None, true),
    ];
    for (current, kind, label, expected) in cases {
        let version = Version::parse(&current).unwrap();
        let modifier = VersionModifier::new(kind, label.map(|l: &str| l.to_owned()));
        assert_eq!(modifier.can_apply(&version), expected, "{current}");
    }
}

#[test]
fn largest_counter_that_still_grows() {
    let got = bumped("0.0.1-rc.18446744073709551614", BumpKind::PreRelease, Some("rc")).unwrap();
    assert_eq!(got.to_string(), "0.0.1-rc.18446744073709551615");
    let got = bumped("18446744073709551614.5.5", BumpKind::Major, None).unwrap();
    assert_eq!(got.to_string(), "18446744073709551615.0.0");
}

#[test]
fn same_input_same_result() {
    let a = bumped("0.1.0-rc.1", BumpKind::PreRelease, Some("rc"));
    let b = bumped("0.1.0-rc.1", BumpKind::PreRelease, Some("rc"));
    assert_eq!(a, b);
}

#[test]
fn directive_from_a_word() {
    assert_eq!(BumpKind::from_str("premajor"), Ok(BumpKind::PreMajor));
    assert_eq!(BumpKind::from_str("major"), Ok(BumpKind::Major));
    assert_eq!(BumpKind::from_str("preminor"), Ok(BumpKind::PreMinor));
    assert_eq!(BumpKind::from_str("minor"), Ok(BumpKind::Minor));
    assert_eq!(BumpKind::from_str("prepatch"), Ok(BumpKind::PrePatch));
    assert_eq!(BumpKind::from_str("patch"), Ok(BumpKind::Patch));
    assert_eq!(BumpKind::from_str("prerelease"), Ok(BumpKind::PreRelease));
    assert_eq!(
        BumpKind::from_str("1.2.3-rc.1"),
        Ok(BumpKind::Replace(Version::parse("1.2.3-rc.1").unwrap()))
    );
}

#[test]
fn directive_through_parse() {
    assert_eq!("prerelease".parse::<BumpKind>(), Ok(BumpKind::PreRelease));
    assert_eq!("0.2.0".parse::<BumpKind>(), Ok(BumpKind::Replace(Version::new(0, 2, 0))));
    assert_eq!("0.2".parse::<BumpKind>(), Err(BumpError::InvalidVersionString));
}

#[test]
fn directive_words_are_exact() {
    for word in ["Major", "MAJOR", "maj", "major ", " major", "pre", "", "pre-release", "1.2", "v1.2.3"] {
        assert_eq!(BumpKind::from_str(word), Err(BumpError::InvalidVersionString), "{word}");
    }
}

#[test]
fn modifier_keeps_what_it_was_made_of() {
    let modifier = VersionModifier::new(BumpKind::PreMinor, Some("rc".to_owned()));
    assert_eq!(modifier.kind, BumpKind::PreMinor);
    assert_eq!(modifier.pre_id, Some("rc".to_owned()));
    assert_eq!(modifier, VersionModifier::new(BumpKind::PreMinor, Some("rc".to_owned())));
}
