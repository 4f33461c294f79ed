use pullbell::updater::{is_newer_version, parse_version, update_failed_message, HOMEBREW_UPDATE_SCRIPT};

#[test]
fn compares_semver_versions() {
    assert!(is_newer_version("0.2.0", "0.2.1"));
    assert!(is_newer_version("0.2.9", "0.3.0"));
    assert!(is_newer_version("0.9.0", "1.0.0"));
    assert!(!is_newer_version("0.2.1", "0.2.1"));
    assert!(!is_newer_version("0.3.0", "0.2.9"));
}

#[test]
fn strips_release_tag_prefix_and_prerelease_suffix() {
    assert_eq!(parse_version("v1.2.3"), Some((1, 2, 3)));
    assert_eq!(parse_version("1.2.3-beta.1"), Some((1, 2, 3)));
    assert_eq!(parse_version("1.2.3+build.1"), Some((1, 2, 3)));
}

#[test]
fn does_not_update_when_version_format_is_unknown() {
    assert!(!is_newer_version("0.2.0", "release-0.3.0"));
    assert!(!is_newer_version("not-semver", "0.3.0"));
}

#[test]
fn reports_homebrew_version_mismatch_with_expected_version() {
    assert!(update_failed_message(Some(20), "1.2.3").contains("Homebrew did not install Pullbell 1.2.3"));
}

#[test]
fn homebrew_update_script_uses_cask_and_restart_commands() {
    assert!(HOMEBREW_UPDATE_SCRIPT.contains("Homebrew update started"));
    assert!(HOMEBREW_UPDATE_SCRIPT.contains("upgrade --cask --appdir"));
    assert!(HOMEBREW_UPDATE_SCRIPT.contains("pullbell"));
    assert!(HOMEBREW_UPDATE_SCRIPT.contains("com.github.urugus.pullbell"));
}
