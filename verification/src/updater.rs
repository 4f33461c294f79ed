use vstd::prelude::*;
use vstd::string::StringExecFns;
use crate::model::AvailableUpdate;
use crate::paths::{data_file_text, pullbell_data_file};
use vstd::utf8::{decode_utf8, valid_utf8};
use crate::text::{
    before_either, before_either_chars, chars_of, first_nonblank_line, first_nonblank_line_of,
    parse_u64_chars, parsed_u64, split_chars, split_on, split_on_not_empty, string_of,
    strip_leading, strip_leading_chars, trim_bounds, trimmed,
};

verus! {

/// The version of this Pullbell build.
pub const APP_VERSION: &'static str = "0.6.0";

/// The page that lists Pullbell's releases.
pub const RELEASES_URL: &'static str = "https://github.com/urugus/Pullbell/releases";

/// The API URL of Pullbell's latest release.
pub const LATEST_RELEASE_URL: &'static str = "https://api.github.com/repos/urugus/Pullbell/releases/latest";

/// The Homebrew cask that installs Pullbell.
pub const HOMEBREW_CASK: &'static str = "pullbell";

/// The file that the Homebrew updater writes its log to.
pub const UPDATE_LOG_FILE_NAME: &'static str = "homebrew-update.log";

/// Where Homebrew is looked for, in order.
pub const BREW_CANDIDATES: [&'static str; 2] = ["/opt/homebrew/bin/brew", "/usr/local/bin/brew"];

/// The exit code of the updater script when Homebrew installed another
/// version than the expected one.
pub const VERSION_MISMATCH_EXIT_CODE: i32 = 20;

/// The shell script that updates Pullbell with Homebrew and restarts it.
pub const HOMEBREW_UPDATE_SCRIPT: &'static str = r#"
set -e
echo "==== Pullbell Homebrew update started $(date -u +%Y-%m-%dT%H:%M:%SZ) ===="
trap 'exit_code=$?; if [ "$exit_code" -ne 0 ]; then echo "__PULLBELL_HOMEBREW_UPDATE_FAILED__ status=$exit_code"; open "$PULLBELL_APP_PATH" >/dev/null 2>&1 || true; fi' EXIT
mkdir -p "$PULLBELL_APPDIR"
"$PULLBELL_BREW_PATH" update
"$PULLBELL_BREW_PATH" upgrade --cask --appdir "$PULLBELL_APPDIR" pullbell
installed_version="$(/usr/libexec/PlistBuddy -c 'Print :CFBundleShortVersionString' "$PULLBELL_APP_PATH/Contents/Info.plist" 2>/dev/null || true)"
echo "Installed Pullbell version: ${installed_version:-unknown}"
if [ "$installed_version" != "$PULLBELL_EXPECTED_VERSION" ]; then
  echo "__PULLBELL_HOMEBREW_UPDATE_VERSION_MISMATCH__ expected=$PULLBELL_EXPECTED_VERSION actual=${installed_version:-unknown}"
  exit 20
fi
echo "__PULLBELL_HOMEBREW_UPDATE_SUCCESS__ $(date -u +%Y-%m-%dT%H:%M:%SZ)"
osascript -e 'display dialog "Pullbell was updated. Restart now to use the new version." buttons {"Restart"} default button "Restart" with title "Pullbell update"' >/dev/null 2>&1 || true
osascript -e 'tell application id "com.github.urugus.pullbell" to quit' >/dev/null 2>&1 || true
sleep 1
if ! open -n "$PULLBELL_APP_PATH"; then
  echo "__PULLBELL_HOMEBREW_REOPEN_FAILED__"
fi
"#;

// ---------------------------------------------------------------------------
// Versions
// ---------------------------------------------------------------------------

/// The `major.minor.patch` part of a version text: trimmed, without leading
/// `v`s, cut at the first `-` or `+`.
pub open spec fn version_core(value: Seq<char>) -> Seq<char> {
    before_either(strip_leading(trimmed(value), 'v'), '-', '+')
}

/// The version that a text names: up to three numbers separated by dots, a
/// missing minor or patch number counting as 0.
pub open spec fn version_of(value: Seq<char>) -> Option<(u64, u64, u64)> {
    let parts = split_on(version_core(value), '.');
    if parts.len() > 3 {
        None
    } else {
        let major = parsed_u64(parts[0]);
        let minor = if parts.len() > 1 {
            parsed_u64(parts[1])
        } else {
            Some(0u64)
        };
        let patch = if parts.len() > 2 {
            parsed_u64(parts[2])
        } else {
            Some(0u64)
        };
        match (major, minor, patch) {
            (Some(a), Some(b), Some(c)) => Some((a, b, c)),
            _ => None,
        }
    }
}

/// Parses a release version such as `v1.2.3` or `1.2.3-beta.1`.
pub fn parse_version(value: &str) -> (r: Option<(u64, u64, u64)>)
    ensures
        r == version_of(value@),
{
    let v = chars_of(value);
    let (i, j) = trim_bounds(&v);
    let t = chars_of(crate::text::string_of_range(&v, i, j).as_str());
    let s = strip_leading_chars(&t, 'v');
    let core = before_either_chars(&s, '-', '+');
    let parts = split_chars(&core, '.');
    proof {
        split_on_not_empty(core@, '.');
    }
    if parts.len() > 3 {
        return None;
    }
    let major = parse_u64_chars(&parts[0]);
    let minor = if parts.len() > 1 { parse_u64_chars(&parts[1]) } else { Some(0) };
    let patch = if parts.len() > 2 { parse_u64_chars(&parts[2]) } else { Some(0) };
    match (major, minor, patch) {
        (Some(a), Some(b), Some(c)) => Some((a, b, c)),
        _ => None,
    }
}

/// Whether version `a` is older than version `b`.
pub open spec fn version_less(a: (u64, u64, u64), b: (u64, u64, u64)) -> bool {
    a.0 < b.0 || (a.0 == b.0 && (a.1 < b.1 || (a.1 == b.1 && a.2 < b.2)))
}

/// Whether `latest` names a newer version than `current`; never when either
/// is not a version.
pub open spec fn newer_version(current: Seq<char>, latest: Seq<char>) -> bool {
    match (version_of(current), version_of(latest)) {
        (Some(c), Some(l)) => version_less(c, l),
        _ => false,
    }
}

/// "Newer" orders version texts strictly: no version is newer than itself,
/// two versions are never each newer than the other, and a version newer
/// than one that is newer than a third is newer than the third.
pub proof fn newer_version_is_strict_order(a: Seq<char>, b: Seq<char>, c: Seq<char>)
    ensures
        !newer_version(a, a),
        newer_version(a, b) ==> !newer_version(b, a),
        newer_version(a, b) && newer_version(b, c) ==> newer_version(a, c),
{
}

/// How versions compare, for texts that parse to versions `c` (current) and
/// `l` (latest): a larger major number is newer whatever the minor and patch
/// numbers; with the same major number a larger minor number is newer
/// whatever the patch numbers; with the same major and minor numbers a
/// larger patch number is newer; a smaller number at the first place where
/// they differ, or no difference at all, is not newer.
pub proof fn newer_version_compares_major_then_minor_then_patch(
    current: Seq<char>,
    latest: Seq<char>,
    c: (u64, u64, u64),
    l: (u64, u64, u64),
)
    requires
        version_of(current) == Some(c),
        version_of(latest) == Some(l),
    ensures
        c.0 < l.0 ==> newer_version(current, latest),
        c.0 == l.0 && c.1 < l.1 ==> newer_version(current, latest),
        c.0 == l.0 && c.1 == l.1 && c.2 < l.2 ==> newer_version(current, latest),
        c.0 > l.0 ==> !newer_version(current, latest),
        c.0 == l.0 && c.1 > l.1 ==> !newer_version(current, latest),
        c.0 == l.0 && c.1 == l.1 && c.2 >= l.2 ==> !newer_version(current, latest),
{
}

/// A text that names no version is never older or newer than another.
pub proof fn unknown_versions_are_never_newer(current: Seq<char>, latest: Seq<char>)
    requires
        version_of(current) is None || version_of(latest) is None,
    ensures
        !newer_version(current, latest),
{
}

/// Whether `latest` names a newer version than `current`.
pub fn is_newer_version(current: &str, latest: &str) -> (r: bool)
    ensures
        r == newer_version(current@, latest@),
{
    match (parse_version(current), parse_version(latest)) {
        (Some(c), Some(l)) => c.0 < l.0 || (c.0 == l.0 && (c.1 < l.1 || (c.1 == l.1 && c.2 < l.2))),
        _ => false,
    }
}

/// The update that the latest release offers, if it is newer than
/// `current_version`. The release tag's leading `v`s are dropped.
pub fn available_update_from_release(current_version: &str, tag_name: &str, html_url: String) -> (r: Option<AvailableUpdate>)
    ensures
        match r {
            Some(u) => newer_version(current_version@, strip_leading(tag_name@, 'v'))
                && u.latest_version@ == strip_leading(tag_name@, 'v') && u.release_url == html_url
                && u.download_url is None && u.download_name is None && u.checksum_url is None,
            None => !newer_version(current_version@, strip_leading(tag_name@, 'v')),
        },
{
    let latest = string_of(&strip_leading_chars(&chars_of(tag_name), 'v'));
    if is_newer_version(current_version, latest.as_str()) {
        Some(
            AvailableUpdate {
                latest_version: latest,
                release_url: html_url,
                download_url: None,
                download_name: None,
                checksum_url: None,
            },
        )
    } else {
        None
    }
}


// ---------------------------------------------------------------------------
// The Homebrew updater's messages
// ---------------------------------------------------------------------------

/// The path of the Homebrew updater's log, or `None` when there is no data
/// directory.
pub fn homebrew_update_log_path() -> (r: Option<String>)
    ensures
        r matches Some(p) ==> exists|d: Seq<char>| p@ == data_file_text(d, UPDATE_LOG_FILE_NAME@),
{
    pullbell_data_file(UPDATE_LOG_FILE_NAME)
}

/// What to tell the user when the Homebrew updater exited with `exit_code`
/// while installing `latest_version`, pointing to the log at `log_path`.
pub open spec fn failed_message_text(exit_code: Option<i32>, latest_version: Seq<char>, log_path: Option<Seq<char>>) -> Seq<char> {
    let log = match log_path {
        Some(p) => p,
        None => "the Pullbell update log"@,
    };
    if exit_code == Some(VERSION_MISMATCH_EXIT_CODE) {
        "Homebrew did not install Pullbell "@ + latest_version
            + ". Check that the Homebrew cask has been updated. See "@ + log + "."@
    } else {
        "Homebrew update failed. See "@ + log + "."@
    }
}

/// What to tell the user when the Homebrew updater failed, given where its
/// log is.
pub fn update_failed_message_for_log(exit_code: Option<i32>, latest_version: &str, log_path: Option<String>) -> (r: String)
    ensures
        r@ == failed_message_text(exit_code, latest_version@, match log_path {
            Some(p) => Some(p@),
            None => None,
        }),
{
    let log = match log_path {
        Some(p) => p,
        None => "the Pullbell update log".to_string(),
    };
    if exit_code == Some(VERSION_MISMATCH_EXIT_CODE) {
        let mut r = "Homebrew did not install Pullbell ".to_string();
        r.append(latest_version);
        r.append(". Check that the Homebrew cask has been updated. See ");
        r.append(log.as_str());
        r.append(".");
        r
    } else {
        let mut r = "Homebrew update failed. See ".to_string();
        r.append(log.as_str());
        r.append(".");
        r
    }
}

/// What to tell the user when the Homebrew updater exited with `exit_code`
/// while installing `latest_version`; the log is in the data directory.
pub fn update_failed_message(exit_code: Option<i32>, latest_version: &str) -> (r: String)
    ensures
        exists|log: Option<Seq<char>>| r@ == failed_message_text(exit_code, latest_version@, log),
{
    let log = homebrew_update_log_path();
    let ghost l = match &log {
        Some(p) => Some(p@),
        None => None::<Seq<char>>,
    };
    let r = update_failed_message_for_log(exit_code, latest_version, log);
    assert(r@ == failed_message_text(exit_code, latest_version@, l));
    r
}

/// Decodes UTF-8 bytes (`std::str::from_utf8`): `None` unless they are valid
/// UTF-8, else the text they encode.
#[verifier::external_body]
fn utf8_text(bytes: &[u8]) -> (r: Option<String>)
    ensures
        r is Some <==> valid_utf8(bytes@),
        r matches Some(s) ==> s@ == decode_utf8(bytes@),
{
    match std::str::from_utf8(bytes) {
        Ok(text) => Some(text.to_string()),
        Err(_) => None,
    }
}

/// The first line with text of a command's error output, else of its
/// standard output; output that is not UTF-8 counts as empty.
pub open spec fn output_message(stderr: Seq<u8>, stdout: Seq<u8>) -> Option<Seq<char>> {
    let from_err = if valid_utf8(stderr) {
        first_nonblank_line(decode_utf8(stderr))
    } else {
        None
    };
    if from_err is Some {
        from_err
    } else if valid_utf8(stdout) {
        first_nonblank_line(decode_utf8(stdout))
    } else {
        None
    }
}

/// The message that a failed command printed first.
pub fn command_output_message(stderr: &[u8], stdout: &[u8]) -> (r: Option<String>)
    ensures
        match r {
            Some(s) => output_message(stderr@, stdout@) == Some(s@),
            None => output_message(stderr@, stdout@) is None,
        },
{
    if let Some(text) = utf8_text(stderr) {
        if let Some(line) = first_nonblank_line_of(&chars_of(text.as_str())) {
            return Some(line);
        }
    }
    if let Some(text) = utf8_text(stdout) {
        return first_nonblank_line_of(&chars_of(text.as_str()));
    }
    None
}

// ---------------------------------------------------------------------------
// Finding Homebrew
// ---------------------------------------------------------------------------

/// What to tell the user when no Homebrew is installed.
pub const BREW_NOT_FOUND: &'static str = "Homebrew was not found. Install Pullbell with Homebrew cask first: brew install --cask urugus/tap/pullbell";

/// What to tell the user when the Pullbell cask is not installed and
/// Homebrew said nothing.
pub const CASK_NOT_INSTALLED: &'static str = "Pullbell Homebrew cask is not installed. Install it first with: brew install --cask urugus/tap/pullbell";

/// The first of `BREW_CANDIDATES` that exists, given whether each exists;
/// else the message that Homebrew was not found.
pub fn find_brew_executable(exists: [bool; 2]) -> (r: Result<&'static str, &'static str>)
    ensures
        r == if exists[0] {
            Ok::<&'static str, &'static str>(BREW_CANDIDATES[0])
        } else if exists[1] {
            Ok(BREW_CANDIDATES[1])
        } else {
            Err(BREW_NOT_FOUND)
        },
{
    if exists[0] {
        Ok(BREW_CANDIDATES[0])
    } else if exists[1] {
        Ok(BREW_CANDIDATES[1])
    } else {
        Err(BREW_NOT_FOUND)
    }
}

/// Why the Pullbell cask counts as not installed, after `brew list --cask`
/// failed with this output: the first line that Homebrew printed, else a
/// fixed message.
pub fn cask_missing_message(stderr: &[u8], stdout: &[u8]) -> (r: String)
    ensures
        r@ == match output_message(stderr@, stdout@) {
            Some(m) => m,
            None => CASK_NOT_INSTALLED@,
        },
{
    match command_output_message(stderr, stdout) {
        Some(m) => m,
        None => CASK_NOT_INSTALLED.to_string(),
    }
}

} // verus!
