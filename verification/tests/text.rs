use pullbell::clock::{current_time, read_time, time_from_epoch_distance, write_time};
use pullbell::paths::{data_file_path, join_path, DONE_PRS_FILE};
use pullbell::text::{escape_attr, escape_html, parse_u64, replace, str_less, trim};
use pullbell::updater::{
    cask_missing_message, find_brew_executable, update_failed_message_for_log, BREW_NOT_FOUND,
    CASK_NOT_INSTALLED,
};

#[test]
fn escapes_markup_characters() {
    assert_eq!(escape_html("a & <b> \"c\" 'd'"), "a &amp; &lt;b&gt; &quot;c&quot; &#39;d&#39;");
    assert_eq!(escape_attr("x"), "x");
}

#[test]
fn trims_replaces_and_parses() {
    assert_eq!(trim("  a b \n"), "a b");
    assert_eq!(replace("a-b-c", "-", "+"), "a+b+c");
    assert_eq!(parse_u64("42"), Some(42));
    assert_eq!(parse_u64("18446744073709551616"), None);
    assert_eq!(parse_u64(""), None);
    assert!(str_less("a", "b"));
    assert!(!str_less("b", "b"));
}

#[test]
fn joins_data_paths() {
    assert_eq!(join_path("/data", "pullbell"), "/data/pullbell");
    assert_eq!(join_path("/data/", "pullbell"), "/data/pullbell");
    assert_eq!(data_file_path("/home/u/.local/share", DONE_PRS_FILE), "/home/u/.local/share/pullbell/done-prs.json");
}

#[test]
fn update_messages_point_to_the_log() {
    assert_eq!(
        update_failed_message_for_log(Some(20), "1.2.3", Some("/log".to_string())),
        "Homebrew did not install Pullbell 1.2.3. Check that the Homebrew cask has been updated. See /log."
    );
    assert_eq!(
        update_failed_message_for_log(Some(1), "1.2.3", None),
        "Homebrew update failed. See the Pullbell update log."
    );
}

#[test]
fn finds_homebrew_and_explains_a_missing_cask() {
    assert_eq!(find_brew_executable([false, true]), Ok("/usr/local/bin/brew"));
    assert_eq!(find_brew_executable([true, true]), Ok("/opt/homebrew/bin/brew"));
    assert_eq!(find_brew_executable([false, false]), Err(BREW_NOT_FOUND));
    assert_eq!(cask_missing_message(b"\n  Error: no cask\nmore", b"out"), "Error: no cask");
    assert_eq!(cask_missing_message(b"  ", b"line\n"), "line");
    assert_eq!(cask_missing_message(b"", b""), CASK_NOT_INSTALLED);
}

#[test]
fn reads_and_writes_times_as_serde_does() {
    assert_eq!(read_time(&Some("2024-05-01T12:00:00Z".to_string())), Some(Some((1_714_564_800, 0))));
    assert_eq!(
        read_time(&Some("2024-05-01T14:00:00.25+02:00".to_string())),
        Some(Some((1_714_564_800, 250_000_000)))
    );
    assert_eq!(read_time(&Some("yesterday".to_string())), None);
    assert_eq!(read_time(&None), Some(None));
    assert_eq!(write_time(Some((1_714_564_800, 0))), Some(Some("2024-05-01T12:00:00Z".to_string())));
    assert_eq!(
        write_time(Some((1_714_564_800, 250_000_000))),
        Some(Some("2024-05-01T12:00:00.250Z".to_string()))
    );
    assert_eq!(write_time(Some((i64::MAX, 0))), None);
    assert_eq!(write_time(None), Some(None));
    let now = current_time();
    assert!(now.0 > 1_600_000_000 && now.1 < 1_000_000_000);
}

#[test]
fn clock_distances_become_times() {
    assert_eq!(time_from_epoch_distance(Ok((5, 7))), (5, 7));
    assert_eq!(time_from_epoch_distance(Err((1, 0))), (-1, 0));
    assert_eq!(time_from_epoch_distance(Err((1, 250_000_000))), (-2, 750_000_000));
    assert_eq!(time_from_epoch_distance(Ok((u64::MAX, 3))), (i64::MAX, 3));
    assert_eq!(time_from_epoch_distance(Err((u64::MAX, 0))), (i64::MIN, 0));
    assert_eq!(time_from_epoch_distance(Err((u64::MAX, 9))), (i64::MIN, 0));
}
