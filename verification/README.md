# Pullbell

Pullbell is a macOS menu bar app that watches GitHub for pull requests that
need attention: review requests for you and your teams, your own open pull
requests, and unread pull request notifications. It signs in with the GitHub
OAuth device flow, keeps the token in the keychain, raises a desktop
notification when a pull request newly needs action, and shows everything in
a small web panel.

## Layout

- `src/` is the library, verified with Verus:
  - `text.rs`: strings as character sequences (escaping, trimming, splitting,
    parsing numbers, ordering texts, sorted sets of texts);
  - `model.rs`: pull requests, their kinds, settings, and the merge of the
    lists that GitHub returns;
  - `state.rs`: what the menu bar item and the panel show, and how each event
    changes it;
  - `notifications.rs`: which pull requests newly need action;
  - `control.rs`: the commands the panel sends, deep links, and the background
    worker's decisions;
  - `github.rs`, `auth.rs`, `updater.rs`, `paths.rs`: GitHub request URLs and
    queries, reading GitHub's answers, the OAuth device flow's steps, release
    versions, and file locations;
  - `panel.rs`: the panel's page;
  - `clock.rs`: the current time, and reading and writing dates and times.
- `app/` is the program around it: the event loop, the window and the menu
  bar item, HTTP, the keychain, files and processes.
- `tests/` runs the library on examples.
