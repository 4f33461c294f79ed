use vstd::prelude::*;
use vstd::string::StringExecFns;

verus! {

/// The file that holds the pull requests marked done in Pullbell.
pub const DONE_PRS_FILE: &'static str = "done-prs.json";

/// The file that holds Pullbell's settings.
pub const SETTINGS_FILE: &'static str = "settings.json";

/// The directory, inside the user's data directory, that holds Pullbell's
/// files.
pub const APP_DIR_NAME: &'static str = "pullbell";

/// `base` joined with the relative path `part`, as `Path::join` does it: a
/// `/` goes between them unless `base` is empty or already ends in one.
pub open spec fn joined_path(base: Seq<char>, part: Seq<char>) -> Seq<char> {
    if base.len() == 0 {
        part
    } else if base.last() == '/' {
        base + part
    } else {
        base + "/"@ + part
    }
}

/// `base` joined with the relative path `part`.
pub fn join_path(base: &str, part: &str) -> (r: String)
    ensures
        r@ == joined_path(base@, part@),
{
    let mut r = base.to_string();
    let n = base.unicode_len();
    if n > 0 && base.get_char(n - 1) != '/' {
        r.append("/");
    }
    r.append(part);
    r
}

/// The path of Pullbell's file `file_name` inside the data directory
/// `data_dir`.
pub open spec fn data_file_text(data_dir: Seq<char>, file_name: Seq<char>) -> Seq<char> {
    joined_path(joined_path(data_dir, APP_DIR_NAME@), file_name)
}

/// The path of Pullbell's file `file_name` inside the data directory
/// `data_dir`.
pub fn data_file_path(data_dir: &str, file_name: &str) -> (r: String)
    ensures
        r@ == data_file_text(data_dir@, file_name@),
{
    let dir = join_path(data_dir, APP_DIR_NAME);
    join_path(dir.as_str(), file_name)
}

/// The user's data directory (`dirs::data_dir`), as text; `None` when the
/// platform has none. It comes from the environment, so nothing is promised
/// of its value.
#[verifier::external_body]
fn data_dir() -> (r: Option<String>) {
    match dirs::data_dir() {
        Some(path) => Some(path.to_string_lossy().into_owned()),
        None => None,
    }
}

/// The path of Pullbell's file `file_name` in the user's data directory, or
/// `None` when there is no data directory.
pub fn pullbell_data_file(file_name: &str) -> (r: Option<String>)
    ensures
        r matches Some(p) ==> exists|d: Seq<char>| p@ == data_file_text(d, file_name@),
{
    match data_dir() {
        Some(d) => {
            let p = data_file_path(d.as_str(), file_name);
            assert(p@ == data_file_text(d@, file_name@));
            Some(p)
        },
        None => None,
    }
}

} // verus!
