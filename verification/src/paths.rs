//! The store's path model: settings live at `<home>/<app_name>/<file_name>`,
//! and the default file name is the application name with `.ser` appended.

use vstd::prelude::*;
use vstd::string::StrSliceExecFns;
use vstd::string::StringExecFns;

verus! {

/// The path of `name` inside the directory `base`, with `/` between them.
pub open spec fn join_path(base: Seq<char>, name: Seq<char>) -> Seq<char> {
    base + seq!['/'] + name
}

/// The default file name of an application: its name with `.ser` appended.
pub open spec fn default_name(app_name: Seq<char>) -> Seq<char> {
    app_name + ".ser"@
}

/// The directory a path lies in: everything before its last separator, or
/// nothing when the path has no separator at all.
pub open spec fn parent_of(path: Seq<char>) -> Option<Seq<char>>
    decreases path.len(),
{
    if path.len() == 0 {
        None
    } else if path[path.len() - 1] == '/' {
        Some(path.subrange(0, path.len() - 1))
    } else {
        parent_of(path.subrange(0, path.len() - 1))
    }
}

/// A path whose last separator stands at `i`, with no separator after it,
/// has everything before `i` as its parent.
proof fn lemma_parent_of_last_separator(path: Seq<char>, i: int)
    requires
        0 <= i < path.len(),
        path[i] == '/',
        forall|j: int| i < j < path.len() ==> path[j] != '/',
    ensures
        parent_of(path) == Some(path.subrange(0, i)),
    decreases path.len(),
{
    if i == path.len() - 1 {
    } else {
        let shorter = path.subrange(0, path.len() - 1);
        lemma_parent_of_last_separator(shorter, i);
        assert(shorter.subrange(0, i) =~= path.subrange(0, i));
    }
}

/// A path without any separator has no parent.
proof fn lemma_parent_of_no_separator(path: Seq<char>)
    requires
        forall|j: int| 0 <= j < path.len() ==> path[j] != '/',
    ensures
        parent_of(path) is None,
    decreases path.len(),
{
    if path.len() > 0 {
        lemma_parent_of_no_separator(path.subrange(0, path.len() - 1));
    }
}

/// The parent of a file joined onto a directory is that directory, as long
/// as the file name holds no separator of its own.
pub proof fn lemma_parent_of_join(directory: Seq<char>, file_name: Seq<char>)
    requires
        !file_name.contains('/'),
    ensures
        parent_of(join_path(directory, file_name)) == Some(directory),
{
    let joined = join_path(directory, file_name);
    assert(joined[directory.len() as int] == '/');
    assert forall|j: int| directory.len() < j < joined.len() implies joined[j] != '/' by {
        assert(joined[j] == file_name[j - directory.len() - 1]);
        assert(!file_name.contains('/'));
    }
    lemma_parent_of_last_separator(joined, directory.len() as int);
    assert(joined.subrange(0, directory.len() as int) =~= directory);
}

/// Appends `/` and `name` to the directory held in `base`.
pub fn push_component(base: &mut String, name: &str)
    ensures
        final(base)@ == join_path(old(base)@, name@),
{
    base.append("/");
    base.append(name);
    proof {
        reveal_strlit("/");
        assert(final(base)@ =~= join_path(old(base)@, name@));
    }
}

/// Returns the path of `name` inside the directory `base`.
pub fn joined_path(base: &str, name: &str) -> (r: String)
    ensures
        r@ == join_path(base@, name@),
{
    let mut joined = base.to_owned();
    push_component(&mut joined, name);
    joined
}

/// Returns the default file name of the application: `<app_name>.ser`.
pub fn default_file_name(app_name: &str) -> (r: String)
    ensures
        r@ == default_name(app_name@),
{
    let mut name = app_name.to_owned();
    name.append(".ser");
    name
}

/// Where one application's settings file lives: the application's directory
/// under the user's home, and the settings file inside that directory.
pub struct SettingsLocation {
    /// The application's directory: `<home>/<app_name>`.
    pub directory: String,
    /// The settings file: `<home>/<app_name>/<file_name>`.
    pub file: String,
}

/// Holds when `loc` is where the file `file_name` of the application
/// `app_name` is stored under the home directory `home`.
pub open spec fn located_at(
    home: Seq<char>,
    app_name: Seq<char>,
    file_name: Seq<char>,
    loc: SettingsLocation,
) -> bool {
    &&& loc.directory@ == join_path(home, app_name)
    &&& loc.file@ == join_path(join_path(home, app_name), file_name)
}

/// Holds when `loc` is where the file `file_name` of the application
/// `app_name` is stored, under whichever home directory was resolved.
pub open spec fn located_for(
    app_name: Seq<char>,
    file_name: Seq<char>,
    loc: SettingsLocation,
) -> bool {
    exists|home: Seq<char>| located_at(home, app_name, file_name, loc)
}

/// Holds when `directory` is the settings directory of the application
/// `app_name`, under whichever home directory was resolved.
pub open spec fn directory_for(app_name: Seq<char>, directory: Seq<char>) -> bool {
    exists|home: Seq<char>| directory == join_path(home, app_name)
}

/// Computes the storage location of `file_name` for the application
/// `app_name` under the home directory `home`.
pub fn settings_location(home: &str, app_name: &str, file_name: &str) -> (loc: SettingsLocation)
    ensures
        located_at(home@, app_name@, file_name@, loc),
{
    let directory = joined_path(home, app_name);
    let file = joined_path(directory.as_str(), file_name);
    SettingsLocation { directory, file }
}

/// Returns the directory `path` lies in: everything before its last
/// separator, or nothing when the path holds no separator.
pub fn parent_directory(path: &str) -> (r: Option<String>)
    ensures
        r is Some <==> parent_of(path@) is Some,
        r matches Some(p) ==> parent_of(path@) == Some(p@),
{
    let length = path.unicode_len();
    let mut i: usize = length;
    while i > 0
        invariant
            i <= length,
            length == path@.len(),
            forall|j: int| i <= j < length ==> path@[j] != '/',
        decreases i,
    {
        if path.get_char(i - 1) == '/' {
            let prefix = path.substring_char(0, i - 1);
            proof {
                lemma_parent_of_last_separator(path@, i - 1);
            }
            return Some(prefix.to_owned());
        }
        i = i - 1;
    }
    proof {
        lemma_parent_of_no_separator(path@);
    }
    None
}

} // verus!
