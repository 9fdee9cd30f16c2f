//! Paths.
//!
//! A path is text where it can be, and otherwise what the platform has in its place.
//! Where `/` is the platform's separator, as on Unix, a path that starts with it is
//! absolute, and it is what joins two paths. On other platforms, and for paths that are
//! not text, the rules are those of the standard library.

use std::path::PathBuf;

use vstd::prelude::*;
use vstd::string::StrSliceExecFns;
use vstd::string::StringExecFns;

verus! {

/// A path of the platform.
#[verifier::external_type_specification]
#[verifier::external_body]
pub struct ExPathBuf(PathBuf);

/// The rules by which the platform reads paths. A program has one value of it, the
/// platform's own.
#[derive(Debug, Clone, Copy, PartialEq, Eq, Structural)]
pub struct PathStyle {
    unix: bool,
}

impl PathStyle {
    /// Whether `/` is the platform's separator.
    pub closed spec fn unix(self) -> bool {
        self.unix
    }

    /// The rules of a platform with the given separator.
    pub(crate) fn for_separator(separator: char) -> (style: PathStyle)
        ensures
            style.unix() == (separator == '/'),
    {
        PathStyle { unix: separator == '/' }
    }

    /// The rules of this platform. Which they are depends on the platform alone, so
    /// nothing is stated of them here.
    pub fn native() -> PathStyle {
        PathStyle::for_separator(main_separator())
    }
}

/// `std::path::MAIN_SEPARATOR`: the platform's separator. Nothing is claimed of which
/// character it is.
#[verifier::external_body]
fn main_separator() -> char {
    std::path::MAIN_SEPARATOR
}

/// The path that `PathBuf::from` makes of a text.
pub uninterp spec fn path_of(text: Seq<char>) -> PathBuf;

/// The text that `Path::to_str` finds in a path; nothing where the path is not Unicode.
pub uninterp spec fn path_text(path: PathBuf) -> Option<Seq<char>>;

/// What `Path::is_absolute` answers of a path. `unix` tells whether the platform's
/// separator is `/`.
pub uninterp spec fn native_absolute(unix: bool, path: PathBuf) -> bool;

/// What `Path::join` makes of a path and a text. `unix` tells whether the platform's
/// separator is `/`.
pub uninterp spec fn native_joined(unix: bool, base: PathBuf, path: Seq<char>) -> PathBuf;

/// What `Path::display` shows of a path.
pub uninterp spec fn native_shown(path: PathBuf) -> Seq<char>;

/// `PathBuf::from`: the path that the text determines. It keeps the text.
#[verifier::external_body]
fn path_from(text: &str) -> (path: PathBuf)
    ensures
        path == path_of(text@),
        path_text(path) == Some(text@),
{
    PathBuf::from(text)
}

/// `Path::to_str`: the text of a path that is Unicode, and nothing for another. A path
/// that is Unicode is the one that its text makes.
#[verifier::external_body]
fn text_in(path: &PathBuf) -> (text: Option<&str>)
    ensures
        match text {
            Some(found) => path_text(*path) == Some(found@) && *path == path_of(found@),
            None => path_text(*path) is None,
        },
{
    path.to_str()
}

/// `Path::is_absolute`: the answer that the path determines on this platform.
#[verifier::external_body]
fn std_is_absolute(style: &PathStyle, path: &PathBuf) -> (rooted: bool)
    ensures
        rooted == native_absolute(style.unix(), *path),
{
    path.is_absolute()
}

/// `Path::join`: the path that the two determine on this platform. What is adjoined to an
/// absolute path is absolute, but that on Windows a path with a prefix of its own, such
/// as a drive, takes the place of the other.
#[verifier::external_body]
fn std_join(style: &PathStyle, base: &PathBuf, path: &str) -> (whole: PathBuf)
    ensures
        whole == native_joined(style.unix(), *base, path@),
        native_absolute(style.unix(), *base) && (style.unix() || !may_have_prefix(path@))
            ==> native_absolute(style.unix(), whole),
{
    base.join(path)
}

/// `Path::display`: what is shown of the path.
#[verifier::external_body]
fn std_shown(path: &PathBuf) -> (text: String)
    ensures
        text@ == native_shown(*path),
{
    path.display().to_string()
}

/// `PathBuf::clone`: the same path.
pub assume_specification[ <PathBuf as Clone>::clone ](path: &PathBuf) -> (copy: PathBuf)
    ensures
        copy == *path,
;

/// Whether a text may start with one of the prefixes that Windows knows: a letter and a
/// colon, or two separators.
pub open spec fn may_have_prefix(path: Seq<char>) -> bool {
    path.len() >= 2 && (path[1] == ':' || {
        &&& path[0] == '\\' || path[0] == '/'
        &&& path[1] == '\\' || path[1] == '/'
    })
}

/// A path.
#[derive(Debug, PartialEq)]
pub enum FilePath {
    /// One that is text.
    Text(String),
    /// One that is held as the platform has it. It need not be Unicode.
    Native(PathBuf),
}

/// What a [`FilePath`] holds.
pub enum FilePathView {
    Text(Seq<char>),
    Native(PathBuf),
}

impl View for FilePath {
    type V = FilePathView;

    open spec fn view(&self) -> FilePathView {
        match self {
            FilePath::Text(text) => FilePathView::Text(text@),
            FilePath::Native(path) => FilePathView::Native(*path),
        }
    }
}

/// A path of the platform, as text where it is Unicode.
pub open spec fn file_path(path: PathBuf) -> FilePathView {
    match path_text(path) {
        Some(text) => FilePathView::Text(text),
        None => FilePathView::Native(path),
    }
}

/// A path as the platform has it.
pub open spec fn native_path(path: FilePathView) -> PathBuf {
    match path {
        FilePathView::Text(text) => path_of(text),
        FilePathView::Native(native) => native,
    }
}

/// What people are shown of a path.
pub open spec fn shown(path: FilePathView) -> Seq<char> {
    match path {
        FilePathView::Text(text) => text,
        FilePathView::Native(native) => native_shown(native),
    }
}

impl FilePath {
    /// A path of the platform, as text where it is Unicode. Nothing of it is lost.
    pub fn of(path: PathBuf) -> (file: FilePath)
        ensures
            file@ == file_path(path),
            native_path(file@) == path,
    {
        match text_in(&path) {
            Some(text) => FilePath::Text(text.to_owned()),
            None => FilePath::Native(path),
        }
    }

    /// The path as the platform has it.
    pub fn to_path_buf(&self) -> (path: PathBuf)
        ensures
            path == native_path(self@),
    {
        match self {
            FilePath::Text(text) => path_from(text.as_str()),
            FilePath::Native(path) => path.clone(),
        }
    }

    /// The same path once more.
    pub fn duplicate(&self) -> (copy: FilePath)
        ensures
            copy@ == self@,
    {
        match self {
            FilePath::Text(text) => FilePath::Text(text.clone()),
            FilePath::Native(path) => FilePath::Native(path.clone()),
        }
    }

    /// What people are shown of the path.
    pub fn display(&self) -> (text: String)
        ensures
            text@ == shown(self@),
    {
        match self {
            FilePath::Text(text) => text.clone(),
            FilePath::Native(path) => std_shown(path),
        }
    }
}

/// A text that, read as a path, does not depend on the directory it is read in.
pub open spec fn is_absolute_text(style: PathStyle, path: Seq<char>) -> bool {
    if style.unix() {
        path.len() > 0 && path[0] == '/'
    } else {
        native_absolute(false, path_of(path))
    }
}

/// A path that does not depend on the directory it is read in.
pub open spec fn is_absolute(style: PathStyle, path: FilePathView) -> bool {
    match path {
        FilePathView::Text(text) => is_absolute_text(style, text),
        FilePathView::Native(native) => native_absolute(style.unix(), native),
    }
}

/// Two texts, with a separator between them unless the first is empty or ends with one.
pub open spec fn adjoined(base: Seq<char>, path: Seq<char>) -> Seq<char> {
    if base.len() == 0 || base.last() == '/' {
        base + path
    } else {
        base.push('/') + path
    }
}

/// `path` adjoined to `base`. An absolute `path` replaces `base`.
pub open spec fn joined(style: PathStyle, base: FilePathView, path: Seq<char>) -> FilePathView {
    if is_absolute_text(style, path) {
        FilePathView::Text(path)
    } else {
        match base {
            FilePathView::Text(text) => if style.unix() {
                FilePathView::Text(adjoined(text, path))
            } else {
                file_path(native_joined(false, path_of(text), path))
            },
            FilePathView::Native(native) => FilePathView::Native(
                native_joined(style.unix(), native, path),
            ),
        }
    }
}

/// `path` itself when it is absolute, else `path` below `workspace`.
pub open spec fn resolved(
    style: PathStyle,
    workspace: FilePathView,
    path: Seq<char>,
) -> FilePathView {
    if is_absolute_text(style, path) {
        FilePathView::Text(path)
    } else {
        joined(style, workspace, path)
    }
}

/// Whether `path` leads to an absolute path from every absolute one. Only a path with a
/// prefix, such as a drive without a root, does not.
pub open spec fn keeps_absolute(style: PathStyle, path: Seq<char>) -> bool {
    style.unix() || is_absolute_text(style, path) || !may_have_prefix(path)
}

fn absolute_text(style: &PathStyle, path: &str) -> (rooted: bool)
    ensures
        rooted == is_absolute_text(*style, path@),
{
    if style.unix {
        !path.is_empty() && path.get_char(0) == '/'
    } else {
        std_is_absolute(style, &path_from(path))
    }
}

/// Whether `path` is absolute.
pub fn absolute(style: &PathStyle, path: &FilePath) -> (rooted: bool)
    ensures
        rooted == is_absolute(*style, path@),
{
    match path {
        FilePath::Text(text) => absolute_text(style, text.as_str()),
        FilePath::Native(native) => std_is_absolute(style, native),
    }
}

fn adjoin(base: &str, path: &str) -> (whole: String)
    ensures
        whole@ == adjoined(base@, path@),
{
    let length: usize = base.unicode_len();
    if length == 0 || base.get_char(length - 1) == '/' {
        base.to_owned().concat(path)
    } else {
        proof {
            reveal_strlit("/");
        }
        let whole = base.to_owned().concat("/").concat(path);
        assert(whole@ == base@.push('/') + path@);
        whole
    }
}

/// `path` adjoined to `base`. What is adjoined to an absolute path is absolute, unless it
/// has a prefix of its own.
pub fn join(style: &PathStyle, base: &FilePath, path: &str) -> (whole: FilePath)
    ensures
        whole@ == joined(*style, base@, path@),
        is_absolute(*style, base@) && keeps_absolute(*style, path@) ==> is_absolute(
            *style,
            whole@,
        ),
{
    if absolute_text(style, path) {
        return FilePath::Text(path.to_owned());
    }
    match base {
        FilePath::Text(text) => {
            if style.unix {
                FilePath::Text(adjoin(text.as_str(), path))
            } else {
                FilePath::of(std_join(style, &path_from(text.as_str()), path))
            }
        },
        FilePath::Native(native) => FilePath::Native(std_join(style, native, path)),
    }
}

/// Resolve `p` against `workspace` when relative. Under an absolute workspace the result
/// is absolute, unless `p` has a prefix of its own.
pub fn resolve(style: &PathStyle, workspace: &FilePath, p: &str) -> (path: FilePath)
    ensures
        path@ == resolved(*style, workspace@, p@),
        is_absolute(*style, workspace@) && keeps_absolute(*style, p@) ==> is_absolute(
            *style,
            path@,
        ),
{
    if absolute_text(style, p) {
        FilePath::Text(p.to_owned())
    } else {
        join(style, workspace, p)
    }
}

/// An absolute path means the same file from every workspace.
pub proof fn law_absolute_path_ignores_workspace(
    style: PathStyle,
    workspace: FilePathView,
    other: FilePathView,
    path: Seq<char>,
)
    requires
        is_absolute_text(style, path),
    ensures
        resolved(style, workspace, path) == FilePathView::Text(path),
        resolved(style, workspace, path) == resolved(style, other, path),
{
}

/// Resolving is joining: what is absolute replaces the workspace either way.
pub proof fn law_resolving_is_joining(
    style: PathStyle,
    workspace: FilePathView,
    path: Seq<char>,
)
    ensures
        resolved(style, workspace, path) == joined(style, workspace, path),
{
}

/// On Unix a relative path stays below the workspace: what it resolves to is the
/// workspace's text followed by the path's, with at most one separator put between them.
pub proof fn law_relative_path_stays_below_workspace(
    style: PathStyle,
    workspace: Seq<char>,
    path: Seq<char>,
)
    requires
        style.unix(),
        !is_absolute_text(style, path),
    ensures
        ({
            &&& resolved(style, FilePathView::Text(workspace), path) matches FilePathView::Text(
                whole,
            )
            &&& workspace.is_prefix_of(whole)
            &&& path.is_suffix_of(whole)
            &&& workspace.len() + path.len() <= whole.len() <= workspace.len() + 1 + path.len()
        }),
{
}

/// On Unix, under an absolute workspace, every path resolves to an absolute one.
pub proof fn law_resolved_path_is_absolute(
    style: PathStyle,
    workspace: Seq<char>,
    path: Seq<char>,
)
    requires
        style.unix(),
        is_absolute_text(style, workspace),
    ensures
        resolved(style, FilePathView::Text(workspace), path) is Text,
        is_absolute(style, resolved(style, FilePathView::Text(workspace), path)),
{
}

/// On every platform, what has been resolved to an absolute path stays as it is when it
/// is resolved again.
pub proof fn law_resolved_path_is_settled(
    style: PathStyle,
    workspace: FilePathView,
    path: Seq<char>,
    text: Seq<char>,
)
    requires
        resolved(style, workspace, path) == FilePathView::Text(text),
        is_absolute(style, resolved(style, workspace, path)),
    ensures
        resolved(style, workspace, text) == resolved(style, workspace, path),
{
}

/// On Unix a text is absolute exactly when `/` is its first character, whatever follows.
/// On other platforms it is absolute exactly when the path that it makes is.
pub proof fn law_root_comes_first(style: PathStyle, first: char, rest: Seq<char>)
    ensures
        style.unix() ==> !is_absolute_text(style, Seq::<char>::empty()),
        style.unix() ==> (is_absolute_text(style, seq![first] + rest) <==> first == '/'),
        !style.unix() ==> (is_absolute_text(style, rest) <==> native_absolute(
            false,
            path_of(rest),
        )),
{
    assert((seq![first] + rest)[0] == first);
}

/// Whether a path is absolute does not depend on how it is held off Unix, and for one that
/// is not text it is the platform's word.
pub proof fn law_path_is_absolute_as_the_platform_says(
    style: PathStyle,
    text: Seq<char>,
    native: PathBuf,
)
    ensures
        is_absolute(style, FilePathView::Text(text)) <==> is_absolute_text(style, text),
        is_absolute(style, FilePathView::Native(native)) <==> native_absolute(
            style.unix(),
            native,
        ),
        !style.unix() ==> (is_absolute(style, FilePathView::Text(text)) <==> is_absolute(
            style,
            FilePathView::Native(path_of(text)),
        )),
{
}

/// On Unix one separator stands between base and path: where the base ends with one, that
/// one, else one that is put there. An empty base adds nothing.
pub proof fn law_one_separator_joins(style: PathStyle, base: Seq<char>, path: Seq<char>)
    requires
        style.unix(),
        path.len() == 0 || path[0] != '/',
    ensures
        joined(style, FilePathView::Text(Seq::<char>::empty()), path) == FilePathView::Text(path),
        joined(style, FilePathView::Text(base + seq!['/']), path) == FilePathView::Text(
            base + seq!['/'] + path,
        ),
        base.len() > 0 && base.last() != '/' ==> joined(style, FilePathView::Text(base), path)
            == FilePathView::Text(base + seq!['/'] + path),
{
    assert(Seq::<char>::empty() + path == path);
    assert((base + seq!['/']).last() == '/');
    assert(base.push('/') == base + seq!['/']);
}

/// A relative path is adjoined to a base that is not text as the platform does it. Off
/// Unix that holds of every base, and the outcome is text where it is Unicode.
pub proof fn law_platform_joins_the_rest(
    style: PathStyle,
    base: Seq<char>,
    native: PathBuf,
    path: Seq<char>,
)
    requires
        !is_absolute_text(style, path),
    ensures
        joined(style, FilePathView::Native(native), path) == FilePathView::Native(
            native_joined(style.unix(), native, path),
        ),
        !style.unix() ==> match path_text(native_joined(false, path_of(base), path)) {
            Some(text) => joined(style, FilePathView::Text(base), path) == FilePathView::Text(
                text,
            ),
            None => joined(style, FilePathView::Text(base), path) == FilePathView::Native(
                native_joined(false, path_of(base), path),
            ),
        },
{
}

/// An absolute path replaces every base, and a relative one is resolved by joining it to
/// the workspace.
pub proof fn law_absolute_path_replaces_the_base(
    style: PathStyle,
    base: FilePathView,
    path: Seq<char>,
)
    ensures
        is_absolute_text(style, path) ==> joined(style, base, path) == FilePathView::Text(path),
        is_absolute_text(style, path) ==> resolved(style, base, path) == FilePathView::Text(path),
        !is_absolute_text(style, path) ==> resolved(style, base, path) == joined(
            style,
            base,
            path,
        ),
{
}

/// Only a text whose second character is a colon, or whose first two are separators, may
/// have a prefix. Every other leads from an absolute path to an absolute one.
pub proof fn law_plain_path_keeps_absolute(style: PathStyle, path: Seq<char>)
    requires
        path.len() < 2 || {
            &&& path[1] != ':'
            &&& (path[0] != '/' && path[0] != '\\') || (path[1] != '/' && path[1] != '\\')
        },
    ensures
        !may_have_prefix(path),
        keeps_absolute(style, path),
{
}

/// A path is the same file however it is held: as text it is the path that the text makes,
/// and what is shown of it is the text; else it is the platform's path, and what is shown
/// is what the platform shows.
pub proof fn law_path_is_held_without_loss(file: FilePath, path: PathBuf)
    ensures
        match file {
            FilePath::Text(text) => {
                &&& file@ == FilePathView::Text(text@)
                &&& native_path(file@) == path_of(text@)
                &&& shown(file@) == text@
            },
            FilePath::Native(native) => {
                &&& file@ == FilePathView::Native(native)
                &&& native_path(file@) == native
                &&& shown(file@) == native_shown(native)
            },
        },
        path_text(path) matches Some(text) ==> file_path(path) == FilePathView::Text(text),
        path_text(path) is None ==> file_path(path) == FilePathView::Native(path),
{
}

} // verus!
