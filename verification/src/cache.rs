//! Where compiled grammars and the checkouts they are built from are kept.
//!
//! Everything lives below the home directory: a compiled grammar at
//! `<home>/.cache/tree-sitter/lib/<soname>`, the checkout of a grammar
//! repository at `<home>/.cache/tree-sitter/parsers/<repository name>`.
use vstd::prelude::*;
use vstd::string::StrSliceExecFns;
use vstd::string::StringExecFns;

use crate::error::HtmlRenderingError;
use crate::target_language::TargetLanguage;

verus! {

/// The version of the parser interface that grammars are generated for.
pub const ABI_VERSION: usize = 14;

/// The directory of compiled grammars below `home`.
pub open spec fn lib_dir_text(home: Seq<char>) -> Seq<char> {
    home + "/.cache/tree-sitter/lib"@
}

/// The directory of grammar checkouts below `home`.
pub open spec fn parsers_dir_text(home: Seq<char>) -> Seq<char> {
    home + "/.cache/tree-sitter/parsers"@
}

/// `directory` and `name` joined by a slash.
pub open spec fn joined(directory: Seq<char>, name: Seq<char>) -> Seq<char> {
    directory + "/"@ + name
}

/// Where the last segment of `path` begins: behind its last slash, or at its
/// start where it has none.
pub open spec fn last_segment_start(path: Seq<char>) -> int
    decreases path.len(),
{
    if path.len() == 0 {
        0
    } else if path.last() == '/' {
        path.len() as int
    } else {
        last_segment_start(path.drop_last())
    }
}

/// The place of the first dot of `text` at or behind `from`, or the length of
/// `text` where no dot follows.
pub open spec fn first_dot_from(text: Seq<char>, from: int) -> int
    decreases text.len() - from,
{
    if from < 0 || from >= text.len() {
        text.len() as int
    } else if text[from] == '.' {
        from
    } else {
        first_dot_from(text, from + 1)
    }
}

/// The name under which the repository at `url` is checked out: the last
/// segment of the address, up to its first dot.
pub open spec fn repo_name_text(url: Seq<char>) -> Seq<char> {
    url.subrange(last_segment_start(url), first_dot_from(url, last_segment_start(url)))
}

/// The path of the compiled grammar of a language whose library is `soname`.
pub open spec fn artifact_path_text(home: Seq<char>, soname: Seq<char>) -> Seq<char> {
    joined(lib_dir_text(home), soname)
}

/// The directory that the repository at `url` is checked out into.
pub open spec fn clone_dir_text(home: Seq<char>, url: Seq<char>) -> Seq<char> {
    joined(parsers_dir_text(home), repo_name_text(url))
}

/// The grammar definition inside a checkout.
pub open spec fn grammar_path_text(clone_dir: Seq<char>) -> Seq<char> {
    joined(clone_dir, "grammar.js"@)
}

/// Where the compiled grammar of `language` is looked for, or the failure
/// that says it cannot be anywhere: the home directory is unknown, or the
/// language has no library name.
pub open spec fn artifact_of(home: Option<Seq<char>>, language: TargetLanguage) -> Result<
    Seq<char>,
    HtmlRenderingError,
> {
    match (home, language.soname_text()) {
        (Some(home), Some(soname)) => Ok(artifact_path_text(home, soname)),
        _ => Err(HtmlRenderingError::SharedLibDoesntExist),
    }
}

/// The repository name is the stretch of the address that begins behind the
/// last slash and ends before the first dot that follows, so it holds
/// neither a slash nor a dot.
pub proof fn lemma_repo_name_span(url: Seq<char>)
    ensures
        ({
            let start = last_segment_start(url);
            let end = first_dot_from(url, start);
            &&& 0 <= start <= end <= url.len()
            &&& start == 0 || url[start - 1] == '/'
            &&& forall|i: int| start <= i < url.len() ==> url[i] != '/'
            &&& end == url.len() || url[end] == '.'
            &&& forall|i: int| start <= i < end ==> url[i] != '.'
        }),
        forall|i: int|
            0 <= i < repo_name_text(url).len() ==> repo_name_text(url)[i] != '/'
                && repo_name_text(url)[i] != '.',
{
    lemma_last_segment_start(url);
    lemma_first_dot_from(url, last_segment_start(url));
    let start = last_segment_start(url);
    assert forall|i: int| 0 <= i < repo_name_text(url).len() implies repo_name_text(url)[i] != '/'
        && repo_name_text(url)[i] != '.' by {
        assert(repo_name_text(url)[i] == url[start + i]);
    }
}

proof fn lemma_last_segment_start(path: Seq<char>)
    ensures
        0 <= last_segment_start(path) <= path.len(),
        last_segment_start(path) == 0 || path[last_segment_start(path) - 1] == '/',
        forall|i: int| last_segment_start(path) <= i < path.len() ==> path[i] != '/',
    decreases path.len(),
{
    if path.len() != 0 && path.last() != '/' {
        let front = path.drop_last();
        lemma_last_segment_start(front);
        assert forall|i: int| last_segment_start(path) <= i < path.len() implies path[i]
            != '/' by {
            if i < front.len() {
                assert(front[i] == path[i]);
            }
        }
    }
}

proof fn lemma_first_dot_from(text: Seq<char>, from: int)
    requires
        0 <= from <= text.len(),
    ensures
        from <= first_dot_from(text, from) <= text.len(),
        first_dot_from(text, from) == text.len() || text[first_dot_from(text, from)] == '.',
        forall|i: int| from <= i < first_dot_from(text, from) ==> text[i] != '.',
    decreases text.len() - from,
{
    if from < text.len() && text[from] != '.' {
        lemma_first_dot_from(text, from + 1);
    }
}

/// `directory` and `name` joined by a slash.
pub fn join(directory: &str, name: &str) -> (path: String)
    ensures
        path@ == joined(directory@, name@),
{
    let mut path: String = String::from_str(directory);
    path.append("/");
    path.append(name);
    path
}

/// The name under which the repository at `url` is checked out.
pub fn repo_name(url: &str) -> (name: String)
    ensures
        name@ == repo_name_text(url@),
{
    let len: usize = url.unicode_len();
    let mut start: usize = len;
    assert(url@.take(len as int) =~= url@);
    while start > 0 && url.get_char(start - 1) != '/'
        invariant
            start <= len,
            len == url@.len(),
            last_segment_start(url@) == last_segment_start(url@.take(start as int)),
        decreases start,
    {
        assert(url@.take(start as int).drop_last() =~= url@.take(start as int - 1));
        start = start - 1;
    }
    let mut end: usize = start;
    while end < len && url.get_char(end) != '.'
        invariant
            start <= end <= len,
            len == url@.len(),
            first_dot_from(url@, start as int) == first_dot_from(url@, end as int),
        decreases len - end,
    {
        end = end + 1;
    }
    String::from_str(url.substring_char(start, end))
}

/// The path of the compiled grammar whose library is `soname`.
pub fn artifact_file(home: &str, soname: &str) -> (path: String)
    ensures
        path@ == artifact_path_text(home@, soname@),
{
    let mut lib_dir: String = String::from_str(home);
    lib_dir.append("/.cache/tree-sitter/lib");
    join(lib_dir.as_str(), soname)
}

/// Where the compiled grammar of `language` is looked for.
pub fn artifact_path(home: Option<&str>, language: TargetLanguage) -> (path: Result<
    String,
    HtmlRenderingError,
>)
    ensures
        text_result(path) == artifact_of(text_option(home), language),
{
    match (home, language.soname()) {
        (Some(home), Some(soname)) => Ok(artifact_file(home, soname)),
        _ => Err(HtmlRenderingError::SharedLibDoesntExist),
    }
}

/// The directory that the repository at `url` is checked out into.
pub fn clone_dir(home: &str, url: &str) -> (path: String)
    ensures
        path@ == clone_dir_text(home@, url@),
{
    let mut parsers_dir: String = String::from_str(home);
    parsers_dir.append("/.cache/tree-sitter/parsers");
    let name: String = repo_name(url);
    join(parsers_dir.as_str(), name.as_str())
}

/// The grammar definition inside the checkout at `clone_dir`.
pub fn grammar_path(clone_dir: &str) -> (path: String)
    ensures
        path@ == grammar_path_text(clone_dir@),
{
    join(clone_dir, "grammar.js")
}

/// The characters of a piece of text that may be missing.
pub open spec fn text_option(text: Option<&str>) -> Option<Seq<char>> {
    match text {
        Some(text) => Some(text@),
        None => None,
    }
}

/// The characters of a text that was computed, or the failure to compute it.
pub open spec fn text_result(text: Result<String, HtmlRenderingError>) -> Result<
    Seq<char>,
    HtmlRenderingError,
> {
    match text {
        Ok(text) => Ok(text@),
        Err(error) => Err(error),
    }
}

} // verus!
