//! Deciding how the search for a `.git` entry proceeds.
//!
//! The search walks from a starting directory up through its ancestors. The
//! walking itself is filesystem work and stays with the caller; what stands
//! here is every decision the search makes. The caller reports what it found
//! at the current level as a [`GitEntry`] and receives a [`Step`] saying what
//! to do next: probe, read a linked `HEAD` file, move to the parent
//! directory, or stop with the result.

use vstd::prelude::*;
use vstd::string::StrSliceExecFns;
use vstd::string::StringExecFns;
use crate::head::spec_has_prefix;
use crate::head::spec_parse_head;
use crate::head::spec_trim;
use crate::head::has_prefix;
use crate::head::parse_git_head;
use crate::head::trimmed_part;

verus! {

/// What the caller found when probing the `.git` entry of one directory.
///
/// Each payload carries the contents of the file that was read, or `None`
/// where the read failed.
#[derive(Debug, Clone, PartialEq, Eq)]
pub enum GitEntry {
    /// `.git` is a directory; the payload is the contents of its `HEAD` file.
    Directory { head: Option<String> },
    /// `.git` is a regular file (a worktree marker); the payload is its
    /// contents.
    Marker { contents: Option<String> },
    /// No `.git` entry exists at this level.
    Missing,
}

/// The mathematical shape of a [`GitEntry`]: the same cases over character
/// sequences.
pub enum GitEntryModel {
    Directory(Option<Seq<char>>),
    Marker(Option<Seq<char>>),
    Missing,
}

impl View for GitEntry {
    type V = GitEntryModel;

    open spec fn view(&self) -> GitEntryModel {
        match self {
            GitEntry::Directory { head } => GitEntryModel::Directory(head.deep_view()),
            GitEntry::Marker { contents } => GitEntryModel::Marker(contents.deep_view()),
            GitEntry::Missing => GitEntryModel::Missing,
        }
    }
}

/// What the search does next.
#[derive(Debug, Clone, PartialEq, Eq)]
pub enum Step {
    /// Probe the `.git` entry of the current directory and report it through
    /// [`on_git_entry`].
    Probe,
    /// Read the file at this path and report its contents through
    /// [`on_linked_head`].
    ReadLinkedHead(String),
    /// Move to the parent directory and probe again; if there is no parent,
    /// the search ends with no result.
    Ascend,
    /// The search is over; this is its result.
    Finished(Option<String>),
}

/// The mathematical shape of a [`Step`], over character sequences.
pub enum StepModel {
    Probe,
    ReadLinkedHead(Seq<char>),
    Ascend,
    Finished(Option<Seq<char>>),
}

impl View for Step {
    type V = StepModel;

    open spec fn view(&self) -> StepModel {
        match self {
            Step::Probe => StepModel::Probe,
            Step::ReadLinkedHead(target) => StepModel::ReadLinkedHead(target@),
            Step::Ascend => StepModel::Ascend,
            Step::Finished(result) => StepModel::Finished(result.deep_view()),
        }
    }
}

/// Where a worktree marker points: the `HEAD` file of the linked repository
/// store.
///
/// A well-formed marker reads `gitdir: <path>`; the target is that path,
/// trimmed of whitespace, with `/HEAD` appended. Anything else yields
/// nothing.
pub open spec fn spec_marker_target(c: Seq<char>) -> Option<Seq<char>> {
    if spec_has_prefix(c, "gitdir: "@) {
        Some(spec_trim(c.skip("gitdir: "@.len() as int)) + "/HEAD"@)
    } else {
        None
    }
}

/// The first step of a search that starts at `path`: an empty path ends the
/// search at once, with no result and no filesystem access.
pub open spec fn spec_locate_start(path: Seq<char>) -> StepModel {
    if path.len() == 0 {
        StepModel::Finished(None)
    } else {
        StepModel::Probe
    }
}

/// The step that follows a probe of one directory's `.git` entry.
///
/// A `.git` directory ends the search whatever happens next: its `HEAD` is
/// parsed if it was readable, and an unreadable `HEAD` ends the search with
/// no result rather than letting an ancestor answer. A worktree marker leads
/// to the linked `HEAD` file if it is well formed; a malformed or unreadable
/// marker, like a missing entry, sends the search to the parent directory.
pub open spec fn spec_locate_step(e: GitEntryModel) -> StepModel {
    match e {
        GitEntryModel::Directory(head) => match head {
            Some(h) => StepModel::Finished(spec_parse_head(h)),
            None => StepModel::Finished(None),
        },
        GitEntryModel::Marker(contents) => match contents {
            Some(c) => match spec_marker_target(c) {
                Some(target) => StepModel::ReadLinkedHead(target),
                None => StepModel::Ascend,
            },
            None => StepModel::Ascend,
        },
        GitEntryModel::Missing => StepModel::Ascend,
    }
}

/// The step that follows reading a linked `HEAD` file: parse it if it was
/// readable, else send the search to the parent directory.
pub open spec fn spec_linked_step(head: Option<Seq<char>>) -> StepModel {
    match head {
        Some(h) => StepModel::Finished(spec_parse_head(h)),
        None => StepModel::Ascend,
    }
}

/// Begin a search at `path`.
pub fn locate_start(path: &str) -> (s: Step)
    ensures
        s@ == spec_locate_start(path@),
{
    if path.is_empty() {
        Step::Finished(None)
    } else {
        Step::Probe
    }
}

/// Decide the next step from what the `.git` entry of the current directory
/// turned out to be.
pub fn on_git_entry(entry: &GitEntry) -> (s: Step)
    ensures
        s@ == spec_locate_step(entry@),
{
    match entry {
        GitEntry::Directory { head } => match head {
            Some(h) => Step::Finished(parse_git_head(h.as_str())),
            None => Step::Finished(None),
        },
        GitEntry::Marker { contents } => match contents {
            Some(c) => match marker_target(c.as_str()) {
                Some(target) => Step::ReadLinkedHead(target),
                None => Step::Ascend,
            },
            None => Step::Ascend,
        },
        GitEntry::Missing => Step::Ascend,
    }
}

/// Decide the next step from the contents of a linked `HEAD` file, or from
/// the failure to read it.
pub fn on_linked_head(head: Option<String>) -> (s: Step)
    ensures
        s@ == spec_linked_step(head.deep_view()),
{
    match head {
        Some(h) => Step::Finished(parse_git_head(h.as_str())),
        None => Step::Ascend,
    }
}

/// The result of a whole search, given what probing each successive level
/// would observe.
///
/// `levels[0]` is the starting directory, `levels[i + 1]` its `i`-th
/// ancestor; `linked[i]` is what reading the linked `HEAD` file at level `i`
/// would observe, should the level hold a worktree marker that points there.
/// The search takes the steps that [`spec_locate_step`] and
/// [`spec_linked_step`] prescribe, level by level, and ends with no result
/// when it runs past the last level (the filesystem root).
pub open spec fn spec_search(levels: Seq<GitEntryModel>, linked: Seq<Option<Seq<char>>>) -> Option<
    Seq<char>,
>
    decreases levels.len(),
{
    if levels.len() == 0 {
        None
    } else {
        match spec_locate_step(levels[0]) {
            StepModel::Finished(r) => r,
            StepModel::ReadLinkedHead(_) => match spec_linked_step(linked[0]) {
                StepModel::Finished(r) => r,
                _ => spec_search(levels.drop_first(), linked.drop_first()),
            },
            _ => spec_search(levels.drop_first(), linked.drop_first()),
        }
    }
}

/// A search that, below some ancestor holding a `.git` directory with
/// readable `HEAD` contents `h`, passes only levels without a `.git` entry,
/// ends at that ancestor with the parse of `h` — whatever stands above it.
pub proof fn lemma_search_finds_ancestor_git_dir(
    levels: Seq<GitEntryModel>,
    linked: Seq<Option<Seq<char>>>,
    k: int,
    h: Seq<char>,
)
    requires
        linked.len() == levels.len(),
        0 <= k < levels.len(),
        forall|i: int| 0 <= i < k ==> levels[i] == GitEntryModel::Missing,
        levels[k] == GitEntryModel::Directory(Some(h)),
    ensures
        spec_search(levels, linked) == spec_parse_head(h),
    decreases k,
{
    if k > 0 {
        lemma_search_finds_ancestor_git_dir(levels.drop_first(), linked.drop_first(), k - 1, h);
    }
}

/// The first `.git` directory found decides the search: a search that,
/// below some ancestor holding a `.git` directory whose `HEAD` cannot be
/// read, passes only levels without a `.git` entry, ends at that ancestor
/// with no result — no `.git` directory further up is consulted.
pub proof fn lemma_unreadable_head_ends_search(
    levels: Seq<GitEntryModel>,
    linked: Seq<Option<Seq<char>>>,
    k: int,
)
    requires
        linked.len() == levels.len(),
        0 <= k < levels.len(),
        forall|i: int| 0 <= i < k ==> levels[i] == GitEntryModel::Missing,
        levels[k] == GitEntryModel::Directory(None),
    ensures
        spec_search(levels, linked) is None,
    decreases k,
{
    if k > 0 {
        lemma_unreadable_head_ends_search(levels.drop_first(), linked.drop_first(), k - 1);
    }
}

/// Extract the path of the linked `HEAD` file from a worktree marker's
/// contents, exactly as [`spec_marker_target`] states it.
pub fn marker_target(contents: &str) -> (t: Option<String>)
    ensures
        t.deep_view() == spec_marker_target(contents@),
{
    if has_prefix(contents, "gitdir: ") {
        proof {
            reveal_strlit("gitdir: ");
        }
        let n = contents.unicode_len();
        let rest = contents.substring_char(8, n);
        let trimmed = trimmed_part(rest);
        let target = String::from_str(trimmed).concat("/HEAD");
        Some(target)
    } else {
        None
    }
}

} // verus!
