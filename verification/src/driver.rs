//! The build driver: which files a build writes, in which order, and when it
//! stops.
//!
//! The driver does no input or output itself. It names the next action, the
//! caller performs it and reports whether it succeeded, and the driver decides
//! what follows: the output directory is created first, the pages are written
//! in list order, and the first failure ends the run.

use crate::pages::{credits_html, credits_page, index, index_html};
use vstd::prelude::*;
use vstd::string::{StrSliceExecFns, StringExecFns};

verus! {

/// The directory that the site is built into.
pub const OUTPUT_DIR: &'static str = "docs";

/// The file name of the index page.
pub const INDEX_FILE: &'static str = "index.html";

/// The file name of the credits page.
pub const CREDITS_FILE: &'static str = "credits.html";

/// A rendered page and the path that it is written to.
#[derive(Debug)]
pub struct Page {
    pub path: String,
    pub html: String,
}

impl View for Page {
    type V = (Seq<char>, Seq<char>);

    /// The destination path and the text of the page.
    open spec fn view(&self) -> (Seq<char>, Seq<char>) {
        (self.path@, self.html@)
    }
}

/// The path of `file` below the directory `root`: the two are joined by one
/// `/`, which is left out where `root` is empty or already ends in one.
pub open spec fn destination_path(root: Seq<char>, file: Seq<char>) -> Seq<char> {
    if root.len() == 0 || root.last() == '/' {
        root + file
    } else {
        root + seq!['/'] + file
    }
}

/// Joins the directory `root` and the file name `file`.
pub fn destination(root: &str, file: &str) -> (path: String)
    ensures
        path@ == destination_path(root@, file@),
{
    let length = root.unicode_len();
    let mut path = root.to_owned();
    if length > 0 && root.get_char(length - 1) != '/' {
        proof {
            reveal_strlit("/");
            assert("/"@ =~= seq!['/']);
        }
        path.append("/");
    }
    path.append(file);
    path
}

/// The pages of the site below the directory `root`: the index page, then the
/// credits page.
pub open spec fn site_pages(root: Seq<char>) -> Seq<(Seq<char>, Seq<char>)> {
    seq![
        (destination_path(root, INDEX_FILE@), index_html()),
        (destination_path(root, CREDITS_FILE@), credits_html()),
    ]
}

/// The views of `pages`, in order.
pub open spec fn page_views(pages: Seq<Page>) -> Seq<(Seq<char>, Seq<char>)> {
    Seq::new(pages.len(), |i: int| pages[i]@)
}

/// Renders the pages of the site, each paired with its path below `root`.
pub fn site(root: &str) -> (pages: Vec<Page>)
    ensures
        page_views(pages@) == site_pages(root@),
{
    let mut pages: Vec<Page> = Vec::new();
    pages.push(Page { path: destination(root, INDEX_FILE), html: index().render() });
    pages.push(Page { path: destination(root, CREDITS_FILE), html: credits_page().render() });
    assert(page_views(pages@) =~= site_pages(root@));
    pages
}

/// Why a build stopped.
#[derive(Clone, Copy, Debug, PartialEq, Eq)]
pub enum BuildError {
    /// The output directory could not be created. No page was written.
    CreateDir,
    /// The page at this index could not be written. The pages before it were
    /// written, the pages after it were not attempted.
    WritePage(usize),
}

/// What the caller of a build has to do next.
#[derive(Clone, Copy, Debug, PartialEq, Eq)]
pub enum BuildAction {
    /// Create the output directory and its parents, unless they exist.
    CreateDir,
    /// Write the page at this index to its path, replacing what is there.
    WritePage(usize),
    /// Every page was written: report success.
    Succeed,
    /// An action failed: report this error and do nothing more.
    Fail(BuildError),
}

/// How far a build has come.
#[derive(Clone, Copy, Debug, PartialEq, Eq)]
pub enum BuildState {
    /// Nothing was done yet.
    Start,
    /// The output directory exists and the pages before `next` were written.
    Writing { next: usize },
    /// An action failed.
    Failed { error: BuildError },
}

/// The action that a build of `page_count` pages asks for in `state`.
pub open spec fn action_of(state: BuildState, page_count: usize) -> BuildAction {
    match state {
        BuildState::Start => BuildAction::CreateDir,
        BuildState::Writing { next } => if next < page_count {
            BuildAction::WritePage(next)
        } else {
            BuildAction::Succeed
        },
        BuildState::Failed { error } => BuildAction::Fail(error),
    }
}

/// The state that follows `state` once the action asked for in `state` has
/// succeeded or failed. After success or failure of the whole build nothing
/// changes any more.
pub open spec fn step(state: BuildState, page_count: usize, succeeded: bool) -> BuildState {
    match action_of(state, page_count) {
        BuildAction::CreateDir => if succeeded {
            BuildState::Writing { next: 0 }
        } else {
            BuildState::Failed { error: BuildError::CreateDir }
        },
        BuildAction::WritePage(index) => if succeeded {
            BuildState::Writing { next: (index + 1) as usize }
        } else {
            BuildState::Failed { error: BuildError::WritePage(index) }
        },
        BuildAction::Succeed => state,
        BuildAction::Fail(_) => state,
    }
}

/// The state reached from `state` after the actions asked for had the
/// `outcomes`, first to last.
pub open spec fn run(state: BuildState, page_count: usize, outcomes: Seq<bool>) -> BuildState
    decreases outcomes.len(),
{
    if outcomes.len() == 0 {
        state
    } else {
        step(run(state, page_count, outcomes.drop_last()), page_count, outcomes.last())
    }
}

/// `count` successful outcomes.
pub open spec fn successes(count: nat) -> Seq<bool> {
    Seq::new(count, |i: int| true)
}

/// The error of a build whose first failure follows `count` successes.
pub open spec fn error_after(count: nat) -> BuildError {
    if count == 0 {
        BuildError::CreateDir
    } else {
        BuildError::WritePage((count - 1) as usize)
    }
}

/// A build in progress: the pages to write, the directory to write them into,
/// and how far the build has come.
pub struct Build {
    dir: String,
    pages: Vec<Page>,
    state: BuildState,
}

impl Build {
    /// The state never points past the end of the page list.
    #[verifier::type_invariant]
    closed spec fn well_formed(&self) -> bool {
        match self.state {
            BuildState::Start => true,
            BuildState::Writing { next } => next <= self.pages.len(),
            BuildState::Failed { error } => match error {
                BuildError::CreateDir => true,
                BuildError::WritePage(index) => index < self.pages.len(),
            },
        }
    }

    /// The output directory.
    pub closed spec fn dir(&self) -> Seq<char> {
        self.dir@
    }

    /// The pages to write, in writing order.
    pub closed spec fn pages(&self) -> Seq<Page> {
        self.pages@
    }

    /// How far the build has come.
    pub closed spec fn state(&self) -> BuildState {
        self.state
    }

    /// A build that has not started: it will create `dir`, then write `pages`
    /// in their order.
    pub fn new(dir: String, pages: Vec<Page>) -> (build: Build)
        ensures
            build.dir() == dir@,
            build.pages() == pages@,
            build.state() == BuildState::Start,
    {
        Build { dir, pages, state: BuildState::Start }
    }

    /// The output directory.
    pub fn output_dir(&self) -> (dir: &str)
        ensures
            dir@ == self.dir(),
    {
        self.dir.as_str()
    }

    /// The number of pages to write.
    pub fn page_count(&self) -> (count: usize)
        ensures
            count == self.pages().len(),
    {
        self.pages.len()
    }

    /// The page at `index`, or nothing where the list is shorter.
    pub fn page(&self, index: usize) -> (page: Option<&Page>)
        ensures
            index < self.pages().len() ==> page == Some(&self.pages()[index as int]),
            index >= self.pages().len() ==> page.is_none(),
    {
        if index < self.pages.len() {
            Some(&self.pages[index])
        } else {
            None
        }
    }

    /// The action to perform next. A page to write is always in the list.
    pub fn action(&self) -> (action: BuildAction)
        ensures
            action == action_of(self.state(), self.pages().len() as usize),
            action matches BuildAction::WritePage(index) ==> index < self.pages().len(),
    {
        proof {
            use_type_invariant(self);
        }
        match self.state {
            BuildState::Start => BuildAction::CreateDir,
            BuildState::Writing { next } => {
                if next < self.pages.len() {
                    BuildAction::WritePage(next)
                } else {
                    BuildAction::Succeed
                }
            },
            BuildState::Failed { error } => BuildAction::Fail(error),
        }
    }

    /// Records whether the action that [`Build::action`] asked for succeeded.
    pub fn record(&mut self, succeeded: bool)
        ensures
            final(self).state() == step(
                old(self).state(),
                old(self).pages().len() as usize,
                succeeded,
            ),
            final(self).dir() == old(self).dir(),
            final(self).pages() == old(self).pages(),
    {
        proof {
            use_type_invariant(&*self);
        }
        let next_state = match self.state {
            BuildState::Start => {
                if succeeded {
                    BuildState::Writing { next: 0 }
                } else {
                    BuildState::Failed { error: BuildError::CreateDir }
                }
            },
            BuildState::Writing { next } => {
                if next < self.pages.len() {
                    if succeeded {
                        BuildState::Writing { next: next + 1 }
                    } else {
                        BuildState::Failed { error: BuildError::WritePage(next) }
                    }
                } else {
                    BuildState::Writing { next }
                }
            },
            BuildState::Failed { error } => BuildState::Failed { error },
        };
        self.state = next_state;
    }

    /// The result of the build so far: success once every page was written,
    /// the error once an action failed, nothing while actions remain.
    pub fn outcome(&self) -> (outcome: Option<Result<(), BuildError>>)
        ensures
            outcome == match action_of(self.state(), self.pages().len() as usize) {
                BuildAction::Succeed => Some(Ok::<(), BuildError>(())),
                BuildAction::Fail(error) => Some(Err::<(), BuildError>(error)),
                _ => None::<Result<(), BuildError>>,
            },
    {
        match self.action() {
            BuildAction::Succeed => Some(Ok(())),
            BuildAction::Fail(error) => Some(Err(error)),
            _ => None,
        }
    }
}

/// Running on from a state: the outcomes `first + then` lead where `then`
/// leads from the state that `first` leads to.
pub proof fn lemma_run_concat(
    state: BuildState,
    page_count: usize,
    first: Seq<bool>,
    then: Seq<bool>,
)
    ensures
        run(state, page_count, first + then) == run(
            run(state, page_count, first),
            page_count,
            then,
        ),
    decreases then.len(),
{
    if then.len() == 0 {
        assert(first + then =~= first);
    } else {
        lemma_run_concat(state, page_count, first, then.drop_last());
        assert((first + then).drop_last() =~= first + then.drop_last());
        assert((first + then).last() == then.last());
    }
}

/// A failed build stays failed, with the same error, whatever is reported to
/// it afterwards: it asks for no further action.
pub proof fn lemma_failure_is_final(error: BuildError, page_count: usize, outcomes: Seq<bool>)
    ensures
        run(BuildState::Failed { error }, page_count, outcomes) == (BuildState::Failed { error }),
        action_of(run(BuildState::Failed { error }, page_count, outcomes), page_count)
            == BuildAction::Fail(error),
    decreases outcomes.len(),
{
    if outcomes.len() > 0 {
        lemma_failure_is_final(error, page_count, outcomes.drop_last());
    }
}

/// The order of a build in which nothing fails: the directory is created
/// first, then the pages are written in list order, one per success, and
/// after the last page the build reports success.
pub proof fn lemma_successful_build(page_count: usize, count: nat)
    ensures
        count == 0 ==> run(BuildState::Start, page_count, successes(count)) == BuildState::Start,
        0 < count <= page_count + 1 ==> run(BuildState::Start, page_count, successes(count)) == (
        BuildState::Writing { next: (count - 1) as usize }),
        count == 0 ==> action_of(run(BuildState::Start, page_count, successes(count)), page_count)
            == BuildAction::CreateDir,
        0 < count <= page_count ==> action_of(
            run(BuildState::Start, page_count, successes(count)),
            page_count,
        ) == BuildAction::WritePage((count - 1) as usize),
        count == page_count + 1 ==> action_of(
            run(BuildState::Start, page_count, successes(count)),
            page_count,
        ) == BuildAction::Succeed,
    decreases count,
{
    if count > 0 {
        lemma_successful_build(page_count, (count - 1) as nat);
        assert(successes(count).drop_last() =~= successes((count - 1) as nat));
    }
}

/// Error propagation: where the first failure follows `count` successes, the
/// build ends with the error of the action that failed, whatever is reported
/// afterwards. The pages before the failed one were asked for, no page after
/// it is.
pub proof fn lemma_first_failure_aborts(page_count: usize, count: nat, afterwards: Seq<bool>)
    requires
        count <= page_count,
    ensures
        run(BuildState::Start, page_count, successes(count).push(false) + afterwards) == (
        BuildState::Failed { error: error_after(count) }),
        action_of(
            run(BuildState::Start, page_count, successes(count).push(false) + afterwards),
            page_count,
        ) == BuildAction::Fail(error_after(count)),
{
    let failing = successes(count).push(false);
    lemma_successful_build(page_count, count);
    assert(failing.drop_last() =~= successes(count));
    assert(run(BuildState::Start, page_count, failing) == (BuildState::Failed {
        error: error_after(count),
    }));
    lemma_run_concat(BuildState::Start, page_count, failing, afterwards);
    lemma_failure_is_final(error_after(count), page_count, afterwards);
}

/// Rebuilding is idempotent in what it writes: two builds of the site below
/// the same directory are handed the same paths and the same texts, in the
/// same order.
pub proof fn lemma_rebuild_writes_the_same(root: Seq<char>, first: Seq<Page>, second: Seq<Page>)
    requires
        page_views(first) == site_pages(root),
        page_views(second) == site_pages(root),
    ensures
        first.len() == second.len(),
        forall|i: int| 0 <= i < first.len() ==> first[i]@ == second[i]@,
{
    assert(page_views(first).len() == first.len());
    assert(page_views(second).len() == second.len());
    assert forall|i: int| 0 <= i < first.len() implies first[i]@ == second[i]@ by {
        assert(page_views(first)[i] == first[i]@);
        assert(page_views(second)[i] == second[i]@);
    }
}

} // verus!
