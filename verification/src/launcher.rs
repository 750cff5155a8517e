//! The launcher as a whole: the search for the project root, the search for
//! the wrapper script, and the hand-over. The launcher decides; its caller
//! lists the directories it asks for and runs the delegate.

use vstd::prelude::*;
use crate::delegate::{
    announcement, command_line, delegate_args, lemma_wrapper_preferred, root_missing, Delegate,
    DelegateView, Exit, ExitView, Invocation, InvocationView,
};
use crate::marker::{SettingsFile, Wrapper};
use crate::path::{AbsPath, PathView};
use crate::platform::Platform;
use crate::search::{
    holds_marker, lemma_locate_nearest, lemma_locate_none, lemma_locate_step,
    lemma_marked_by_listing, locate, marked, nearest_marked, walk_step, Walk,
};
use crate::tree::{children, DirTree};

verus! {

/// The value of a launch.
pub struct LaunchView {
    pub invocation: InvocationView,
    pub announcement: Seq<char>,
    pub warning: Option<Seq<char>>,
}

/// A hand-over that is ready to run: the invocation, the line that announces
/// it on standard output, and the warning for standard error where the
/// launcher falls back on the system-wide installation.
#[derive(Debug, PartialEq, Eq)]
pub struct Launch {
    pub invocation: Invocation,
    pub announcement: String,
    pub warning: Option<String>,
}

impl View for Launch {
    type V = LaunchView;

    open spec fn view(&self) -> LaunchView {
        LaunchView {
            invocation: self.invocation@,
            announcement: self.announcement@,
            warning: self.warning.deep_view(),
        }
    }
}

impl LaunchView {
    /// The hand-over to `delegate` for the project rooted at `root`.
    pub open spec fn of(
        delegate: DelegateView,
        root: PathView,
        platform: Platform,
        argv: Seq<Seq<char>>,
    ) -> LaunchView {
        let invocation = InvocationView::of(delegate, root, platform, argv);
        LaunchView {
            invocation,
            announcement: invocation.announcement(),
            warning: delegate.warning(),
        }
    }
}

/// The value of a search.
pub struct SearchView {
    pub origin: PathView,
    pub platform: Platform,
    pub argv: Seq<Seq<char>>,
    pub root: Option<PathView>,
    pub at: PathView,
}

/// A launcher that waits for the listing of one directory. While `root` is
/// `None` it looks for the project root; afterwards it looks for the wrapper
/// script.
#[derive(Debug, PartialEq, Eq)]
pub struct Search {
    /// The directory that the launcher was started in.
    pub origin: AbsPath,
    pub platform: Platform,
    /// The launcher's own argument vector, its first entry the launcher's
    /// name.
    pub argv: Vec<String>,
    /// The project root, once it is found.
    pub root: Option<AbsPath>,
    /// The directory whose listing is awaited.
    pub at: AbsPath,
}

impl View for Search {
    type V = SearchView;

    open spec fn view(&self) -> SearchView {
        SearchView {
            origin: self.origin@,
            platform: self.platform,
            argv: self.argv.deep_view(),
            root: self.root.deep_view(),
            at: self.at@,
        }
    }
}

/// The value of a next move.
pub enum NextView {
    List(SearchView),
    Run(LaunchView),
    End(ExitView),
}

/// What the launcher's caller does next.
#[derive(Debug, PartialEq, Eq)]
pub enum Next {
    /// List the directory `at` of the search and hand its entries to
    /// `listed`.
    List(Search),
    /// Say the warning and the announcement, run the invocation, and end as
    /// `conclude` says.
    Run(Launch),
    /// End at once.
    End(Exit),
}

impl View for Next {
    type V = NextView;

    open spec fn view(&self) -> NextView {
        match self {
            Next::List(search) => NextView::List(search@),
            Next::Run(launch) => NextView::Run(launch@),
            Next::End(exit) => NextView::End(exit@),
        }
    }
}

impl SearchView {
    /// A launcher at its start: it looks for the project root, from
    /// `origin` upward.
    pub open spec fn start(origin: PathView, platform: Platform, argv: Seq<Seq<char>>) -> SearchView {
        SearchView { origin, platform, argv, root: None, at: origin }
    }

    /// The marker of the wrapper script on the launcher's platform.
    pub open spec fn wrapper(self) -> Wrapper {
        Wrapper { platform: self.platform }
    }

    /// The hand-over for the project rooted at `root`, after the search for
    /// the wrapper script has ended in `wrapper_dir`.
    pub open spec fn hand_over(self, root: PathView, wrapper_dir: Option<PathView>) -> LaunchView {
        LaunchView::of(
            DelegateView::resolve(wrapper_dir, self.platform),
            root,
            self.platform,
            self.argv,
        )
    }

    /// The launcher's move once the immediate children of `at` are known to
    /// be called `entries`.
    ///
    /// While it looks for the root: a settings file among the entries makes
    /// `at` the root, and the search for the wrapper script starts over at
    /// `origin`; without one the search goes on in the parent, and ends the
    /// launch at the filesystem root.
    ///
    /// While it looks for the wrapper script: the script among the entries
    /// makes it the delegate; without it the search goes on in the parent,
    /// and falls back on the system-wide installation at the filesystem
    /// root.
    pub open spec fn listed(self, entries: Seq<Seq<char>>) -> NextView {
        match self.root {
            None => {
                if holds_marker(&SettingsFile, self.at, entries) {
                    NextView::List(SearchView { root: Some(self.at), at: self.origin, ..self })
                } else {
                    match self.at.parent() {
                        Some(up) => NextView::List(SearchView { at: up, ..self }),
                        None => NextView::End(ExitView::root_missing()),
                    }
                }
            },
            Some(root) => {
                if holds_marker(&self.wrapper(), self.at, entries) {
                    NextView::Run(self.hand_over(root, Some(self.at)))
                } else {
                    match self.at.parent() {
                        Some(up) => NextView::List(SearchView { at: up, ..self }),
                        None => NextView::Run(self.hand_over(root, None)),
                    }
                }
            },
        }
    }

    /// A bound on the listings that the launcher can still ask for after
    /// the one it waits for.
    pub open spec fn listings_left(self) -> nat {
        match self.root {
            None => self.at.depth() + self.origin.depth() + 2,
            Some(_) => self.at.depth(),
        }
    }

    /// How the launcher's searches end on `tree`. Without a settings file in
    /// `at` or above it the launch ends with exit code 1. Otherwise the
    /// nearest directory with a settings file is the root, and the delegate
    /// is the wrapper script of the nearest directory that holds one, looked
    /// for from `origin` upward, or else the system-wide installation.
    pub open spec fn outcome_on(self, tree: Seq<PathView>) -> Result<LaunchView, ExitView> {
        match self.root {
            None => match locate(tree, self.at, &SettingsFile) {
                None => Err(ExitView::root_missing()),
                Some(root) => Ok(
                    self.hand_over(root, locate(tree, self.origin, &self.wrapper())),
                ),
            },
            Some(root) => Ok(self.hand_over(root, locate(tree, self.at, &self.wrapper()))),
        }
    }
}

impl Search {
    /// A launcher at its start: it looks for the project root, from
    /// `origin` upward, and waits for the listing of `origin`.
    pub fn start(origin: AbsPath, platform: Platform, argv: Vec<String>) -> (search: Search)
        ensures
            search@ == SearchView::start(origin@, platform, argv.deep_view()),
    {
        let at = origin.clone();
        Search { origin, platform, argv, root: None, at }
    }

    /// The launcher's move once the immediate children of `at` are known to
    /// be called `entries`.
    pub fn listed(self, entries: &Vec<String>) -> (next: Next)
        ensures
            next@ == self@.listed(entries.deep_view()),
    {
        let Search { origin, platform, argv, root, at } = self;
        match root {
            None => {
                match walk_step(at, entries, &SettingsFile) {
                    Walk::Found(found) => {
                        let at = origin.clone();
                        Next::List(Search { origin, platform, argv, root: Some(found), at })
                    },
                    Walk::Ascend(up) => Next::List(
                        Search { origin, platform, argv, root: None, at: up },
                    ),
                    Walk::Exhausted => Next::End(root_missing()),
                }
            },
            Some(root) => {
                match walk_step(at, entries, &Wrapper { platform }) {
                    Walk::Found(dir) => Next::Run(Launch::prepare(&root, Some(dir), platform, &argv)),
                    Walk::Ascend(up) => Next::List(
                        Search { origin, platform, argv, root: Some(root), at: up },
                    ),
                    Walk::Exhausted => Next::Run(Launch::prepare(&root, None, platform, &argv)),
                }
            },
        }
    }

    /// Runs the launcher's searches to their end on a tree held in memory:
    /// each directory that the launcher asks for is listed from `tree`.
    pub fn run_on(self, tree: &DirTree) -> (end: Result<Launch, Exit>)
        ensures
            match end {
                Ok(launch) => self@.outcome_on(tree@) == Ok::<LaunchView, ExitView>(launch@),
                Err(exit) => self@.outcome_on(tree@) == Err::<LaunchView, ExitView>(exit@),
            },
    {
        let mut search = self;
        loop
            invariant
                search@.outcome_on(tree@) == self@.outcome_on(tree@),
            decreases search@.listings_left(),
        {
            let entries = tree.list(&search.at);
            proof {
                lemma_listed_keeps_outcome(search@, tree@);
            }
            match search.listed(&entries) {
                Next::List(next) => {
                    search = next;
                },
                Next::Run(launch) => {
                    return Ok(launch);
                },
                Next::End(exit) => {
                    return Err(exit);
                },
            }
        }
    }
}

impl Launch {
    /// The hand-over for the project rooted at `root`, after the search for
    /// the wrapper script has ended in `wrapper_dir`: the delegate is the
    /// wrapper script in that directory, or the system-wide installation
    /// where the search found no directory.
    pub fn prepare(
        root: &AbsPath,
        wrapper_dir: Option<AbsPath>,
        platform: Platform,
        argv: &Vec<String>,
    ) -> (launch: Launch)
        ensures
            launch@ == LaunchView::of(
                DelegateView::resolve(wrapper_dir.deep_view(), platform),
                root@,
                platform,
                argv.deep_view(),
            ),
    {
        let delegate = Delegate::resolve(wrapper_dir, platform);
        let invocation = command_line(&delegate, root, platform, argv);
        let line = announcement(&invocation);
        Launch { invocation, announcement: line, warning: delegate.warning() }
    }
}

/// One listing brings the launcher nearer to its end without changing the
/// end: the move that follows the listing of `at` from `tree` either is the
/// end that `outcome_on` names, or is a search with the same end and fewer
/// listings left.
pub proof fn lemma_listed_keeps_outcome(search: SearchView, tree: Seq<PathView>)
    ensures
        match search.listed(children(tree, search.at)) {
            NextView::List(next) => next.outcome_on(tree) == search.outcome_on(tree)
                && next.listings_left() < search.listings_left(),
            NextView::Run(launch) => search.outcome_on(tree) == Ok::<LaunchView, ExitView>(launch),
            NextView::End(exit) => search.outcome_on(tree) == Err::<LaunchView, ExitView>(exit),
        },
{
    lemma_marked_by_listing(tree, search.at, &SettingsFile);
    lemma_marked_by_listing(tree, search.at, &search.wrapper());
    lemma_locate_step(tree, search.at, &SettingsFile);
    lemma_locate_step(tree, search.at, &search.wrapper());
}

/// Without a settings file in the starting directory or in any directory
/// above it, up to the filesystem root, the launch ends with exit code 1 and
/// runs nothing.
pub proof fn lemma_launch_without_root(
    tree: Seq<PathView>,
    origin: PathView,
    platform: Platform,
    argv: Seq<Seq<char>>,
)
    requires
        forall|steps: nat|
            steps <= origin.depth() ==> !marked(
                tree,
                #[trigger] origin.ancestor(steps),
                &SettingsFile,
            ),
    ensures
        SearchView::start(origin, platform, argv).outcome_on(tree) == Err::<LaunchView, ExitView>(
            ExitView::root_missing(),
        ),
        ExitView::root_missing().code == 1,
{
    lemma_locate_none(tree, origin, &SettingsFile);
}

/// With a settings file in the directory `steps` above the starting
/// directory and in none nearer, the launch hands over: the delegate runs
/// inside that directory, and its arguments are the project-directory flag,
/// that directory, and then the user's own arguments unchanged.
pub proof fn lemma_launch_in_nearest_root(
    tree: Seq<PathView>,
    origin: PathView,
    platform: Platform,
    argv: Seq<Seq<char>>,
    steps: nat,
)
    requires
        nearest_marked(tree, origin, &SettingsFile, steps),
    ensures
        SearchView::start(origin, platform, argv).outcome_on(tree) matches Ok(launch)
            && launch.invocation.working_dir == origin.ancestor(steps).text(
            platform.spec_separator(),
        ) && launch.invocation.args == delegate_args(origin.ancestor(steps), platform, argv),
{
    lemma_locate_nearest(tree, origin, &SettingsFile, steps);
}

/// With a wrapper script in the starting directory or anywhere above it, a
/// launch that hands over runs the wrapper script of the nearest such
/// directory, without a warning, wherever the project root lies.
pub proof fn lemma_launch_prefers_wrapper(
    tree: Seq<PathView>,
    origin: PathView,
    platform: Platform,
    argv: Seq<Seq<char>>,
    steps: nat,
) -> (nearest: nat)
    requires
        steps <= origin.depth(),
        marked(tree, origin.ancestor(steps), &(Wrapper { platform })),
    ensures
        nearest <= steps,
        nearest_marked(tree, origin, &(Wrapper { platform }), nearest),
        SearchView::start(origin, platform, argv).outcome_on(tree) matches Ok(launch) ==> {
            &&& launch.invocation.program == origin.ancestor(nearest).child(
                platform.spec_wrapper_name(),
            ).text(platform.spec_separator())
            &&& launch.warning is None
        },
{
    lemma_wrapper_preferred(tree, origin, Wrapper { platform }, steps)
}

} // verus!
