//! Handing over to the delegate: which executable runs, with which
//! arguments and where, and how the launcher ends afterwards.

use vstd::prelude::*;
use vstd::string::StringExecFns;
use crate::marker::{Wrapper, SETTINGS_FILE, SETTINGS_FILE_KT};
use crate::path::{AbsPath, PathView};
use crate::platform::Platform;
use crate::search::{lemma_locate_nearest, lemma_marked_has_nearest, locate, marked, nearest_marked};
use crate::text::{join, joined};

verus! {

/// The command that stands in for a missing wrapper script; the system
/// looks it up on its executable search path.
pub const GRADLE_BIN: &'static str = "gradle";

/// The flag that tells the delegate which directory holds the project.
pub const PROJECT_DIR_FLAG: &'static str = "--project-dir";

/// What is said when the launcher falls back on the system-wide
/// installation.
pub const FALLBACK_WARNING: &'static str = "Did not find gradlew wrapper! Trying gradle from $PATH";

/// The value of a delegate.
pub enum DelegateView {
    Wrapper(PathView),
    SystemPath,
}

/// The executable that the launcher hands over to.
#[derive(Debug, PartialEq, Eq)]
pub enum Delegate {
    /// The wrapper script at this path.
    Wrapper(AbsPath),
    /// The system-wide installation, found by the executable search path.
    SystemPath,
}

impl View for Delegate {
    type V = DelegateView;

    open spec fn view(&self) -> DelegateView {
        match self {
            Delegate::Wrapper(script) => DelegateView::Wrapper(script@),
            Delegate::SystemPath => DelegateView::SystemPath,
        }
    }
}

impl DelegateView {
    /// The delegate for a search that ended in `wrapper_dir`: the wrapper
    /// script inside that directory where there is one, the system-wide
    /// installation where the search found none.
    pub open spec fn resolve(wrapper_dir: Option<PathView>, platform: Platform) -> DelegateView {
        match wrapper_dir {
            Some(dir) => DelegateView::Wrapper(dir.child(platform.spec_wrapper_name())),
            None => DelegateView::SystemPath,
        }
    }

    /// The delegate as the system is asked to run it.
    pub open spec fn program(self, platform: Platform) -> Seq<char> {
        match self {
            DelegateView::Wrapper(script) => script.text(platform.spec_separator()),
            DelegateView::SystemPath => GRADLE_BIN@,
        }
    }

    /// The warning that goes with the delegate: one for the system-wide
    /// installation, none for a wrapper script.
    pub open spec fn warning(self) -> Option<Seq<char>> {
        match self {
            DelegateView::Wrapper(_) => None,
            DelegateView::SystemPath => Some(FALLBACK_WARNING@),
        }
    }
}

impl Delegate {
    /// The delegate for a search that ended in `wrapper_dir`: the wrapper
    /// script inside that directory where there is one, the system-wide
    /// installation where the search found none.
    pub fn resolve(wrapper_dir: Option<AbsPath>, platform: Platform) -> (delegate: Delegate)
        ensures
            delegate@ == DelegateView::resolve(wrapper_dir.deep_view(), platform),
    {
        match wrapper_dir {
            Some(dir) => Delegate::Wrapper(dir.child(platform.wrapper_name())),
            None => Delegate::SystemPath,
        }
    }

    /// The delegate as the system is asked to run it: the path of the
    /// wrapper script written out, or the bare name of the system command.
    pub fn program(&self, platform: Platform) -> (program: String)
        ensures
            program@ == self@.program(platform),
    {
        match self {
            Delegate::Wrapper(script) => script.to_text(platform.separator()),
            Delegate::SystemPath => String::from_str(GRADLE_BIN),
        }
    }

    /// The warning that goes with the delegate: one for the system-wide
    /// installation, none for a wrapper script.
    pub fn warning(&self) -> (warning: Option<String>)
        ensures
            warning.deep_view() == self@.warning(),
    {
        match self {
            Delegate::Wrapper(_) => None,
            Delegate::SystemPath => Some(String::from_str(FALLBACK_WARNING)),
        }
    }
}

/// A wrapper script in `origin` or in any of its ancestors is preferred over
/// the system-wide installation: the delegate is then the wrapper script of
/// the nearest such directory. The project root plays no part in the choice.
pub proof fn lemma_wrapper_preferred(
    tree: Seq<PathView>,
    origin: PathView,
    wrapper: Wrapper,
    steps: nat,
) -> (nearest: nat)
    requires
        steps <= origin.depth(),
        marked(tree, origin.ancestor(steps), &wrapper),
    ensures
        nearest <= steps,
        nearest_marked(tree, origin, &wrapper, nearest),
        DelegateView::resolve(locate(tree, origin, &wrapper), wrapper.platform)
            == DelegateView::Wrapper(
            origin.ancestor(nearest).child(wrapper.platform.spec_wrapper_name()),
        ),
{
    let nearest = lemma_marked_has_nearest(tree, origin, &wrapper, steps);
    lemma_locate_nearest(tree, origin, &wrapper, nearest);
    nearest
}

/// Without a wrapper script in `origin` or any of its ancestors, the
/// delegate is the system-wide installation.
pub proof fn lemma_fallback_without_wrapper(tree: Seq<PathView>, origin: PathView, wrapper: Wrapper)
    requires
        forall|steps: nat|
            steps <= origin.depth() ==> !marked(tree, #[trigger] origin.ancestor(steps), &wrapper),
    ensures
        DelegateView::resolve(locate(tree, origin, &wrapper), wrapper.platform)
            == DelegateView::SystemPath,
{
}

/// The arguments of an invocation without the first, which names the
/// program itself.
pub open spec fn user_args(argv: Seq<Seq<char>>) -> Seq<Seq<char>> {
    if argv.len() == 0 {
        argv
    } else {
        argv.drop_first()
    }
}

/// The arguments that the delegate gets: the project-directory flag, the
/// project root written out, then every argument that the user gave, in the
/// user's order.
pub open spec fn delegate_args(root: PathView, platform: Platform, argv: Seq<Seq<char>>) -> Seq<
    Seq<char>,
> {
    seq![PROJECT_DIR_FLAG@, root.text(platform.spec_separator())] + user_args(argv)
}

/// The value of an invocation.
pub struct InvocationView {
    pub program: Seq<char>,
    pub args: Seq<Seq<char>>,
    pub working_dir: Seq<char>,
}

/// One run of the delegate: the executable, its arguments and the directory
/// it runs in.
#[derive(Debug, PartialEq, Eq)]
pub struct Invocation {
    pub program: String,
    pub args: Vec<String>,
    pub working_dir: String,
}

impl View for Invocation {
    type V = InvocationView;

    open spec fn view(&self) -> InvocationView {
        InvocationView {
            program: self.program@,
            args: self.args.deep_view(),
            working_dir: self.working_dir@,
        }
    }
}

impl InvocationView {
    /// The invocation of `delegate` for the project rooted at `root`, with
    /// the launcher's own argument vector `argv`.
    pub open spec fn of(
        delegate: DelegateView,
        root: PathView,
        platform: Platform,
        argv: Seq<Seq<char>>,
    ) -> InvocationView {
        InvocationView {
            program: delegate.program(platform),
            args: delegate_args(root, platform, argv),
            working_dir: root.text(platform.spec_separator()),
        }
    }

    /// The line that announces the invocation.
    pub open spec fn announcement(self) -> Seq<char> {
        "Executing "@ + self.program + " "@ + joined(self.args, " "@) + " from directory "@
            + self.working_dir
    }
}

/// The invocation of `delegate` for the project rooted at `root`. `argv` is
/// the launcher's own argument vector, its first entry the launcher's name:
/// the delegate gets the rest unchanged, behind the project-directory flag
/// and the root, and runs inside the root.
pub fn command_line(
    delegate: &Delegate,
    root: &AbsPath,
    platform: Platform,
    argv: &Vec<String>,
) -> (invocation: Invocation)
    ensures
        invocation@ == InvocationView::of(delegate@, root@, platform, argv.deep_view()),
        invocation@.args == seq![PROJECT_DIR_FLAG@, root@.text(platform.spec_separator())]
            + user_args(argv.deep_view()),
{
    let working_dir = root.to_text(platform.separator());
    let mut args: Vec<String> = Vec::new();
    args.push(String::from_str(PROJECT_DIR_FLAG));
    args.push(working_dir.clone());
    let ghost prefix = seq![PROJECT_DIR_FLAG@, root@.text(platform.spec_separator())];
    let ghost rest = user_args(argv.deep_view());
    let mut i: usize = 1;
    while i < argv.len()
        invariant
            1 <= i,
            rest == user_args(argv.deep_view()),
            i - 1 <= rest.len(),
            args.deep_view() == prefix + rest.take(i - 1),
        decreases argv.len() - i,
    {
        let ghost before = args.deep_view();
        args.push(argv[i].clone());
        proof {
            assert(args.deep_view() =~= before.push(argv[i as int]@));
        }
        i = i + 1;
    }
    assert(rest.take(i - 1) =~= rest);
    Invocation { program: delegate.program(platform), args, working_dir }
}

/// The line that announces an invocation: the executable, its arguments
/// with a blank between each two, and the working directory.
pub fn announcement(invocation: &Invocation) -> (line: String)
    ensures
        line@ == invocation@.announcement(),
{
    let mut line = String::from_str("Executing ");
    line.append(invocation.program.as_str());
    line.append(" ");
    let args = join(&invocation.args, " ");
    line.append(args.as_str());
    line.append(" from directory ");
    line.append(invocation.working_dir.as_str());
    line
}

/// The value of an exit.
pub struct ExitView {
    pub code: i32,
    pub diagnostic: Option<Seq<char>>,
}

/// How the launcher ends: its exit code and what it says on the way out.
#[derive(Debug, PartialEq, Eq)]
pub struct Exit {
    pub code: i32,
    pub diagnostic: Option<String>,
}

impl View for Exit {
    type V = ExitView;

    open spec fn view(&self) -> ExitView {
        ExitView { code: self.code, diagnostic: self.diagnostic.deep_view() }
    }
}

/// What is said when no settings file is found: both file names are named.
pub open spec fn root_missing_message() -> Seq<char> {
    "Did not find "@ + SETTINGS_FILE@ + " or "@ + SETTINGS_FILE_KT@ + " file!"@
}

impl ExitView {
    /// The end of a launch that found no project root: exit code 1, with a
    /// diagnostic that names both settings files.
    pub open spec fn root_missing() -> ExitView {
        ExitView { code: 1, diagnostic: Some(root_missing_message()) }
    }
}

/// The end of a launch that found no project root: exit code 1, with a
/// diagnostic that names both settings files.
pub fn root_missing() -> (exit: Exit)
    ensures
        exit@ == ExitView::root_missing(),
{
    let mut text = String::from_str("Did not find ");
    text.append(SETTINGS_FILE);
    text.append(" or ");
    text.append(SETTINGS_FILE_KT);
    text.append(" file!");
    Exit { code: 1, diagnostic: Some(text) }
}

/// The value of an outcome.
pub enum OutcomeView {
    Exited(Option<i32>),
    Failed(Seq<char>),
}

/// What became of the delegate.
#[derive(Debug, PartialEq, Eq)]
pub enum Outcome {
    /// It ran and ended, with an exit code or, killed by a signal, without.
    Exited(Option<i32>),
    /// It could not be started or waited for; the text says why.
    Failed(String),
}

impl View for Outcome {
    type V = OutcomeView;

    open spec fn view(&self) -> OutcomeView {
        match self {
            Outcome::Exited(code) => OutcomeView::Exited(*code),
            Outcome::Failed(reason) => OutcomeView::Failed(reason@),
        }
    }
}

/// What is said when the delegate could not be run.
pub open spec fn failure_message(reason: Seq<char>) -> Seq<char> {
    "Failed "@ + reason
}

impl OutcomeView {
    /// The end of a launch that handed over: the delegate's own exit code
    /// where it ended with one; 1 where a signal killed it; 1 and the reason
    /// where it could not be run.
    pub open spec fn exit(self) -> ExitView {
        match self {
            OutcomeView::Exited(Some(code)) => ExitView { code, diagnostic: None },
            OutcomeView::Exited(None) => ExitView { code: 1, diagnostic: None },
            OutcomeView::Failed(reason) => ExitView {
                code: 1,
                diagnostic: Some(failure_message(reason)),
            },
        }
    }
}

/// The end of a launch that handed over: the launcher passes on the
/// delegate's exit code, and ends with 1 where the delegate was killed by a
/// signal or could not be run, then saying why.
pub fn conclude(outcome: &Outcome) -> (exit: Exit)
    ensures
        exit@ == outcome@.exit(),
        outcome@ matches OutcomeView::Exited(Some(code)) ==> exit.code == code,
{
    match outcome {
        Outcome::Exited(Some(code)) => Exit { code: *code, diagnostic: None },
        Outcome::Exited(None) => Exit { code: 1, diagnostic: None },
        Outcome::Failed(reason) => {
            let mut text = String::from_str("Failed ");
            text.append(reason.as_str());
            Exit { code: 1, diagnostic: Some(text) }
        },
    }
}

} // verus!
