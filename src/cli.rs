//! From the launcher's command line to the action to take.
//!
//! A resolution is a [`Resolver`] that asks one [`Query`] at a time about the
//! machine (environment variables, files, installed interpreters) and is
//! advanced by the matching [`Event`]. The caller does the outside work; the
//! decisions, and their order, are all here.

use vstd::prelude::*;
use crate::error::{Error, ErrorModel};
use crate::listing::{entries_model, list_executables, listing, Entry};
use crate::shebang::{parse_python_shebang, shebang_request};
use crate::venv::{
    parent_dir, parent_of, venv_candidate, venv_candidate_path, venv_executable_of,
    venv_executable_path,
};
use crate::version::{override_var, parse_version, version_request, ExactVersion, RequestedVersion};

verus! {

/// What the launcher is to do.
#[derive(Debug, PartialEq)]
pub enum Action {
    /// Print the help text (first field); the interpreter (second field) is
    /// run with `-h` after it.
    Help(String, String),
    /// Print this listing of the interpreters found.
    List(String),
    /// Run `executable` with `args`.
    Execute { launcher_path: String, executable: String, args: Vec<String> },
}

/// An [`Action`] with its texts as character sequences.
pub enum ActionModel {
    Help(Seq<char>, Seq<char>),
    List(Seq<char>),
    Execute(Seq<char>, Seq<char>, Seq<Seq<char>>),
}

pub open spec fn texts(v: Seq<String>) -> Seq<Seq<char>> {
    v.map_values(|s: String| s@)
}

impl View for Action {
    type V = ActionModel;

    open spec fn view(&self) -> ActionModel {
        match self {
            Action::Help(m, p) => ActionModel::Help(m@, p@),
            Action::List(t) => ActionModel::List(t@),
            Action::Execute { launcher_path, executable, args } => ActionModel::Execute(
                launcher_path@,
                executable@,
                texts(args@),
            ),
        }
    }
}

/// What a resolution needs to know from outside.
#[derive(Debug, PartialEq)]
pub enum Query {
    /// The value of an environment variable; answered by [`Event::Text`].
    EnvVar(String),
    /// The current working directory; answered by [`Event::Text`].
    CurrentDir,
    /// Whether a regular file exists at this path; answered by [`Event::Flag`].
    IsFile(String),
    /// The first line of the file at this path, as far as it can be read;
    /// answered by [`Event::Bytes`], `None` where the file cannot be opened.
    FileHead(String),
    /// The best installed interpreter for the request; answered by
    /// [`Event::Text`].
    Search(RequestedVersion),
    /// Every installed interpreter; answered by [`Event::Executables`].
    Enumerate,
    /// The help text for this launcher and interpreter; answered by
    /// [`Event::Text`].
    HelpText(String, String),
}

/// The answer to a [`Query`].
#[derive(Debug, PartialEq)]
pub enum Event {
    Text(Option<String>),
    Flag(bool),
    Bytes(Option<Vec<u8>>),
    Executables(Vec<(ExactVersion, String)>),
}

/// The machine as a resolution sees it: what each query would be answered.
pub ghost struct World {
    pub env: spec_fn(Seq<char>) -> Option<Seq<char>>,
    pub cwd: Option<Seq<char>>,
    pub is_file: spec_fn(Seq<char>) -> bool,
    pub head: spec_fn(Seq<char>) -> Option<Seq<u8>>,
    pub search: spec_fn(RequestedVersion) -> Option<Seq<char>>,
    pub installed: Seq<Entry>,
    pub help: spec_fn(Seq<char>, Seq<char>) -> Seq<char>,
}

pub open spec fn opt_text(t: Option<String>) -> Option<Seq<char>> {
    match t {
        Some(s) => Some(s@),
        None => None,
    }
}

pub open spec fn opt_bytes(b: Option<Vec<u8>>) -> Option<Seq<u8>> {
    match b {
        Some(v) => Some(v@),
        None => None,
    }
}

/// The outcome of a search for `v`.
pub open spec fn search_outcome(v: RequestedVersion, w: World) -> Result<Seq<char>, ErrorModel> {
    match (w.search)(v) {
        Some(p) => Ok(p),
        None => Err(ErrorModel::NoExecutableFound(v)),
    }
}

/// A non-empty override variable replaces the request, and must be a
/// version; then the search decides.
pub open spec fn override_outcome(v: RequestedVersion, w: World) -> Result<Seq<char>, ErrorModel> {
    match override_var(v) {
        Some(name) => match (w.env)(name) {
            Some(val) => if val.len() > 0 {
                match version_request(val) {
                    Some(v2) => search_outcome(v2, w),
                    None => Err(ErrorModel::BadVersionFormat(val)),
                }
            } else {
                search_outcome(v, w)
            },
            None => search_outcome(v, w),
        },
        None => search_outcome(v, w),
    }
}

/// The request that the script named by the first argument makes through its
/// `#!` line, or any version.
pub open spec fn script_request(args: Seq<Seq<char>>, w: World) -> RequestedVersion {
    if args.len() > 0 {
        match (w.head)(args[0]) {
            Some(b) => match shebang_request(b) {
                Some(v) => v,
                None => RequestedVersion::Any,
            },
            None => RequestedVersion::Any,
        }
    } else {
        RequestedVersion::Any
    }
}

/// With no environment found: the script's request, then the override.
pub open spec fn after_venv(args: Seq<Seq<char>>, w: World) -> Result<Seq<char>, ErrorModel> {
    override_outcome(script_request(args, w), w)
}

/// The first of `dir` and its ancestors with a default environment whose
/// interpreter exists.
pub open spec fn ancestor_venv(dir: Seq<char>, w: World) -> Option<Seq<char>>
    decreases dir.len(),
{
    if (w.is_file)(venv_candidate(dir)) {
        Some(venv_candidate(dir))
    } else {
        match parent_of(dir) {
            Some(p) => if p.len() < dir.len() {
                ancestor_venv(p, w)
            } else {
                None
            },
            None => None,
        }
    }
}

pub open spec fn from_dir(dir: Seq<char>, args: Seq<Seq<char>>, w: World) -> Result<
    Seq<char>,
    ErrorModel,
> {
    match ancestor_venv(dir, w) {
        Some(p) => Ok(p),
        None => after_venv(args, w),
    }
}

pub open spec fn from_workdir(args: Seq<Seq<char>>, w: World) -> Result<Seq<char>, ErrorModel> {
    match w.cwd {
        Some(d) => from_dir(d, args, w),
        None => after_venv(args, w),
    }
}

/// The interpreter of the environment named by `VIRTUAL_ENV`, when set and
/// not empty.
pub open spec fn active_venv(w: World) -> Option<Seq<char>> {
    match (w.env)("VIRTUAL_ENV"@) {
        Some(root) => if root.len() > 0 {
            Some(venv_executable_of(root))
        } else {
            None
        },
        None => None,
    }
}

/// The resolution pipeline: for an unconstrained request an environment
/// wins outright, else the script may refine the request; then the override
/// variable, then the search.
pub open spec fn pipeline(v: RequestedVersion, args: Seq<Seq<char>>, w: World) -> Result<
    Seq<char>,
    ErrorModel,
> {
    if v == RequestedVersion::Any {
        match active_venv(w) {
            Some(p) => Ok(p),
            None => from_workdir(args, w),
        }
    } else {
        override_outcome(v, w)
    }
}

pub open spec fn execute(launcher: Seq<char>, args: Seq<Seq<char>>, r: Result<Seq<char>, ErrorModel>) -> Result<ActionModel, ErrorModel> {
    match r {
        Ok(p) => Ok(ActionModel::Execute(launcher, p, args)),
        Err(e) => Err(e),
    }
}

pub open spec fn is_reserved(f: Seq<char>) -> bool {
    f == "-h"@ || f == "--help"@ || f == "--list"@
}

/// The version a `-MAJOR[.MINOR]` flag asks for.
pub open spec fn flag_version(arg: Seq<char>) -> Option<RequestedVersion> {
    if arg.len() > 0 && arg[0] == '-' {
        version_request(arg.skip(1))
    } else {
        None
    }
}

pub open spec fn help_outcome(launcher: Seq<char>, w: World) -> Result<ActionModel, ErrorModel> {
    match (w.search)(RequestedVersion::Any) {
        Some(p) => Ok(ActionModel::Help((w.help)(launcher, p), p)),
        None => Err(ErrorModel::NoExecutableFound(RequestedVersion::Any)),
    }
}

pub open spec fn list_outcome(w: World) -> Result<ActionModel, ErrorModel> {
    match listing(w.installed) {
        Ok(t) => Ok(ActionModel::List(t)),
        Err(e) => Err(e),
    }
}

/// The action for the command line `argv` (the launcher's path first) on
/// the machine `w`.
pub open spec fn resolve(argv: Seq<Seq<char>>, w: World) -> Result<ActionModel, ErrorModel> {
    let launcher = argv[0];
    if argv.len() > 1 && is_reserved(argv[1]) {
        if argv.len() > 2 {
            Err(ErrorModel::IllegalArgument(launcher, argv[1]))
        } else if argv[1] == "--list"@ {
            list_outcome(w)
        } else {
            help_outcome(launcher, w)
        }
    } else if argv.len() > 1 && flag_version(argv[1]) is Some {
        execute(launcher, argv.skip(2), pipeline(flag_version(argv[1])->0, argv.skip(2), w))
    } else {
        execute(launcher, argv.skip(1), pipeline(RequestedVersion::Any, argv.skip(1), w))
    }
}

/// Where a resolution stands: which answer it waits for.
#[derive(Debug)]
enum Stage {
    HelpSearch,
    HelpText { executable: String },
    Listing,
    ActiveVenv,
    WorkDir,
    VenvProbe { dir: String },
    Script,
    Override { version: RequestedVersion },
    Search { version: RequestedVersion },
}

/// A resolution under way.
#[derive(Debug)]
pub struct Resolver {
    launcher: String,
    args: Vec<String>,
    stage: Stage,
}

/// What a step of a resolution gives: a resolution that waits for its next
/// answer, or the outcome.
#[derive(Debug)]
pub enum Next {
    Pending(Resolver),
    Done(Result<Action, Error>),
}

pub open spec fn result_model(r: Result<Action, Error>) -> Result<ActionModel, ErrorModel> {
    match r {
        Ok(a) => Ok(a@),
        Err(e) => Err(e@),
    }
}

impl Next {
    /// The outcome that this step leads to on the machine `w`.
    pub open spec fn outcome(&self, w: World) -> Result<ActionModel, ErrorModel> {
        match self {
            Next::Pending(r) => r.outcome(w),
            Next::Done(r) => result_model(*r),
        }
    }

    /// The resolution can go on.
    pub open spec fn valid(&self) -> bool {
        match self {
            Next::Pending(r) => r.wf(),
            Next::Done(_) => true,
        }
    }
}

impl Resolver {
    pub closed spec fn wf(&self) -> bool {
        match self.stage {
            Stage::Script => self.args@.len() > 0,
            Stage::Override { version } => override_var(version) is Some,
            _ => true,
        }
    }

    /// The outcome that this resolution leads to on the machine `w`.
    pub closed spec fn outcome(&self, w: World) -> Result<ActionModel, ErrorModel> {
        let l = self.launcher@;
        let a = texts(self.args@);
        match self.stage {
            Stage::HelpSearch => help_outcome(l, w),
            Stage::HelpText { executable } => Ok(
                ActionModel::Help((w.help)(l, executable@), executable@),
            ),
            Stage::Listing => list_outcome(w),
            Stage::ActiveVenv => execute(l, a, pipeline(RequestedVersion::Any, a, w)),
            Stage::WorkDir => execute(l, a, from_workdir(a, w)),
            Stage::VenvProbe { dir } => execute(l, a, from_dir(dir@, a, w)),
            Stage::Script => execute(l, a, after_venv(a, w)),
            Stage::Override { version } => execute(l, a, override_outcome(version, w)),
            Stage::Search { version } => execute(l, a, search_outcome(version, w)),
        }
    }

    /// How many kinds of question are left at most, counting this one.
    pub closed spec fn phase(&self) -> nat {
        match self.stage {
            Stage::HelpSearch => 2,
            Stage::HelpText { .. } => 1,
            Stage::Listing => 1,
            Stage::ActiveVenv => 6,
            Stage::WorkDir => 5,
            Stage::VenvProbe { .. } => 4,
            Stage::Script => 3,
            Stage::Override { .. } => 2,
            Stage::Search { .. } => 1,
        }
    }

    /// The length of the directory being probed, if one is.
    pub closed spec fn probe_len(&self) -> nat {
        match self.stage {
            Stage::VenvProbe { dir } => dir@.len(),
            _ => 0,
        }
    }

    /// `self` is strictly closer to the end than `other`: a later phase, or
    /// the same phase on a shorter directory. So every resolution ends.
    pub open spec fn precedes(&self, other: &Resolver) -> bool {
        self.phase() < other.phase() || (self.phase() == other.phase() && self.probe_len()
            < other.probe_len())
    }

    /// `q` is the question this resolution waits on.
    pub closed spec fn asks(&self, q: Query) -> bool {
        match self.stage {
            Stage::HelpSearch => q == Query::Search(RequestedVersion::Any),
            Stage::HelpText { executable } => q matches Query::HelpText(l, x) && l@
                == self.launcher@ && x@ == executable@,
            Stage::Listing => q == Query::Enumerate,
            Stage::ActiveVenv => q matches Query::EnvVar(n) && n@ == "VIRTUAL_ENV"@,
            Stage::WorkDir => q == Query::CurrentDir,
            Stage::VenvProbe { dir } => q matches Query::IsFile(p) && p@ == venv_candidate(dir@),
            Stage::Script => q matches Query::FileHead(p) && p@ == self.args@[0]@,
            Stage::Override { version } => q matches Query::EnvVar(n) && Some(n@) == override_var(
                version,
            ),
            Stage::Search { version } => q == Query::Search(version),
        }
    }

    /// `e` is what the machine `w` answers to this resolution's question.
    pub closed spec fn answered(&self, w: World, e: Event) -> bool {
        match self.stage {
            Stage::HelpSearch => e matches Event::Text(t) && opt_text(t) == (w.search)(
                RequestedVersion::Any,
            ),
            Stage::HelpText { executable } => e matches Event::Text(t) && t is Some && opt_text(t)
                == Some((w.help)(self.launcher@, executable@)),
            Stage::Listing => e matches Event::Executables(v) && entries_model(v@) == w.installed,
            Stage::ActiveVenv => e matches Event::Text(t) && opt_text(t) == (w.env)(
                "VIRTUAL_ENV"@,
            ),
            Stage::WorkDir => e matches Event::Text(t) && opt_text(t) == w.cwd,
            Stage::VenvProbe { dir } => e matches Event::Flag(b) && b == (w.is_file)(
                venv_candidate(dir@),
            ),
            Stage::Script => e matches Event::Bytes(b) && opt_bytes(b) == (w.head)(
                self.args@[0]@,
            ),
            Stage::Override { version } => e matches Event::Text(t) && opt_text(t) == (w.env)(
                override_var(version)->0,
            ),
            Stage::Search { version } => e matches Event::Text(t) && opt_text(t) == (w.search)(
                version,
            ),
        }
    }
}

/// `s` is exactly the text `lit`.
fn is_text(s: &String, lit: &str) -> (r: bool)
    ensures
        r == (s@ == lit@),
{
    let t = String::from_str(lit);
    *s == t
}

/// The arguments from position `from` on.
fn tail(argv: &Vec<String>, from: usize) -> (r: Vec<String>)
    requires
        from <= argv@.len(),
    ensures
        texts(r@) == texts(argv@).skip(from as int),
{
    let mut r: Vec<String> = Vec::new();
    let mut i = from;
    while i < argv.len()
        invariant
            from <= i <= argv@.len(),
            texts(r@) == texts(argv@).subrange(from as int, i as int),
        decreases argv@.len() - i,
    {
        let ghost before = r@;
        r.push(argv[i].clone());
        assert(texts(r@) =~= texts(before).push(argv@[i as int]@));
        i = i + 1;
        assert(texts(r@) =~= texts(argv@).subrange(from as int, i as int));
    }
    assert(texts(argv@).subrange(from as int, i as int) =~= texts(argv@).skip(from as int));
    r
}

/// The version that a `-MAJOR[.MINOR]` flag asks for; `None` for any other
/// argument, a malformed version included.
pub fn version_from_flag(arg: &str) -> (r: Option<RequestedVersion>)
    ensures
        r == flag_version(arg@),
{
    let n = arg.unicode_len();
    if n == 0 || arg.get_char(0) != '-' {
        return None;
    }
    let rest = arg.substring_char(1, n);
    assert(rest@ =~= arg@.skip(1));
    parse_version(rest)
}

/// A reserved flag (`-h`, `--help`, `--list`) followed by any further
/// argument is refused, naming that flag, whatever the machine.
pub proof fn lemma_reserved_flag_stands_alone(argv: Seq<Seq<char>>, w: World)
    requires
        argv.len() > 2,
        is_reserved(argv[1]),
    ensures
        resolve(argv, w) == Err::<ActionModel, ErrorModel>(
            ErrorModel::IllegalArgument(argv[0], argv[1]),
        ),
{
}

/// No grammar gives an unconstrained request.
proof fn lemma_version_not_any(s: Seq<char>)
    ensures
        version_request(s) != Some(RequestedVersion::Any),
{
}

impl Resolver {
    fn at(&self, stage: Stage) -> (r: Resolver)
        ensures
            r.launcher@ == self.launcher@,
            texts(r.args@) == texts(self.args@),
            r.stage == stage,
    {
        Resolver { launcher: self.launcher.clone(), args: self.args.clone(), stage }
    }

    /// Goes on with the override variable for `version`, where its shape has
    /// one, else with the search.
    fn consult_override(self, version: RequestedVersion) -> (r: Resolver)
        ensures
            r.wf(),
            r.phase() <= 2,
            forall|w: World| #[trigger] r.outcome(w) == execute(
                self.launcher@,
                texts(self.args@),
                override_outcome(version, w),
            ),
    {
        let has_var = version.env_var().is_some();
        let stage = if has_var {
            Stage::Override { version }
        } else {
            Stage::Search { version }
        };
        Resolver { launcher: self.launcher, args: self.args, stage }
    }

    /// Goes on with the script's `#!` line, where there is a script.
    fn consult_script(self) -> (r: Resolver)
        ensures
            r.wf(),
            r.phase() <= 3,
            forall|w: World| #[trigger] r.outcome(w) == execute(
                self.launcher@,
                texts(self.args@),
                after_venv(texts(self.args@), w),
            ),
    {
        if self.args.len() > 0 {
            Resolver { launcher: self.launcher, args: self.args, stage: Stage::Script }
        } else {
            self.consult_override(RequestedVersion::Any)
        }
    }

    /// The question this resolution waits on.
    pub fn query(&self) -> (q: Query)
        requires
            self.wf(),
        ensures
            self.asks(q),
    {
        match &self.stage {
            Stage::HelpSearch => Query::Search(RequestedVersion::Any),
            Stage::HelpText { executable } => Query::HelpText(
                self.launcher.clone(),
                executable.clone(),
            ),
            Stage::Listing => Query::Enumerate,
            Stage::ActiveVenv => {
                proof {
                    reveal_strlit("VIRTUAL_ENV");
                }
                Query::EnvVar(String::from_str("VIRTUAL_ENV"))
            },
            Stage::WorkDir => Query::CurrentDir,
            Stage::VenvProbe { dir } => Query::IsFile(venv_candidate_path(dir.as_str())),
            Stage::Script => Query::FileHead(self.args[0].clone()),
            Stage::Override { version } => {
                let name = version.env_var();
                Query::EnvVar(name.unwrap())
            },
            Stage::Search { version } => Query::Search(*version),
        }
    }

    /// Takes the answer to this resolution's question. On every machine that
    /// gives this answer the outcome stays the same; an answer of the wrong
    /// kind leaves the resolution where it was.
    pub fn advance(self, event: Event) -> (n: Next)
        requires
            self.wf(),
        ensures
            n.valid(),
            forall|w: World| self.answered(w, event) ==> #[trigger] n.outcome(w) == self.outcome(w),
            (exists|w: World| self.answered(w, event)) ==> (n matches Next::Pending(r)
                ==> r.precedes(&self)),
    {
        match (&self.stage, event) {
            (Stage::HelpSearch, Event::Text(t)) => match t {
                Some(p) => {
                    let next = self.at(Stage::HelpText { executable: p });
                    Next::Pending(next)
                },
                None => Next::Done(Err(Error::NoExecutableFound(RequestedVersion::Any))),
            },
            (Stage::HelpText { executable }, Event::Text(Some(text))) => {
                let x = executable.clone();
                Next::Done(Ok(Action::Help(text, x)))
            },
            (Stage::Listing, Event::Executables(v)) => match list_executables(&v) {
                Ok(text) => Next::Done(Ok(Action::List(text))),
                Err(e) => Next::Done(Err(e)),
            },
            (Stage::ActiveVenv, Event::Text(t)) => {
                proof {
                    reveal_strlit("VIRTUAL_ENV");
                }
                match t {
                    Some(root) => {
                        if root.as_str().unicode_len() > 0 {
                            let exe = venv_executable_path(root.as_str());
                            Next::Done(
                                Ok(
                                    Action::Execute {
                                        launcher_path: self.launcher,
                                        executable: exe,
                                        args: self.args,
                                    },
                                ),
                            )
                        } else {
                            Next::Pending(self.at(Stage::WorkDir))
                        }
                    },
                    None => Next::Pending(self.at(Stage::WorkDir)),
                }
            },
            (Stage::WorkDir, Event::Text(t)) => match t {
                Some(d) => Next::Pending(self.at(Stage::VenvProbe { dir: d })),
                None => Next::Pending(self.consult_script()),
            },
            (Stage::VenvProbe { dir }, Event::Flag(found)) => {
                if found {
                    let exe = venv_candidate_path(dir.as_str());
                    Next::Done(
                        Ok(
                            Action::Execute {
                                launcher_path: self.launcher,
                                executable: exe,
                                args: self.args,
                            },
                        ),
                    )
                } else {
                    match parent_dir(dir.as_str()) {
                        Some(up) => Next::Pending(self.at(Stage::VenvProbe { dir: up })),
                        None => Next::Pending(self.consult_script()),
                    }
                }
            },
            (Stage::Script, Event::Bytes(b)) => {
                let v = match b {
                    Some(bytes) => match parse_python_shebang(bytes.as_slice()) {
                        Some(v) => v,
                        None => RequestedVersion::Any,
                    },
                    None => RequestedVersion::Any,
                };
                Next::Pending(self.consult_override(v))
            },
            (Stage::Override { version }, Event::Text(t)) => {
                let version = *version;
                match t {
                    Some(val) => {
                        if val.as_str().unicode_len() > 0 {
                            match parse_version(val.as_str()) {
                                Some(v2) => Next::Pending(self.at(Stage::Search { version: v2 })),
                                None => Next::Done(Err(Error::BadVersionFormat(val))),
                            }
                        } else {
                            Next::Pending(self.at(Stage::Search { version }))
                        }
                    },
                    None => Next::Pending(self.at(Stage::Search { version })),
                }
            },
            (Stage::Search { version }, Event::Text(t)) => match t {
                Some(p) => Next::Done(
                    Ok(Action::Execute { launcher_path: self.launcher, executable: p, args: self.args }),
                ),
                None => Next::Done(Err(Error::NoExecutableFound(*version))),
            },
            _ => Next::Pending(self),
        }
    }
}

impl Action {
    /// Starts the resolution of the command line `argv`, whose first element
    /// is the launcher's own path: a reserved flag followed by more arguments
    /// fails at once; otherwise the resolution that follows, answered by any
    /// machine, ends in what [`resolve`] gives for that machine.
    pub fn from_main(argv: &Vec<String>) -> (n: Next)
        requires
            argv@.len() >= 1,
        ensures
            n.valid(),
            forall|w: World| #[trigger] n.outcome(w) == resolve(texts(argv@), w),
            argv@.len() > 2 && is_reserved(argv@[1]@) ==> (n matches Next::Done(Err(e)) && e@
                == ErrorModel::IllegalArgument(argv@[0]@, argv@[1]@)),
    {
        let launcher = argv[0].clone();
        proof {
            reveal_strlit("-h");
            reveal_strlit("--help");
            reveal_strlit("--list");
        }
        if argv.len() > 1 {
            let flag = &argv[1];
            assert(texts(argv@)[1] == flag@);
            if is_text(flag, "-h") || is_text(flag, "--help") || is_text(flag, "--list") {
                if argv.len() > 2 {
                    return Next::Done(Err(Error::IllegalArgument(launcher, flag.clone())));
                } else if is_text(flag, "--list") {
                    return Next::Pending(
                        Resolver { launcher, args: Vec::new(), stage: Stage::Listing },
                    );
                } else {
                    return Next::Pending(
                        Resolver { launcher, args: Vec::new(), stage: Stage::HelpSearch },
                    );
                }
            }
            if let Some(v) = version_from_flag(flag.as_str()) {
                proof {
                    lemma_version_not_any(flag@.skip(1));
                }
                let start = Resolver { launcher, args: tail(argv, 2), stage: Stage::ActiveVenv };
                return Next::Pending(start.consult_override(v));
            }
        }
        Next::Pending(Resolver { launcher, args: tail(argv, 1), stage: Stage::ActiveVenv })
    }
}

} // verus!
