//! What the setup of a repository does to a directory: a model of the commands
//! that it runs, and what running it once and once more leads to.

use vstd::prelude::*;
use crate::git::jobs::{InitModel, OperationModel, Task};
use crate::git::operations::{
    begun, git_answered, of_init, readme_answered, AskModel, ThenModel, WorkModel,
};
use crate::text::trimmed;

verus! {

/// A directory, as far as the setup changes it.
pub struct Directory {
    /// It is a repository.
    pub made: bool,
    pub readme: bool,
    /// The README is in the index.
    pub indexed: bool,
    /// The README is in the last commit.
    pub committed: bool,
    /// The subjects of the commits, the oldest first.
    pub commits: Seq<Seq<char>>,
    pub on_main: bool,
    /// The address of `origin`.
    pub origin: Option<Seq<char>>,
    /// What `main` holds at each address that was pushed to.
    pub pushed: Map<Seq<char>, Seq<Seq<char>>>,
}

impl Directory {
    /// A directory that is no repository.
    pub open spec fn plain(self) -> bool {
        !self.made && !self.indexed && !self.committed && self.commits.len() == 0 && !self.on_main
            && self.origin is None
    }

    /// The directory after a command of the setup, and whether the command
    /// succeeds. A push succeeds at the addresses that accept one.
    #[verifier::opaque]
    pub open spec fn after(self, args: Seq<Seq<char>>, accepting: Set<Seq<char>>) -> (
        Directory,
        bool,
    ) {
        if args == seq!["init"@] {
            (Directory { made: true, ..self }, true)
        } else if !self.made {
            (self, false)
        } else if args == seq!["add"@, "README.md"@] {
            (Directory { indexed: self.indexed || self.readme, ..self }, self.readme)
        } else if args == seq!["diff"@, "--cached"@, "--quiet"@] {
            (self, self.indexed == self.committed)
        } else if args == seq!["commit"@, "-m"@, "first commit"@] {
            if self.indexed && !self.committed {
                (
                    Directory {
                        committed: true,
                        commits: self.commits.push("first commit"@),
                        ..self
                    },
                    true,
                )
            } else {
                (self, false)
            }
        } else if args == seq!["branch"@, "-M"@, "main"@] {
            (Directory { on_main: true, ..self }, true)
        } else if args == seq!["remote"@, "get-url"@, "origin"@] {
            (self, self.origin is Some)
        } else if args.len() == 4 && args.take(3) == seq!["remote"@, "set-url"@, "origin"@] {
            (
                Directory {
                    origin: if self.origin is Some {
                        Some(args[3])
                    } else {
                        None
                    },
                    ..self
                },
                self.origin is Some,
            )
        } else if args.len() == 4 && args.take(3) == seq!["remote"@, "add"@, "origin"@] {
            (
                Directory {
                    origin: if self.origin is None {
                        Some(args[3])
                    } else {
                        self.origin
                    },
                    ..self
                },
                self.origin is None,
            )
        } else if args == seq!["push"@, "-u"@, "origin"@, "main"@] {
            match self.origin {
                Some(url) => if accepting.contains(url) && self.on_main && self.commits.len() > 0 {
                    (Directory { pushed: self.pushed.insert(url, self.commits), ..self }, true)
                } else {
                    (self, false)
                },
                None => (self, false),
            }
        } else {
            (self, false)
        }
    }
}

/// What git prints where a command succeeds and where it fails.
pub struct Printed {
    pub output: Seq<char>,
    pub error: Seq<char>,
}

/// The work and the directory after some steps of the setup. The README is
/// seeded where there is none.
pub open spec fn setup_run(
    w: WorkModel,
    dir: Directory,
    accepting: Set<Seq<char>>,
    printed: Printed,
    now: u64,
    steps: nat,
) -> (WorkModel, Directory)
    decreases steps,
{
    if steps == 0 {
        (w, dir)
    } else {
        match w.ask {
            AskModel::Readme(_) => setup_run(
                readme_answered(w, Ok(())),
                Directory { readme: true, ..dir },
                accepting,
                printed,
                now,
                (steps - 1) as nat,
            ),
            AskModel::Git(_, args, then) => if of_init(then) {
                let (next, done) = dir.after(args, accepting);
                let reply: Result<Seq<char>, Seq<char>> = if done {
                    Ok(printed.output)
                } else {
                    Err(printed.error)
                };
                setup_run(
                    git_answered(w, reply, now),
                    next,
                    accepting,
                    printed,
                    now,
                    (steps - 1) as nat,
                )
            } else {
                (w, dir)
            },
            _ => (w, dir),
        }
    }
}

/// The setup as a whole: it ends after nine steps or fewer.
pub open spec fn set_up(
    state: OperationModel,
    dir: Directory,
    accepting: Set<Seq<char>>,
    printed: Printed,
    now: u64,
) -> (WorkModel, Directory) {
    setup_run(begun(state, Task::Initialize), dir, accepting, printed, now, 9)
}

/// What each command of the setup does.
proof fn commands_act(dir: Directory, accepting: Set<Seq<char>>, url: Seq<char>)
    ensures
        dir.after(seq!["init"@], accepting) == (Directory { made: true, ..dir }, true),
        dir.made ==> {
            &&& dir.after(seq!["add"@, "README.md"@], accepting) == (
                Directory { indexed: dir.indexed || dir.readme, ..dir },
                dir.readme,
            )
            &&& dir.after(seq!["diff"@, "--cached"@, "--quiet"@], accepting) == (
                dir,
                dir.indexed == dir.committed,
            )
            &&& dir.indexed && !dir.committed ==> dir.after(
                seq!["commit"@, "-m"@, "first commit"@],
                accepting,
            ) == (
                Directory {
                    committed: true,
                    commits: dir.commits.push("first commit"@),
                    ..dir
                },
                true,
            )
            &&& dir.after(seq!["branch"@, "-M"@, "main"@], accepting) == (
                Directory { on_main: true, ..dir },
                true,
            )
            &&& dir.after(seq!["remote"@, "get-url"@, "origin"@], accepting) == (
                dir,
                dir.origin is Some,
            )
            &&& dir.origin is Some ==> dir.after(
                seq!["remote"@, "set-url"@, "origin"@, url],
                accepting,
            ) == (Directory { origin: Some(url), ..dir }, true)
            &&& dir.origin is None ==> dir.after(
                seq!["remote"@, "add"@, "origin"@, url],
                accepting,
            ) == (Directory { origin: Some(url), ..dir }, true)
            &&& dir.origin == Some(url) && dir.on_main && dir.commits.len() > 0 ==> dir.after(
                seq!["push"@, "-u"@, "origin"@, "main"@],
                accepting,
            ) == (if accepting.contains(url) {
                (Directory { pushed: dir.pushed.insert(url, dir.commits), ..dir }, true)
            } else {
                (dir, false)
            })
        },
{
    reveal(Directory::after);
    reveal_strlit("diff");
    reveal_strlit("commit");
    reveal_strlit("branch");
    reveal_strlit("remote");
    reveal_strlit("push");
    reveal_strlit("get-url");
    reveal_strlit("set-url");
    reveal_strlit("add");
    reveal_strlit("init");
    reveal_strlit("README.md");
    assert("commit"@[0] == 'c' && "branch"@[0] == 'b' && "remote"@[0] == 'r');
    assert("add"@.len() == 3 && "set-url"@.len() == 7 && "push"@.len() == 4);
    assert("add"@ != "set-url"@ && "push"@ != "remote"@);
    let diff = seq!["diff"@, "--cached"@, "--quiet"@];
    let commit = seq!["commit"@, "-m"@, "first commit"@];
    let branch = seq!["branch"@, "-M"@, "main"@];
    let get = seq!["remote"@, "get-url"@, "origin"@];
    assert(diff.len() == 3 && seq!["init"@].len() == 1 && seq!["add"@, "README.md"@].len() == 2);
    assert(dir.made ==> dir.after(diff, accepting) == (dir, dir.indexed == dir.committed));
    assert(commit[0] != diff[0]);
    assert(branch[0] != diff[0] && branch[0] != commit[0]);
    assert(get[0] != diff[0] && get[0] != commit[0] && get[0] != branch[0]);
    let set = seq!["remote"@, "set-url"@, "origin"@, url];
    let add = seq!["remote"@, "add"@, "origin"@, url];
    let push = seq!["push"@, "-u"@, "origin"@, "main"@];
    assert(set.take(3) =~= seq!["remote"@, "set-url"@, "origin"@]);
    assert(add.take(3) =~= seq!["remote"@, "add"@, "origin"@]);
    assert(add.take(3)[1] != seq!["remote"@, "set-url"@, "origin"@][1]);
    assert(push.take(3)[0] != seq!["remote"@, "set-url"@, "origin"@][0]);
    assert(push.take(3)[0] != seq!["remote"@, "add"@, "origin"@][0]);
}

/// One step of the setup with git.
proof fn git_step(
    w: WorkModel,
    dir: Directory,
    accepting: Set<Seq<char>>,
    printed: Printed,
    now: u64,
    steps: nat,
)
    requires
        steps > 0,
        w.ask matches AskModel::Git(_, _, then) && of_init(then),
        w.state.init is Some,
    ensures
        ({
            let args = w.ask->Git_1;
            let (next, done) = dir.after(args, accepting);
            let reply: Result<Seq<char>, Seq<char>> = if done {
                Ok(printed.output)
            } else {
                Err(printed.error)
            };
            setup_run(w, dir, accepting, printed, now, steps) == setup_run(
                crate::git::operations::init_step(w, w.state.init->0, w.ask->Git_2, reply),
                next,
                accepting,
                printed,
                now,
                (steps - 1) as nat,
            )
        }),
{
}

/// A setup whose push fails leaves a repository with one commit on `main`, and
/// says that the push failed.
pub proof fn failed_push_leaves_one_commit(
    state: OperationModel,
    flow: InitModel,
    dir: Directory,
    accepting: Set<Seq<char>>,
    printed: Printed,
    now: u64,
)
    requires
        state.init == Some(flow),
        dir.plain(),
        trimmed(flow.remote).len() > 0,
        !accepting.contains(trimmed(flow.remote)),
    ensures
        ({
            let (w, after) = set_up(state, dir, accepting, printed, now);
            &&& w.ask == AskModel::Nothing
            &&& w.state.init == Some(
                InitModel {
                    error: Some(
                        "The local repository is ready on branch main, but the push failed: "@
                            + printed.error,
                    ),
                    ..flow
                },
            )
            &&& after.made && after.readme && after.indexed && after.committed && after.on_main
            &&& after.commits == seq!["first commit"@]
            &&& after.origin == Some(trimmed(flow.remote))
        }),
{
    let url = trimmed(flow.remote);
    let w = begun(state, Task::Initialize);
    let d1 = Directory { made: true, ..dir };
    let d2 = Directory { readme: true, ..d1 };
    let d3 = Directory { indexed: true, ..d2 };
    let d4 = Directory { committed: true, commits: d3.commits.push("first commit"@), ..d3 };
    let d5 = Directory { on_main: true, ..d4 };
    let d6 = Directory { origin: Some(url), ..d5 };
    commands_act(dir, accepting, url);
    commands_act(d2, accepting, url);
    commands_act(d3, accepting, url);
    commands_act(d4, accepting, url);
    commands_act(d5, accepting, url);
    commands_act(d6, accepting, url);
    assert(d4.commits =~= seq!["first commit"@]);
    let ask = |args: Seq<Seq<char>>, then: ThenModel| w.asking(AskModel::Git(flow.dir, args, then));
    git_step(w, dir, accepting, printed, now, 9);
    let w1 = w.asking(AskModel::Readme(flow.dir));
    assert(setup_run(w, dir, accepting, printed, now, 9) == setup_run(
        w1,
        d1,
        accepting,
        printed,
        now,
        8,
    ));
    let w2 = ask(seq!["add"@, "README.md"@], ThenModel::ReadmeAdded);
    assert(setup_run(w1, d1, accepting, printed, now, 8) == setup_run(
        w2,
        d2,
        accepting,
        printed,
        now,
        7,
    ));
    git_step(w2, d2, accepting, printed, now, 7);
    let w3 = ask(seq!["diff"@, "--cached"@, "--quiet"@], ThenModel::InitStaged);
    git_step(w3, d3, accepting, printed, now, 6);
    let w4 = ask(seq!["commit"@, "-m"@, "first commit"@], ThenModel::InitCommitted);
    git_step(w4, d3, accepting, printed, now, 5);
    let w5 = ask(seq!["branch"@, "-M"@, "main"@], ThenModel::InitRenamed);
    git_step(w5, d4, accepting, printed, now, 4);
    let w6 = ask(seq!["remote"@, "get-url"@, "origin"@], ThenModel::InitRemote);
    git_step(w6, d5, accepting, printed, now, 3);
    let w7 = ask(seq!["remote"@, "add"@, "origin"@, url], ThenModel::InitRemoteSet(false));
    git_step(w7, d5, accepting, printed, now, 2);
    let w8 = ask(seq!["push"@, "-u"@, "origin"@, "main"@], ThenModel::InitPushed);
    git_step(w8, d6, accepting, printed, now, 1);
}

/// The setup of a directory that an earlier one has made a repository of makes
/// no second commit: it sets the address of `origin`, pushes, and says so.
pub proof fn second_setup_pushes(
    state: OperationModel,
    flow: InitModel,
    dir: Directory,
    accepting: Set<Seq<char>>,
    printed: Printed,
    now: u64,
)
    requires
        state.init == Some(flow),
        dir.made,
        dir.readme,
        dir.indexed,
        dir.committed,
        dir.commits.len() > 0,
        dir.origin is Some,
        trimmed(flow.remote).len() > 0,
        accepting.contains(trimmed(flow.remote)),
    ensures
        ({
            let (w, after) = set_up(state, dir, accepting, printed, now);
            let url = trimmed(flow.remote);
            &&& w.ask == AskModel::Root
            &&& w.state.init is None
            &&& w.farewell == Some("Initialized a git repository and pushed to "@ + url + "."@)
            &&& after.on_main
            &&& after.commits == dir.commits
            &&& after.origin == Some(url)
            &&& after.pushed.contains_key(url) && after.pushed[url] == after.commits
        }),
{
    let url = trimmed(flow.remote);
    let w = begun(state, Task::Initialize);
    let d1 = Directory { on_main: true, ..dir };
    let d2 = Directory { origin: Some(url), ..d1 };
    commands_act(dir, accepting, url);
    commands_act(d1, accepting, url);
    commands_act(d2, accepting, url);
    let ask = |args: Seq<Seq<char>>, then: ThenModel| w.asking(AskModel::Git(flow.dir, args, then));
    git_step(w, dir, accepting, printed, now, 9);
    let w1 = w.asking(AskModel::Readme(flow.dir));
    let w2 = ask(seq!["add"@, "README.md"@], ThenModel::ReadmeAdded);
    assert(setup_run(w1, dir, accepting, printed, now, 8) == setup_run(
        w2,
        dir,
        accepting,
        printed,
        now,
        7,
    ));
    git_step(w2, dir, accepting, printed, now, 7);
    let w3 = ask(seq!["diff"@, "--cached"@, "--quiet"@], ThenModel::InitStaged);
    git_step(w3, dir, accepting, printed, now, 6);
    let w4 = ask(seq!["branch"@, "-M"@, "main"@], ThenModel::InitRenamed);
    git_step(w4, dir, accepting, printed, now, 5);
    let w5 = ask(seq!["remote"@, "get-url"@, "origin"@], ThenModel::InitRemote);
    git_step(w5, d1, accepting, printed, now, 4);
    let w6 = ask(seq!["remote"@, "set-url"@, "origin"@, url], ThenModel::InitRemoteSet(true));
    git_step(w6, d1, accepting, printed, now, 3);
    let w7 = ask(seq!["push"@, "-u"@, "origin"@, "main"@], ThenModel::InitPushed);
    git_step(w7, d2, accepting, printed, now, 2);
    assert(setup_run(w7, d2, accepting, printed, now, 2).0.ask == AskModel::Root);
}

/// A setup that is run again after its push failed ends with the one commit of
/// the first run, on `main` and pushed to the address that was given then.
pub proof fn retried_setup_has_one_commit(
    state: OperationModel,
    first: InitModel,
    again: InitModel,
    dir: Directory,
    accepting: Set<Seq<char>>,
    accepting_later: Set<Seq<char>>,
    printed: Printed,
    now: u64,
)
    requires
        state.init == Some(first),
        dir.plain(),
        trimmed(first.remote).len() > 0,
        !accepting.contains(trimmed(first.remote)),
        trimmed(again.remote).len() > 0,
        accepting_later.contains(trimmed(again.remote)),
    ensures
        ({
            let (failed, left) = set_up(state, dir, accepting, printed, now);
            let retry = OperationModel { init: Some(again), ..failed.state };
            let (w, after) = set_up(retry, left, accepting_later, printed, now);
            let url = trimmed(again.remote);
            &&& failed.state.init is Some && failed.state.init->0.error is Some
            &&& w.farewell == Some("Initialized a git repository and pushed to "@ + url + "."@)
            &&& after.on_main
            &&& after.commits == seq!["first commit"@]
            &&& after.origin == Some(url)
            &&& after.pushed.contains_key(url) && after.pushed[url] == after.commits
        }),
{
    failed_push_leaves_one_commit(state, first, dir, accepting, printed, now);
    let (failed, left) = set_up(state, dir, accepting, printed, now);
    let retry = OperationModel { init: Some(again), ..failed.state };
    second_setup_pushes(retry, again, left, accepting_later, printed, now);
}

/// A setup without an address makes the repository with its first commit on
/// `main`, and pushes nothing.
pub proof fn setup_without_address_stays_local(
    state: OperationModel,
    flow: InitModel,
    dir: Directory,
    accepting: Set<Seq<char>>,
    printed: Printed,
    now: u64,
)
    requires
        state.init == Some(flow),
        dir.plain(),
        trimmed(flow.remote).len() == 0,
    ensures
        ({
            let (w, after) = set_up(state, dir, accepting, printed, now);
            &&& w.ask == AskModel::Root
            &&& w.state.init is None
            &&& w.farewell == Some("Initialized a local git repository on branch main."@)
            &&& after.made && after.readme && after.committed && after.on_main
            &&& after.commits == seq!["first commit"@]
            &&& after.origin is None && after.pushed == dir.pushed
        }),
{
    let url = trimmed(flow.remote);
    let w = begun(state, Task::Initialize);
    let d1 = Directory { made: true, ..dir };
    let d2 = Directory { readme: true, ..d1 };
    let d3 = Directory { indexed: true, ..d2 };
    let d4 = Directory { committed: true, commits: d3.commits.push("first commit"@), ..d3 };
    let d5 = Directory { on_main: true, ..d4 };
    commands_act(dir, accepting, url);
    commands_act(d2, accepting, url);
    commands_act(d3, accepting, url);
    commands_act(d4, accepting, url);
    assert(d4.commits =~= seq!["first commit"@]);
    let ask = |args: Seq<Seq<char>>, then: ThenModel| w.asking(AskModel::Git(flow.dir, args, then));
    git_step(w, dir, accepting, printed, now, 9);
    let w1 = w.asking(AskModel::Readme(flow.dir));
    let w2 = ask(seq!["add"@, "README.md"@], ThenModel::ReadmeAdded);
    assert(setup_run(w1, d1, accepting, printed, now, 8) == setup_run(
        w2,
        d2,
        accepting,
        printed,
        now,
        7,
    ));
    git_step(w2, d2, accepting, printed, now, 7);
    let w3 = ask(seq!["diff"@, "--cached"@, "--quiet"@], ThenModel::InitStaged);
    git_step(w3, d3, accepting, printed, now, 6);
    let w4 = ask(seq!["commit"@, "-m"@, "first commit"@], ThenModel::InitCommitted);
    git_step(w4, d3, accepting, printed, now, 5);
    let w5 = ask(seq!["branch"@, "-M"@, "main"@], ThenModel::InitRenamed);
    git_step(w5, d4, accepting, printed, now, 4);
    let (end, after) = setup_run(w, dir, accepting, printed, now, 9);
    assert(after == d5);
}

} // verus!
