//! What the operations of the dashboard do to a repository: a model of the
//! commands that they run, and what each operation leads to.

use vstd::prelude::*;
use crate::git::jobs::{OperationModel, SimpleCommand, Task};
use crate::git::operations::{begun, git_answered, AskModel, ThenModel, WorkModel};
use crate::git::view::{CommitMode, ConfirmModel, FileModel, GitSection, ViewModel};
use crate::text::trimmed;

verus! {

broadcast use vstd::string::group_string_axioms;

/// A repository, as far as the dashboard changes it.
#[verifier::ext_equal]
pub struct Repository {
    /// The paths whose index differs from the last commit.
    pub staged: Set<Seq<char>>,
    /// The tracked paths whose working copy differs from the index.
    pub changed: Set<Seq<char>>,
    pub untracked: Set<Seq<char>>,
    /// The messages of the commits, the oldest first.
    pub commits: Seq<Seq<char>>,
    /// What the upstream branch holds.
    pub upstream: Seq<Seq<char>>,
    pub branch: Seq<char>,
    pub branches: Set<Seq<char>>,
    /// The messages of what was stashed.
    pub stashes: Seq<Seq<char>>,
}

/// The paths that a command names behind some of its words.
pub open spec fn named(args: Seq<Seq<char>>, from: int) -> Set<Seq<char>> {
    Set::new(
        |path: Seq<char>|
            exists|i: int| from <= i < args.len() && #[trigger] args[i] == ":(literal)"@ + path,
    )
}

/// Whether a command begins with some words.
pub open spec fn begins(args: Seq<Seq<char>>, words: Seq<Seq<char>>) -> bool {
    words.len() <= args.len() && args.take(words.len() as int) == words
}

impl Repository {
    /// The repository after a command that succeeds.
    #[verifier::opaque]
    pub open spec fn after(self, args: Seq<Seq<char>>) -> Repository {
        if begins(args, seq!["add"@, "--"@]) {
            let paths = named(args, 2);
            Repository {
                staged: self.staged.union(paths),
                changed: self.changed.difference(paths),
                untracked: self.untracked.difference(paths),
                ..self
            }
        } else if args == seq!["add"@, "-A"@] {
            Repository {
                staged: self.staged.union(self.changed).union(self.untracked),
                changed: Set::empty(),
                untracked: Set::empty(),
                ..self
            }
        } else if begins(args, seq!["reset"@, "--"@]) {
            let paths = named(args, 2);
            Repository {
                staged: self.staged.difference(paths),
                changed: self.changed.union(self.staged.intersect(paths)),
                ..self
            }
        } else if args == seq!["reset"@] {
            Repository {
                staged: Set::empty(),
                changed: self.changed.union(self.staged),
                ..self
            }
        } else if args == seq!["restore"@, "--"@, "."@] {
            Repository { changed: Set::empty(), ..self }
        } else if begins(args, seq!["restore"@, "--"@]) {
            Repository { changed: self.changed.difference(named(args, 2)), ..self }
        } else if begins(
            args,
            seq!["restore"@, "--source=HEAD"@, "--staged"@, "--worktree"@, "--"@],
        ) {
            let paths = named(args, 5);
            Repository {
                staged: self.staged.difference(paths),
                changed: self.changed.difference(paths),
                ..self
            }
        } else if begins(args, seq!["clean"@, "-f"@, "-d"@, "--"@]) {
            Repository { untracked: self.untracked.difference(named(args, 4)), ..self }
        } else if args.len() == 3 && begins(args, seq!["commit"@, "-m"@]) {
            Repository { commits: self.commits.push(args[2]), staged: Set::empty(), ..self }
        } else if args.len() == 4 && begins(args, seq!["commit"@, "--amend"@, "-m"@]) {
            Repository {
                commits: self.commits.drop_last().push(args[3]),
                staged: Set::empty(),
                ..self
            }
        } else if args == seq!["commit"@, "--amend"@, "--no-edit"@] {
            Repository { staged: Set::empty(), ..self }
        } else if args == seq!["push"@] {
            Repository { upstream: self.commits, ..self }
        } else if args == seq!["pull"@, "--ff-only"@] {
            Repository { commits: self.upstream, ..self }
        } else if args.len() == 2 && args[0] == "switch"@ {
            Repository { branch: args[1], ..self }
        } else if args.len() == 3 && begins(args, seq!["switch"@, "-c"@]) {
            Repository { branch: args[2], branches: self.branches.insert(args[2]), ..self }
        } else if args == seq!["stash"@, "push"@] {
            Repository {
                stashes: self.stashes.push(Seq::empty()),
                staged: Set::empty(),
                changed: Set::empty(),
                ..self
            }
        } else if args.len() == 4 && begins(args, seq!["stash"@, "push"@, "-m"@]) {
            Repository {
                stashes: self.stashes.push(args[3]),
                staged: Set::empty(),
                changed: Set::empty(),
                ..self
            }
        } else if args == seq!["stash"@, "pop"@] {
            Repository { stashes: self.stashes.drop_last(), ..self }
        } else {
            self
        }
    }

    /// The repository after what some work asks for.
    pub open spec fn asked(self, w: WorkModel) -> Repository {
        match w.ask {
            AskModel::Git(_, args, _) => self.after(args),
            _ => self,
        }
    }
}

/// Whether some work asks for a command in a directory.
pub open spec fn runs_in(w: WorkModel, dir: Seq<char>) -> bool {
    w.ask matches AskModel::Git(at, _, _) && at == dir
}

proof fn words_differ()
    ensures
        "add"@.len() == 3 && "add"@[0] == 'a',
        "reset"@.len() == 5 && "reset"@[0] == 'r',
        "restore"@.len() == 7 && "restore"@[0] == 'r',
        "clean"@.len() == 5 && "clean"@[0] == 'c',
        "commit"@.len() == 6 && "commit"@[0] == 'c',
        "push"@.len() == 4 && "push"@[0] == 'p' && "push"@[1] == 'u' && "push"@[2] == 's',
        "pull"@.len() == 4 && "pull"@[0] == 'p' && "pull"@[1] == 'u' && "pull"@[2] == 'l',
        "pop"@.len() == 3 && "pop"@[0] == 'p',
        "switch"@.len() == 6 && "switch"@[0] == 's' && "switch"@[1] == 'w',
        "stash"@.len() == 5 && "stash"@[0] == 's',
        "fetch"@.len() == 5 && "fetch"@[0] == 'f',
        "status"@.len() == 6 && "status"@[0] == 's' && "status"@[1] == 't',
        "branch"@.len() == 6 && "branch"@[0] == 'b',
        "diff"@.len() == 4 && "diff"@[0] == 'd',
        "show"@.len() == 4 && "show"@[0] == 's',
        "log"@.len() == 3 && "log"@[0] == 'l',
        "-A"@.len() == 2 && "-A"@[1] == 'A',
        "--"@.len() == 2 && "--"@[1] == '-',
        "."@.len() == 1,
        "-m"@.len() == 2 && "-m"@[1] == 'm',
        "-c"@.len() == 2 && "-c"@[1] == 'c',
        "-f"@.len() == 2 && "-f"@[1] == 'f',
        "-d"@.len() == 2 && "-d"@[1] == 'd',
        "--amend"@.len() == 7 && "--no-edit"@.len() == 9 && "--ff-only"@.len() == 9,
        "--source=HEAD"@.len() == 13,
        ":(literal)"@.len() == 10,
        "--format=%(refname:short)"@.len() == 25,
{
    reveal_strlit("add");
    reveal_strlit("reset");
    reveal_strlit("restore");
    reveal_strlit("clean");
    reveal_strlit("commit");
    reveal_strlit("push");
    reveal_strlit("pull");
    reveal_strlit("pop");
    reveal_strlit("switch");
    reveal_strlit("stash");
    reveal_strlit("fetch");
    reveal_strlit("status");
    reveal_strlit("branch");
    reveal_strlit("diff");
    reveal_strlit("show");
    reveal_strlit("log");
    reveal_strlit("-A");
    reveal_strlit("--");
    reveal_strlit(".");
    reveal_strlit("-m");
    reveal_strlit("-c");
    reveal_strlit("-f");
    reveal_strlit("-d");
    reveal_strlit("--amend");
    reveal_strlit("--no-edit");
    reveal_strlit("--ff-only");
    reveal_strlit("--source=HEAD");
    reveal_strlit(":(literal)");
    reveal_strlit("--format=%(refname:short)");
}

/// Two literal paths are the same only where the paths are.
proof fn literals_differ(a: Seq<char>, b: Seq<char>)
    ensures
        ":(literal)"@ + a == ":(literal)"@ + b ==> a == b,
{
    let n = ":(literal)"@.len() as int;
    assert((":(literal)"@ + a).skip(n) =~= a);
    assert((":(literal)"@ + b).skip(n) =~= b);
}

/// The paths that are named by the last words of a command.
proof fn paths_are_named(args: Seq<Seq<char>>, from: int, paths: Seq<Seq<char>>)
    requires
        0 <= from,
        args.len() == from + paths.len(),
        forall|i: int|
            0 <= i < paths.len() ==> args[from + i] == ":(literal)"@ + #[trigger] paths[i],
    ensures
        forall|p: Seq<char>| #[trigger] named(args, from).contains(p) <==> paths.contains(p),
{
    assert forall|p: Seq<char>| #[trigger] named(args, from).contains(p) implies paths.contains(
        p,
    ) by {
        let i = choose|i: int| from <= i < args.len() && #[trigger] args[i] == ":(literal)"@ + p;
        assert(args[from + (i - from)] == ":(literal)"@ + paths[i - from]);
        literals_differ(p, paths[i - from]);
    }
    assert forall|p: Seq<char>| paths.contains(p) implies #[trigger] named(args, from).contains(
        p,
    ) by {
        let i = choose|i: int| 0 <= i < paths.len() && paths[i] == p;
        assert(args[from + i] == ":(literal)"@ + paths[i]);
    }
}

/// The paths of a file that an operation on it concerns: its own and, for a
/// staged rename, the one that it came from.
pub open spec fn paths_of(file: FileModel) -> Seq<Seq<char>> {
    if file.section == GitSection::Staged && file.renamed_from is Some {
        seq![file.renamed_from->0, file.path]
    } else {
        seq![file.path]
    }
}

/// Staging a file puts it among the staged ones, unstaging takes it out; of
/// every other file nothing changes.
pub proof fn staging_stages_the_file(
    state: OperationModel,
    v: ViewModel,
    index: usize,
    staged: bool,
    repo: Repository,
)
    requires
        state.view == Some(v),
        index < v.flat.len(),
    ensures
        ({
            let file = v.flat[index as int];
            let w = begun(state, Task::SetFileStaged(index, staged));
            let now = repo.asked(w);
            &&& runs_in(w, v.root)
            &&& now.staged.contains(file.path) == staged
            &&& !staged && file.section == GitSection::Staged && file.renamed_from is Some
                ==> !now.staged.contains(file.renamed_from->0)
            &&& staged ==> !now.changed.contains(file.path) && !now.untracked.contains(file.path)
            &&& forall|p: Seq<char>|
                !paths_of(file).contains(p) ==> {
                    &&& #[trigger] now.staged.contains(p) == repo.staged.contains(p)
                    &&& now.changed.contains(p) == repo.changed.contains(p)
                    &&& now.untracked.contains(p) == repo.untracked.contains(p)
                }
            &&& now.commits == repo.commits && now.branch == repo.branch
        }),
{
    words_differ();
    reveal(Repository::after);
    let file = v.flat[index as int];
    let w = begun(state, Task::SetFileStaged(index, staged));
    let now = repo.asked(w);
    let args = w.ask->Git_1;
    let paths = paths_of(file);
    let tool = if staged {
        "add"@
    } else {
        "reset"@
    };
    assert(args.len() == 2 + paths.len());
    assert(args.take(2) =~= seq![tool, "--"@]);
    assert(args.take(2)[0] == tool);
    assert forall|i: int| 0 <= i < paths.len() implies args[2 + i] == ":(literal)"@
        + #[trigger] paths[i] by {}
    paths_are_named(args, 2, paths);
    assert(paths[paths.len() - 1] == file.path);
    assert(paths.contains(file.path));
    if file.section == GitSection::Staged && file.renamed_from is Some {
        assert(paths[0] == file.renamed_from->0);
        assert(paths.contains(file.renamed_from->0));
    }
    assert(!begins(args, seq!["add"@, "--"@]) || staged) by {
        if begins(args, seq!["add"@, "--"@]) {
            assert(args.take(2)[0] == seq!["add"@, "--"@][0]);
        }
    }
    assert(args != seq!["add"@, "-A"@]) by {
        assert(seq!["add"@, "-A"@].len() == 2);
    }
}

/// Staging everything leaves nothing unstaged, unstaging everything nothing
/// staged.
pub proof fn staging_all_leaves_nothing_behind(state: OperationModel, v: ViewModel, repo: Repository)
    requires
        state.view == Some(v),
    ensures
        ({
            let w = begun(state, Task::Simple(SimpleCommand::StageAll));
            let now = repo.asked(w);
            &&& runs_in(w, v.root)
            &&& now.changed.is_empty() && now.untracked.is_empty()
            &&& forall|p: Seq<char>| #[trigger]
                now.staged.contains(p) <==> repo.staged.contains(p) || repo.changed.contains(p)
                    || repo.untracked.contains(p)
        }),
        ({
            let w = begun(state, Task::Simple(SimpleCommand::UnstageAll));
            let now = repo.asked(w);
            &&& runs_in(w, v.root)
            &&& now.staged.is_empty() && now.untracked == repo.untracked
            &&& forall|p: Seq<char>| #[trigger]
                now.changed.contains(p) <==> repo.changed.contains(p) || repo.staged.contains(p)
        }),
{
    words_differ();
    reveal(Repository::after);
    let all = seq!["add"@, "-A"@];
    assert(all.take(2)[1] == "-A"@);
    assert(!begins(all, seq!["add"@, "--"@])) by {
        if begins(all, seq!["add"@, "--"@]) {
            assert(all.take(2)[1] == seq!["add"@, "--"@][1]);
        }
    }
    let none = seq!["reset"@];
    assert(none[0] == "reset"@ && none.len() == 1);
    assert(none != all) by {
        assert(all.len() == 2);
    }
}

/// A confirmed discard takes the changes of the file away and touches no other
/// file. Without a confirmation nothing is run.
pub proof fn discarding_takes_the_changes_of_one_file(
    state: OperationModel,
    v: ViewModel,
    path: Seq<char>,
    renamed_from: Option<Seq<char>>,
    untracked: bool,
    staged: bool,
    repo: Repository,
)
    requires
        state.view == Some(v),
        v.confirm == Some(ConfirmModel::DiscardFile { path, renamed_from, untracked, staged }),
        !(untracked && staged),
    ensures
        ({
            let w = begun(state, Task::Discard);
            let now = repo.asked(w);
            &&& runs_in(w, v.root)
            &&& w.state.view is Some && w.state.view->0.confirm is None
            &&& untracked ==> !now.untracked.contains(path) && now.changed == repo.changed
                && now.staged == repo.staged
            &&& !untracked ==> !now.changed.contains(path) && now.untracked == repo.untracked
            &&& staged ==> !now.staged.contains(path)
            &&& !staged ==> now.staged == repo.staged
            &&& forall|p: Seq<char>|
                p != path && !(staged && renamed_from == Some(p)) ==> {
                    &&& #[trigger] now.staged.contains(p) == repo.staged.contains(p)
                    &&& now.changed.contains(p) == repo.changed.contains(p)
                    &&& now.untracked.contains(p) == repo.untracked.contains(p)
                }
            &&& now.commits == repo.commits && now.branch == repo.branch
        }),
        begun(OperationModel { view: Some(ViewModel { confirm: None, ..v }), ..state }, Task::Discard).ask
            is Nothing,
{
    words_differ();
    reveal(Repository::after);
    let w = begun(state, Task::Discard);
    let now = repo.asked(w);
    let args = w.ask->Git_1;
    let paths = if staged && renamed_from is Some {
        seq![renamed_from->0, path]
    } else {
        seq![path]
    };
    let heads = if untracked {
        seq!["clean"@, "-f"@, "-d"@, "--"@]
    } else if staged {
        seq!["restore"@, "--source=HEAD"@, "--staged"@, "--worktree"@, "--"@]
    } else {
        seq!["restore"@, "--"@]
    };
    let n = heads.len() as int;
    assert(args.len() == n + paths.len());
    assert(args.take(n) =~= heads);
    assert(args.take(n)[0] == args[0] && args.take(n)[1] == args[1]);
    assert forall|i: int| 0 <= i < paths.len() implies args[n + i] == ":(literal)"@
        + #[trigger] paths[i] by {}
    paths_are_named(args, n, paths);
    assert(paths[paths.len() - 1] == path);
    assert(paths.contains(path));
    assert(!begins(args, seq!["add"@, "--"@])) by {
        if begins(args, seq!["add"@, "--"@]) {
            assert(args.take(2)[0] == seq!["add"@, "--"@][0]);
        }
    }
    assert(!begins(args, seq!["reset"@, "--"@])) by {
        if begins(args, seq!["reset"@, "--"@]) {
            assert(args.take(2)[0] == seq!["reset"@, "--"@][0]);
        }
    }
    assert(args[0] != "add"@ && args[0] != "reset"@);
    assert(args != seq!["add"@, "-A"@]) by {
        assert(seq!["add"@, "-A"@][0] == "add"@);
    }
    assert(args != seq!["reset"@]) by {
        assert(seq!["reset"@][0] == "reset"@);
    }
    assert(args != seq!["restore"@, "--"@, "."@]) by {
        assert(args.last() == ":(literal)"@ + path);
        assert(seq!["restore"@, "--"@, "."@].last() == "."@);
    }
    if untracked {
        assert(!begins(args, seq!["restore"@, "--"@])) by {
            if begins(args, seq!["restore"@, "--"@]) {
                assert(args.take(2)[0] == seq!["restore"@, "--"@][0]);
            }
        }
        assert(!begins(
            args,
            seq!["restore"@, "--source=HEAD"@, "--staged"@, "--worktree"@, "--"@],
        )) by {
            if begins(
                args,
                seq!["restore"@, "--source=HEAD"@, "--staged"@, "--worktree"@, "--"@],
            ) {
                assert(args.take(5)[0] == "restore"@);
            }
        }
    } else if staged {
        assert(!begins(args, seq!["restore"@, "--"@])) by {
            if begins(args, seq!["restore"@, "--"@]) {
                assert(args.take(2)[1] == seq!["restore"@, "--"@][1]);
            }
        }
    }
    assert(untracked ==> now.changed =~= repo.changed && now.staged =~= repo.staged);
}

/// A confirmed discard of everything takes every unstaged change away, and
/// neither staged nor untracked files.
pub proof fn discarding_all_keeps_what_is_staged(state: OperationModel, v: ViewModel, repo: Repository)
    requires
        state.view == Some(v),
        v.confirm == Some(ConfirmModel::DiscardAll),
    ensures
        ({
            let w = begun(state, Task::Discard);
            let now = repo.asked(w);
            &&& runs_in(w, v.root)
            &&& now.changed.is_empty()
            &&& now.staged == repo.staged && now.untracked == repo.untracked
            &&& now.commits == repo.commits
        }),
{
    words_differ();
    reveal(Repository::after);
    let args = seq!["restore"@, "--"@, "."@];
    assert(args[0] == "restore"@);
    assert(!begins(args, seq!["add"@, "--"@])) by {
        if begins(args, seq!["add"@, "--"@]) {
            assert(args.take(2)[0] == seq!["add"@, "--"@][0]);
        }
    }
    assert(!begins(args, seq!["reset"@, "--"@])) by {
        if begins(args, seq!["reset"@, "--"@]) {
            assert(args.take(2)[0] == seq!["reset"@, "--"@][0]);
        }
    }
    assert(args != seq!["add"@, "-A"@]) by {
        assert(seq!["add"@, "-A"@].len() == 2);
    }
    assert(args != seq!["reset"@]) by {
        assert(seq!["reset"@].len() == 1);
    }
}

/// Only the first word of a command can make it one of those on the files.
proof fn first_word_decides(args: Seq<Seq<char>>, words: Seq<Seq<char>>)
    requires
        args.len() > 0,
        words.len() > 0,
        args[0] != words[0],
    ensures
        !begins(args, words),
        args != words,
{
    if begins(args, words) {
        assert(args.take(words.len() as int)[0] == words[0]);
    }
}

proof fn touches_no_file(args: Seq<Seq<char>>)
    requires
        args.len() > 0,
        args[0] != "add"@ && args[0] != "reset"@ && args[0] != "restore"@ && args[0] != "clean"@,
    ensures
        !begins(args, seq!["add"@, "--"@]) && args != seq!["add"@, "-A"@],
        !begins(args, seq!["reset"@, "--"@]) && args != seq!["reset"@],
        !begins(args, seq!["restore"@, "--"@]) && args != seq!["restore"@, "--"@, "."@],
        !begins(args, seq!["restore"@, "--source=HEAD"@, "--staged"@, "--worktree"@, "--"@]),
        !begins(args, seq!["clean"@, "-f"@, "-d"@, "--"@]),
{
    first_word_decides(args, seq!["add"@, "--"@]);
    first_word_decides(args, seq!["add"@, "-A"@]);
    first_word_decides(args, seq!["reset"@, "--"@]);
    first_word_decides(args, seq!["reset"@]);
    first_word_decides(args, seq!["restore"@, "--"@]);
    first_word_decides(args, seq!["restore"@, "--"@, "."@]);
    first_word_decides(
        args,
        seq!["restore"@, "--source=HEAD"@, "--staged"@, "--worktree"@, "--"@],
    );
    first_word_decides(args, seq!["clean"@, "-f"@, "-d"@, "--"@]);
}

proof fn commits_nothing(args: Seq<Seq<char>>)
    requires
        args.len() > 0,
        args[0] != "commit"@,
    ensures
        !begins(args, seq!["commit"@, "-m"@]),
        !begins(args, seq!["commit"@, "--amend"@, "-m"@]),
        args != seq!["commit"@, "--amend"@, "--no-edit"@],
{
    first_word_decides(args, seq!["commit"@, "-m"@]);
    first_word_decides(args, seq!["commit"@, "--amend"@, "-m"@]);
    first_word_decides(args, seq!["commit"@, "--amend"@, "--no-edit"@]);
}

proof fn commit_is_run(repo: Repository, message: Seq<char>)
    ensures
        repo.after(seq!["commit"@, "-m"@, message]).commits == repo.commits.push(message),
        repo.after(seq!["commit"@, "--amend"@, "-m"@, message]).commits
            == repo.commits.drop_last().push(message),
        repo.after(seq!["commit"@, "--amend"@, "--no-edit"@]).commits == repo.commits,
        repo.after(seq!["push"@]).upstream == repo.commits,
        repo.after(seq!["push"@]).commits == repo.commits,
        repo.after(seq!["pull"@, "--ff-only"@]).commits == repo.upstream,
        repo.after(seq!["pull"@, "--ff-only"@]).upstream == repo.upstream,
        repo.after(seq!["commit"@, "-m"@, message]).upstream == repo.upstream,
        repo.after(seq!["commit"@, "--amend"@, "-m"@, message]).upstream == repo.upstream,
        repo.after(seq!["commit"@, "--amend"@, "--no-edit"@]).upstream == repo.upstream,
{
    words_differ();
    reveal(Repository::after);
    let plain = seq!["commit"@, "-m"@, message];
    let amend = seq!["commit"@, "--amend"@, "-m"@, message];
    let keep = seq!["commit"@, "--amend"@, "--no-edit"@];
    let push = seq!["push"@];
    let pull = seq!["pull"@, "--ff-only"@];
    touches_no_file(plain);
    touches_no_file(amend);
    touches_no_file(keep);
    touches_no_file(push);
    touches_no_file(pull);
    commits_nothing(push);
    commits_nothing(pull);
    assert(plain.take(2) =~= seq!["commit"@, "-m"@]);
    assert(amend.take(3) =~= seq!["commit"@, "--amend"@, "-m"@]);
    assert(!begins(keep, seq!["commit"@, "-m"@])) by {
        if begins(keep, seq!["commit"@, "-m"@]) {
            assert(keep.take(2)[1] == seq!["commit"@, "-m"@][1]);
        }
    }
    first_word_decides(pull, push);
}

/// A commit is made with the message that was written, without the white space
/// around it; amending replaces the last one, and keeps its message where none
/// was written. Nothing is pushed before.
pub proof fn commits_carry_the_message(
    state: OperationModel,
    v: ViewModel,
    mode: CommitMode,
    repo: Repository,
)
    requires
        state.view == Some(v),
        mode != CommitMode::AndSync,
    ensures
        ({
            let message = trimmed(v.commit);
            let w = begun(state, Task::Commit(mode));
            let now = repo.asked(w);
            &&& message.len() > 0 && !v.amend ==> runs_in(w, v.root) && now.commits
                == repo.commits.push(message)
            &&& message.len() > 0 && v.amend ==> runs_in(w, v.root) && now.commits
                == repo.commits.drop_last().push(message)
            &&& message.len() == 0 && v.amend ==> runs_in(w, v.root) && now.commits == repo.commits
                && w.ask is Git
            &&& message.len() == 0 && !v.amend ==> w.ask is Nothing && w.state.view is Some
                && w.state.view->0.notice_error && w.state.view->0.commit == v.commit
            &&& now.upstream == repo.upstream
        }),
{
    commit_is_run(repo, trimmed(v.commit));
}

/// With synchronizing, the upstream is fetched and merged first, then the
/// commit is made on top of it, then everything is pushed; each step only where
/// the one before succeeded.
pub proof fn synchronizing_pulls_commits_and_pushes(
    state: OperationModel,
    v: ViewModel,
    repo: Repository,
    outputs: (Seq<char>, Seq<char>),
    now: u64,
)
    requires
        state.view == Some(v),
        trimmed(v.commit).len() > 0,
        !v.amend,
    ensures
        ({
            let pull = begun(state, Task::Commit(CommitMode::AndSync));
            let pulled = repo.asked(pull);
            let commit = git_answered(pull, Ok(outputs.0), now);
            let committed = pulled.asked(commit);
            let push = git_answered(commit, Ok(outputs.1), now);
            let pushed = committed.asked(push);
            &&& runs_in(pull, v.root) && runs_in(commit, v.root) && runs_in(push, v.root)
            &&& pulled.commits == repo.upstream
            &&& committed.commits == repo.upstream.push(trimmed(v.commit))
            &&& committed.upstream == repo.upstream
            &&& pushed.upstream == committed.commits && pushed.commits == committed.commits
        }),
{
    let pull = begun(state, Task::Commit(CommitMode::AndSync));
    let pulled = repo.asked(pull);
    let commit = git_answered(pull, Ok(outputs.0), now);
    let committed = pulled.asked(commit);
    commit_is_run(repo, trimmed(v.commit));
    commit_is_run(pulled, trimmed(v.commit));
    commit_is_run(committed, trimmed(v.commit));
}

/// A commit that is to be pushed is pushed once it was made, one that is not is
/// not; where it fails, nothing more is run and the error is shown.
pub proof fn only_commits_that_were_made_are_pushed(
    state: OperationModel,
    v: ViewModel,
    mode: CommitMode,
    repo: Repository,
    output: Seq<char>,
    error: Seq<char>,
    now: u64,
)
    requires
        state.view == Some(v),
        mode != CommitMode::AndSync,
        trimmed(v.commit).len() > 0,
    ensures
        ({
            let commit = begun(state, Task::Commit(mode));
            let committed = repo.asked(commit);
            let next = git_answered(commit, Ok(output), now);
            let failed = git_answered(commit, Err(error), now);
            &&& committed.asked(next).upstream == if mode == CommitMode::AndPush {
                committed.commits
            } else {
                repo.upstream
            }
            &&& committed.asked(next).commits == committed.commits
            &&& failed.ask is Nothing
            &&& failed.state.view is Some && failed.state.view->0.notice == error
                && failed.state.view->0.notice_error
        }),
{
    let commit = begun(state, Task::Commit(mode));
    let committed = repo.asked(commit);
    commit_is_run(repo, trimmed(v.commit));
    commit_is_run(committed, trimmed(v.commit));
    reading_changes_nothing_of(committed, git_answered(commit, Ok(output), now));
}

proof fn reading_changes_nothing_of(repo: Repository, w: WorkModel)
    ensures
        w.ask matches AskModel::Git(_, args, _) && args.len() > 0 && (args[0] == "status"@
            || args[0] == "log"@ || args[0] == "branch"@ || args[0] == "diff"@ || args[0]
            == "show"@) ==> repo.asked(w) == repo,
{
    words_differ();
    reveal(Repository::after);
    if let AskModel::Git(_, args, _) = w.ask {
        if args.len() > 0 && (args[0] == "status"@ || args[0] == "log"@ || args[0] == "branch"@
            || args[0] == "diff"@ || args[0] == "show"@) {
            assert("status"@ != "switch"@) by {
                assert("status"@[1] == 't' && "switch"@[1] == 'w');
            }
            assert("stash"@ != "status"@ && "show"@ != "push"@) by {
                reveal_strlit("show");
                reveal_strlit("push");
            }
            touches_no_file(args);
            commits_nothing(args);
            first_word_decides(args, seq!["push"@]);
            first_word_decides(args, seq!["pull"@, "--ff-only"@]);
            first_word_decides(args, seq!["switch"@, "-c"@]);
            first_word_decides(args, seq!["stash"@, "push"@]);
            first_word_decides(args, seq!["stash"@, "push"@, "-m"@]);
            first_word_decides(args, seq!["stash"@, "pop"@]);
        }
    }
}

/// Looking at the repository changes nothing of it.
pub proof fn looking_changes_nothing(state: OperationModel, v: ViewModel, task: Task, repo: Repository)
    requires
        state.view == Some(v),
        task is Poll || task is Refresh || task is LoadMoreHistory || task is LoadBranches || task
            is OpenSelectedDiff || task is OpenCommitDiff,
    ensures
        repo.asked(begun(state, task)) == repo,
        begun(state, task).state.view == Some(v),
{
    reading_changes_nothing_of(repo, begun(state, task));
    let w = begun(state, task);
    if let AskModel::Git(_, args, _) = w.ask {
        assert(args.len() > 0);
    }
}

/// What is looked at: the status of the repository, a longer history, the
/// branches, the diff of the selected file as it stands in its section, or that
/// of the selected commit.
pub proof fn looking_asks_for_the_selection(state: OperationModel, v: ViewModel)
    requires
        state.view == Some(v),
    ensures
        ({
            let w = begun(state, Task::Refresh);
            runs_in(w, v.root) && w.ask->Git_1[0] == "status"@
        }),
        ({
            let w = begun(state, Task::Poll);
            runs_in(w, v.root) && w.ask->Git_1[0] == "status"@
        }),
        v.history_has_more ==> ({
            let w = begun(state, Task::LoadMoreHistory);
            runs_in(w, v.root) && w.ask->Git_1[0] == "log"@
        }),
        ({
            let w = begun(state, Task::LoadBranches);
            runs_in(w, v.root) && w.ask->Git_1[0] == "branch"@
        }),
        v.selected < v.flat.len() ==> ({
            let file = v.flat[v.selected as int];
            let w = begun(state, Task::OpenSelectedDiff);
            if file.section == GitSection::Untracked {
                w.ask matches AskModel::File(root, path, _) && root == v.root && path == file.path
            } else {
                &&& runs_in(w, v.root)
                &&& w.ask->Git_1[0] == "diff"@
                &&& w.ask->Git_1.last() == ":(literal)"@ + file.path
                &&& w.ask->Git_1.contains("--cached"@) <==> file.section == GitSection::Staged
            }
        }),
        v.history_selected < v.history.len() ==> ({
            let w = begun(state, Task::OpenCommitDiff);
            &&& runs_in(w, v.root)
            &&& w.ask->Git_1[0] == "show"@
            &&& w.ask->Git_1.contains(v.history[v.history_selected as int].hash)
        }),
{
    words_differ();
    reveal_strlit("--cached");
    reveal_strlit("--no-color");
    reveal_strlit("--no-ext-diff");
    reveal_strlit("-U10000");
    assert("--cached"@.len() == 8 && "--no-color"@.len() == 10 && "--no-ext-diff"@.len() == 13
        && "-U10000"@.len() == 7);
    if v.selected < v.flat.len() {
        let file = v.flat[v.selected as int];
        let w = begun(state, Task::OpenSelectedDiff);
        if file.section != GitSection::Untracked {
            let args = w.ask->Git_1;
            if file.section == GitSection::Staged {
                assert(args[4] == "--cached"@);
            } else {
                assert(args.len() == 6);
                assert forall|i: int| 0 <= i < args.len() implies args[i] != "--cached"@ by {
                    if i == 5 {
                        assert(args[5] == ":(literal)"@ + file.path);
                    }
                }
            }
        }
    }
    if v.history_selected < v.history.len() {
        let args = begun(state, Task::OpenCommitDiff).ask->Git_1;
        assert(args[6] == v.history[v.history_selected as int].hash);
    }
}

/// The branch that is selected is switched to; a new one has the name that was
/// written.
pub proof fn branches_are_switched_to(state: OperationModel, v: ViewModel, repo: Repository)
    requires
        state.view == Some(v),
    ensures
        v.branch_selected < v.branches.len() ==> ({
            let w = begun(state, Task::Switch);
            let now = repo.asked(w);
            &&& runs_in(w, v.root)
            &&& now.branch == v.branches[v.branch_selected as int]
            &&& now.branches == repo.branches && now.commits == repo.commits
        }),
        v.branch_selected >= v.branches.len() ==> begun(state, Task::Switch).ask is Nothing,
        ({
            let w = begun(state, Task::CreateBranch);
            let now = repo.asked(w);
            &&& runs_in(w, v.root)
            &&& now.branch == trimmed(v.commit)
            &&& now.branches.contains(trimmed(v.commit))
            &&& now.commits == repo.commits
        }),
{
    words_differ();
    reveal(Repository::after);
    let old = seq!["switch"@, crate::git::operations::branch_at(v)];
    let new = seq!["switch"@, "-c"@, trimmed(v.commit)];
    touches_no_file(old);
    touches_no_file(new);
    commits_nothing(old);
    commits_nothing(new);
    first_word_decides(old, seq!["push"@]);
    first_word_decides(new, seq!["push"@]);
    first_word_decides(old, seq!["pull"@, "--ff-only"@]);
    first_word_decides(new, seq!["pull"@, "--ff-only"@]);
    assert(new.take(2) =~= seq!["switch"@, "-c"@]);
}

/// Stashing puts the changes away, under the message that was written where one
/// was; popping takes the last ones out again.
pub proof fn stashes_are_put_and_taken(state: OperationModel, v: ViewModel, repo: Repository)
    requires
        state.view == Some(v),
    ensures
        ({
            let w = begun(state, Task::StashMessage);
            let now = repo.asked(w);
            &&& runs_in(w, v.root)
            &&& now.stashes == repo.stashes.push(trimmed(v.commit))
            &&& now.staged.is_empty() && now.changed.is_empty()
        }),
        ({
            let w = begun(state, Task::Simple(SimpleCommand::Stash));
            let now = repo.asked(w);
            &&& runs_in(w, v.root)
            &&& now.stashes == repo.stashes.push(Seq::empty())
            &&& now.staged.is_empty() && now.changed.is_empty()
        }),
        ({
            let w = begun(state, Task::Simple(SimpleCommand::StashPop));
            &&& runs_in(w, v.root)
            &&& repo.asked(w).stashes == repo.stashes.drop_last()
        }),
        ({
            let w = begun(state, Task::Simple(SimpleCommand::Push));
            runs_in(w, v.root) && repo.asked(w).upstream == repo.commits
        }),
        ({
            let w = begun(state, Task::Simple(SimpleCommand::Pull));
            runs_in(w, v.root) && repo.asked(w).commits == repo.upstream
        }),
        ({
            let w = begun(state, Task::Simple(SimpleCommand::Fetch));
            runs_in(w, v.root) && w.ask->Git_1 == seq!["fetch"@]
        }),
{
    words_differ();
    reveal(Repository::after);
    commit_is_run(repo, Seq::empty());
    let message = seq!["stash"@, "push"@, "-m"@, trimmed(v.commit)];
    let push = seq!["stash"@, "push"@];
    let pop = seq!["stash"@, "pop"@];
    touches_no_file(message);
    touches_no_file(push);
    touches_no_file(pop);
    commits_nothing(message);
    commits_nothing(push);
    commits_nothing(pop);
    first_word_decides(message, seq!["push"@]);
    first_word_decides(push, seq!["push"@]);
    first_word_decides(pop, seq!["push"@]);
    first_word_decides(message, seq!["pull"@, "--ff-only"@]);
    first_word_decides(push, seq!["pull"@, "--ff-only"@]);
    first_word_decides(pop, seq!["pull"@, "--ff-only"@]);
    first_word_decides(message, seq!["switch"@, "-c"@]);
    first_word_decides(push, seq!["switch"@, "-c"@]);
    first_word_decides(pop, seq!["switch"@, "-c"@]);
    assert(message.take(3) =~= seq!["stash"@, "push"@, "-m"@]);
    assert(pop[1] == "pop"@ && push[1] == "push"@);
    assert(message != push && message.len() == 4);
}

/// Whether an answer is that of a command that changes the repository.
pub open spec fn of_change(then: ThenModel) -> bool {
    then is Staged || then is Reported || then is Switched || then is Created || then is Stashed
}

/// After a command that changed the repository, its status is read again; after
/// one that failed nothing more is run, and the dashboard shows the error.
pub proof fn changes_are_read_again(
    w: WorkModel,
    v: ViewModel,
    then: ThenModel,
    output: Seq<char>,
    error: Seq<char>,
    now: u64,
)
    requires
        w.state.view == Some(v),
        w.ask matches AskModel::Git(_, _, t) && t == then,
        w.follow is None,
        of_change(then),
    ensures
        ({
            let done = git_answered(w, Ok(output), now);
            let failed = git_answered(w, Err(error), now);
            &&& runs_in(done, v.root) && done.ask->Git_1[0] == "status"@
            &&& done.ask->Git_2 == ThenModel::Refreshed
            &&& done.state.view is Some && !done.state.view->0.notice_error
            &&& failed.ask is Nothing
            &&& failed.state.view is Some
            &&& failed.state.view->0.notice == error && failed.state.view->0.notice_error
            &&& failed.state.view->0.commit == v.commit
        }),
{
}

/// A command that ends well says so: with its message, and with what it
/// printed.
pub proof fn reports_are_shown(
    w: WorkModel,
    v: ViewModel,
    message: Seq<char>,
    output: Seq<char>,
    now: u64,
)
    requires
        w.state.view == Some(v),
        w.ask matches AskModel::Git(_, _, t) && t == ThenModel::Reported(message),
        trimmed(message) == message,
    ensures
        ({
            let done = git_answered(w, Ok(output), now);
            let notice = done.state.view->0.notice;
            &&& trimmed(output).len() == 0 ==> notice == message
            &&& trimmed(output).len() > 0 ==> notice == trimmed(
                message + " "@ + trimmed(output),
            )
        }),
{
}

/// A status that was read is shown: the files of every section, staged first,
/// then unstaged, then untracked, and the branch.
pub proof fn status_is_shown(w: WorkModel, v: ViewModel, raw: Seq<char>, now: u64)
    requires
        w.state.view == Some(v),
        w.ask matches AskModel::Git(_, _, t) && t == ThenModel::Refreshed,
    ensures
        ({
            let shown = git_answered(w, Ok(raw), now).state.view;
            let status = crate::git::repository::porcelain_status(raw);
            &&& shown is Some
            &&& shown->0.status == status
            &&& shown->0.flat == status.staged + status.unstaged + status.untracked
            &&& shown->0.commit == v.commit
        }),
{
    let status = crate::git::repository::porcelain_status(raw);
    assert(status.all() =~= status.staged + status.unstaged + status.untracked);
}

} // verus!
