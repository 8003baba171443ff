use vstd::prelude::*;

use crate::config::opt_text;

verus! {

/// git2's handle on an open repository.
#[verifier::external_type_specification]
#[verifier::external_body]
pub struct ExRepository(git2::Repository);

/// An error that libgit2 reported.
#[verifier::external_type_specification]
#[verifier::external_body]
pub struct ExGitError(git2::Error);

/// A git reference (a branch, or HEAD).
#[verifier::external_type_specification]
#[verifier::external_body]
pub struct ExReference<'a>(git2::Reference<'a>);

/// A commit of a repository.
#[verifier::external_type_specification]
#[verifier::external_body]
pub struct ExCommit<'a>(git2::Commit<'a>);

/// A tree object of a repository.
#[verifier::external_type_specification]
#[verifier::external_body]
pub struct ExTree<'a>(git2::Tree<'a>);

/// The changes between two trees.
#[verifier::external_type_specification]
#[verifier::external_body]
pub struct ExDiff<'a>(git2::Diff<'a>);

/// A git object id.
#[verifier::external_type_specification]
#[verifier::external_body]
pub struct ExOid(git2::Oid);

/// Relies on git2::Repository::open to open the repository at `path`.
#[verifier::external_body]
fn open_repository(path: &str) -> (r: Result<git2::Repository, git2::Error>) {
    git2::Repository::open(path)
}

/// Relies on git2::Repository::head to resolve the reference HEAD points at.
pub assume_specification<'a>[ git2::Repository::head ](repo: &'a git2::Repository) -> Result<
    git2::Reference<'a>,
    git2::Error,
>;

/// Relies on git2::Reference::is_branch to tell whether a reference is a local branch.
pub assume_specification<'a>[ git2::Reference::<'a>::is_branch ](
    reference: &git2::Reference<'a>,
) -> bool;

/// Relies on git2::Reference::peel_to_commit to find the commit a reference leads to.
pub assume_specification<'a>[ git2::Reference::<'a>::peel_to_commit ](
    reference: &git2::Reference<'a>,
) -> Result<git2::Commit<'a>, git2::Error>;

/// Relies on git2::Reference::shorthand for the short name of a reference,
/// absent when the name is not valid UTF-8.
#[verifier::external_body]
fn shorthand(reference: &git2::Reference) -> (r: Option<String>) {
    reference.shorthand().map(String::from)
}

/// Relies on git2::Repository::branch, without `force`, to create branch
/// `name` at `target`; it fails where a branch of that name exists.
#[verifier::external_body]
fn new_branch(repo: &git2::Repository, name: &str, target: &git2::Commit) -> (r: Result<
    (),
    git2::Error,
>) {
    repo.branch(name, target, false).map(|_| ())
}

/// Relies on git2::Repository::statuses, with untracked files included or
/// not as `include_untracked` says: the raw status flags of each entry.
#[verifier::external_body]
fn status_flags(repo: &git2::Repository, include_untracked: bool) -> (r: Result<
    Vec<u32>,
    git2::Error,
>) {
    let mut options = git2::StatusOptions::new();
    options.include_untracked(include_untracked);
    let statuses = repo.statuses(Some(&mut options))?;
    let mut flags = Vec::new();
    for entry in statuses.iter() {
        flags.push(entry.status().bits());
    }
    Ok(flags)
}

/// Relies on git2::Repository::set_head to point HEAD at `refname`.
pub assume_specification[ git2::Repository::set_head ](
    repo: &git2::Repository,
    refname: &str,
) -> Result<(), git2::Error>;

/// Relies on git2::Repository::checkout_tree, with default (safe) options, to
/// bring the working tree to `commit`; it refuses to overwrite changes.
#[verifier::external_body]
fn checkout_commit(repo: &git2::Repository, commit: &git2::Commit) -> (r: Result<(), git2::Error>) {
    repo.checkout_tree(commit.as_object(), None)
}

/// Relies on git2::Repository::find_branch to look up the local branch
/// `name`, handed back as its reference.
#[verifier::external_body]
fn find_local_branch<'a>(repo: &'a git2::Repository, name: &str) -> (r: Result<
    git2::Reference<'a>,
    git2::Error,
>) {
    match repo.find_branch(name, git2::BranchType::Local) {
        Ok(branch) => Ok(branch.into_reference()),
        Err(e) => Err(e),
    }
}

/// Relies on git2::Commit::id for a commit's object id.
pub assume_specification<'a>[ git2::Commit::<'a>::id ](commit: &git2::Commit<'a>) -> git2::Oid;

/// Relies on git2::Commit::tree for a commit's tree.
pub assume_specification<'a>[ git2::Commit::<'a>::tree ](commit: &git2::Commit<'a>) -> Result<
    git2::Tree<'a>,
    git2::Error,
>;

/// Relies on git2::Repository::merge_base for the best common ancestor of two commits.
pub assume_specification[ git2::Repository::merge_base ](
    repo: &git2::Repository,
    one: git2::Oid,
    two: git2::Oid,
) -> Result<git2::Oid, git2::Error>;

/// Relies on git2::Repository::find_commit to look up a commit by id.
pub assume_specification<'a>[ git2::Repository::find_commit ](
    repo: &'a git2::Repository,
    oid: git2::Oid,
) -> Result<git2::Commit<'a>, git2::Error>;

/// Relies on git2::Repository::diff_tree_to_tree, with default options, for
/// the changes that lead from `old_tree` to `new_tree`.
#[verifier::external_body]
fn diff_trees<'a>(
    repo: &'a git2::Repository,
    old_tree: &git2::Tree,
    new_tree: &git2::Tree,
) -> (r: Result<git2::Diff<'a>, git2::Error>) {
    repo.diff_tree_to_tree(Some(old_tree), Some(new_tree), None)
}

/// Relies on git2::Repository::apply, at the working directory, to apply a
/// diff without staging it.
#[verifier::external_body]
fn apply_to_workdir(repo: &git2::Repository, diff: &git2::Diff) -> (r: Result<(), git2::Error>) {
    repo.apply(diff, git2::ApplyLocation::WorkDir, None)
}

/// Relies on git2::Error::message for the text of an error.
pub assume_specification[ git2::Error::message ](e: &git2::Error) -> &str;

/// Why a git step failed.
#[derive(Debug)]
pub enum GitError {
    /// HEAD does not point at a branch.
    DetachedHead,
    /// The name of the current branch is not valid UTF-8.
    UnnamedBranch,
    /// A tracked file has changes in the working tree.
    DirtyWorkingTree,
    /// The fork's changes do not apply to the working tree.
    MergeConflict,
    /// The repository refused an operation; the text is its message.
    Repository(String),
}

/// A change that the library made to a repository's working tree or HEAD.
pub enum TreeWrite {
    /// The working tree was checked out to the tip of the given branch.
    CheckoutBranch(Seq<char>),
    /// HEAD now points at the given reference.
    SetHead(Seq<char>),
    /// The changes that branch `fork` made since it parted from branch `base`
    /// were handed to git to apply to the working tree; `applied` says
    /// whether git applied them.
    ApplyDiff { base: Seq<char>, fork: Seq<char>, applied: bool },
}

/// What was read of HEAD: whether it is a branch, and its short name (absent
/// when the name is not valid UTF-8).
pub struct HeadView {
    pub is_branch: bool,
    pub short: Option<Seq<char>>,
}

/// Status bits of git that mark a change of a tracked file, staged or not:
/// new, modified, deleted, renamed or type-changed in the index (0x1f), and
/// new, modified, deleted, type-changed or renamed in the working tree (0xf80).
pub open spec fn tracked_change_bits() -> u32 {
    0x0f9f
}

/// A status entry reports a change of a tracked file.
pub open spec fn is_tracked_change(flags: u32) -> bool {
    flags & tracked_change_bits() != 0
}

/// Some entry of `statuses` reports a change of a tracked file.
pub open spec fn has_tracked_changes_spec(statuses: Seq<u32>) -> bool {
    exists|i: int| 0 <= i < statuses.len() && is_tracked_change(statuses[i])
}

/// Whether any of the status flags reports a change of a tracked file,
/// staged or in the working tree.
pub fn has_tracked_changes(statuses: &Vec<u32>) -> (r: bool)
    ensures
        r == has_tracked_changes_spec(statuses@),
{
    let mut i: usize = 0;
    while i < statuses.len()
        invariant
            i <= statuses@.len(),
            forall|j: int| 0 <= j < i ==> !is_tracked_change(statuses@[j]),
        decreases statuses@.len() - i,
    {
        if statuses[i] & 0x0f9fu32 != 0 {
            return true;
        }
        i += 1;
    }
    false
}

/// `r` is what the current branch's name is, given what was read of HEAD.
pub open spec fn reports_branch(h: HeadView, r: Result<String, GitError>) -> bool {
    &&& !h.is_branch ==> r is Err && r->Err_0 is DetachedHead
    &&& h.is_branch && h.short is None ==> r is Err && r->Err_0 is UnnamedBranch
    &&& h.is_branch && h.short is Some ==> r is Ok && r->Ok_0@ == h.short->Some_0
}

/// The name of the current branch, from what HEAD is: `DetachedHead` when it
/// is no branch, `UnnamedBranch` when its name cannot be read.
pub fn head_branch_name(is_branch: bool, short: Option<String>) -> (r: Result<String, GitError>)
    ensures
        reports_branch(HeadView { is_branch, short: opt_text(short) }, r),
{
    if !is_branch {
        return Err(GitError::DetachedHead);
    }
    match short {
        Some(s) => Ok(s),
        None => Err(GitError::UnnamedBranch),
    }
}

/// The full reference name of local branch `branch`.
pub open spec fn branch_ref(branch: Seq<char>) -> Seq<char> {
    "refs/heads/"@ + branch
}

/// The writes of a squash merge of `fork` onto `base` that has to switch
/// branches: check out `base`, point HEAD at it, apply the diff.
pub open spec fn merge_plan(base: Seq<char>, fork: Seq<char>, applied: bool) -> Seq<TreeWrite> {
    seq![
        TreeWrite::CheckoutBranch(base),
        TreeWrite::SetHead(branch_ref(base)),
        TreeWrite::ApplyDiff { base, fork, applied },
    ]
}

/// `t` is a start of the writes of a squash merge of `fork` onto `base`,
/// where git's answer to the diff is `applied`.
pub open spec fn is_merge_trace_with(
    t: Seq<TreeWrite>,
    base: Seq<char>,
    fork: Seq<char>,
    applied: bool,
) -> bool {
    ||| t.len() <= 3 && t == merge_plan(base, fork, applied).take(t.len() as int)
    ||| t.len() <= 1 && t == seq![TreeWrite::ApplyDiff { base, fork, applied }].take(
        t.len() as int,
    )
}

/// `t` is a start of the writes of a squash merge of `fork` onto `base`:
/// a switch to `base` where another branch was checked out, then the diff.
pub open spec fn is_merge_trace(t: Seq<TreeWrite>, base: Seq<char>, fork: Seq<char>) -> bool {
    is_merge_trace_with(t, base, fork, true) || is_merge_trace_with(t, base, fork, false)
}

/// HEAD was read as a branch whose name can be read and differs from `base`.
pub open spec fn head_elsewhere(h: Option<HeadView>, base: Seq<char>) -> bool {
    h is Some && h->Some_0.short is Some && h->Some_0.short->Some_0 != base
}

/// HEAD was read with a name that can be read and is `base`.
pub open spec fn head_on(h: Option<HeadView>, base: Seq<char>) -> bool {
    h is Some && h->Some_0.short == Some(base)
}

fn repository_error(e: &git2::Error) -> (r: GitError)
    ensures
        r is Repository,
{
    GitError::Repository(String::from_str(e.message()))
}

/// A git repository opened by the library, with a record of what the library
/// read of it and of each change it made to it.
pub struct GitRepo {
    repo: git2::Repository,
    writes: Ghost<Seq<TreeWrite>>,
    statuses_read: Ghost<Option<Seq<u32>>>,
    head_read: Ghost<Option<HeadView>>,
    created: Ghost<Seq<Seq<char>>>,
}

impl GitRepo {
    /// The changes made through this value to the working tree or HEAD so
    /// far, oldest first.
    pub closed spec fn writes(&self) -> Seq<TreeWrite> {
        self.writes@
    }

    /// The status flags that the last squash merge read, if it read them.
    pub closed spec fn statuses_read(&self) -> Option<Seq<u32>> {
        self.statuses_read@
    }

    /// What the last reading of HEAD gave, if it succeeded.
    pub closed spec fn head_read(&self) -> Option<HeadView> {
        self.head_read@
    }

    /// The branches created through this value so far, oldest first.
    pub closed spec fn created(&self) -> Seq<Seq<char>> {
        self.created@
    }

    /// Opens the repository at `path`.
    pub fn open(path: &str) -> (r: Result<GitRepo, GitError>)
        ensures
            r is Ok ==> r->Ok_0.writes() == Seq::<TreeWrite>::empty() && r->Ok_0.created()
                == Seq::<Seq<char>>::empty(),
            r is Err ==> r->Err_0 is Repository,
    {
        match open_repository(path) {
            Ok(repo) => Ok(
                GitRepo {
                    repo,
                    writes: Ghost(Seq::empty()),
                    statuses_read: Ghost(None),
                    head_read: Ghost(None),
                    created: Ghost(Seq::empty()),
                },
            ),
            Err(e) => Err(repository_error(&e)),
        }
    }

    /// Reads HEAD: whether it is a branch, and its short name.
    fn read_head(&mut self) -> (r: Result<(bool, Option<String>), GitError>)
        ensures
            final(self).writes() == old(self).writes(),
            final(self).statuses_read() == old(self).statuses_read(),
            final(self).created() == old(self).created(),
            r is Ok ==> final(self).head_read() == Some(
                HeadView { is_branch: r->Ok_0.0, short: opt_text(r->Ok_0.1) },
            ),
            r is Err ==> final(self).head_read() is None && r->Err_0 is Repository,
    {
        let read = match self.repo.head() {
            Ok(head) => Ok((head.is_branch(), shorthand(&head))),
            Err(e) => Err(repository_error(&e)),
        };
        match &read {
            Ok((is_branch, short)) => {
                self.head_read = Ghost(
                    Some(HeadView { is_branch: *is_branch, short: opt_text(*short) }),
                );
            },
            Err(_) => {
                self.head_read = Ghost(None);
            },
        }
        read
    }

    /// The short name of the checked-out branch; `DetachedHead` when HEAD is
    /// not a branch.
    pub fn current_branch_name(&mut self) -> (r: Result<String, GitError>)
        ensures
            final(self).writes() == old(self).writes(),
            final(self).statuses_read() == old(self).statuses_read(),
            final(self).created() == old(self).created(),
            final(self).head_read() is None ==> r is Err && r->Err_0 is Repository,
            final(self).head_read() is Some ==> reports_branch(final(self).head_read()->Some_0, r),
    {
        let (is_branch, short) = self.read_head()?;
        head_branch_name(is_branch, short)
    }

    /// Creates branch `name` at the current HEAD commit without switching to
    /// it; fails where the name is taken. The working tree is not touched.
    pub fn create_branch(&mut self, name: &str) -> (r: Result<(), GitError>)
        ensures
            final(self).writes() == old(self).writes(),
            final(self).statuses_read() == old(self).statuses_read(),
            final(self).head_read() == old(self).head_read(),
            r is Ok ==> final(self).created() == old(self).created().push(name@),
            r is Err ==> final(self).created() == old(self).created() && r->Err_0 is Repository,
    {
        let head = match self.repo.head() {
            Ok(head) => head,
            Err(e) => return Err(repository_error(&e)),
        };
        let commit = match head.peel_to_commit() {
            Ok(commit) => commit,
            Err(e) => return Err(repository_error(&e)),
        };
        match new_branch(&self.repo, name, &commit) {
            Ok(()) => {
                self.created = Ghost(self.created@.push(name@));
                Ok(())
            },
            Err(e) => Err(repository_error(&e)),
        }
    }

    fn point_head_at(&mut self, refname: &str) -> (r: Result<(), git2::Error>)
        ensures
            final(self).writes() == old(self).writes().push(TreeWrite::SetHead(refname@)),
            final(self).statuses_read() == old(self).statuses_read(),
            final(self).head_read() == old(self).head_read(),
            final(self).created() == old(self).created(),
    {
        let r = self.repo.set_head(refname);
        self.writes = Ghost(self.writes@.push(TreeWrite::SetHead(refname@)));
        r
    }

    /// Switches to `base` when HEAD names another branch: its tip is checked
    /// out into the working tree, then HEAD points at it.
    fn switch_to(&mut self, base: &str) -> (r: Result<(), GitError>)
        ensures
            final(self).statuses_read() == old(self).statuses_read(),
            final(self).created() == old(self).created(),
            final(self).writes() == old(self).writes() || final(self).writes() == old(
                self,
            ).writes().push(TreeWrite::CheckoutBranch(base@)) || final(self).writes() == old(
                self,
            ).writes().push(TreeWrite::CheckoutBranch(base@)).push(
                TreeWrite::SetHead(branch_ref(base@)),
            ),
            final(self).writes() != old(self).writes() ==> head_elsewhere(
                final(self).head_read(),
                base@,
            ),
            r is Err ==> r->Err_0 is Repository || r->Err_0 is UnnamedBranch,
            r is Ok ==> (final(self).writes() == old(self).writes() && head_on(
                final(self).head_read(),
                base@,
            )) || (final(self).writes() == old(self).writes().push(
                TreeWrite::CheckoutBranch(base@),
            ).push(TreeWrite::SetHead(branch_ref(base@))) && head_elsewhere(
                final(self).head_read(),
                base@,
            )),
    {
        let (_, short) = self.read_head()?;
        let head_name = match short {
            Some(name) => name,
            None => return Err(GitError::UnnamedBranch),
        };
        if head_name == String::from_str(base) {
            return Ok(());
        }
        let checked_out = {
            let commit = Self::branch_commit(&self.repo, base)?;
            let r = checkout_commit(&self.repo, &commit);
            self.writes = Ghost(self.writes@.push(TreeWrite::CheckoutBranch(base@)));
            r
        };
        if let Err(e) = checked_out {
            return Err(repository_error(&e));
        }
        let mut refname = String::from_str("refs/heads/");
        refname.append(base);
        match self.point_head_at(refname.as_str()) {
            Ok(()) => Ok(()),
            Err(e) => Err(repository_error(&e)),
        }
    }

    /// The commit that the local branch `name` points at.
    fn branch_commit<'a>(repo: &'a git2::Repository, name: &str) -> (r: Result<
        git2::Commit<'a>,
        GitError,
    >)
        ensures
            r is Err ==> r->Err_0 is Repository,
    {
        let reference = match find_local_branch(repo, name) {
            Ok(reference) => reference,
            Err(e) => return Err(repository_error(&e)),
        };
        match reference.peel_to_commit() {
            Ok(commit) => Ok(commit),
            Err(e) => Err(repository_error(&e)),
        }
    }

    /// The changes that the branch `fork` made since it parted from `base`:
    /// the diff from their merge base's tree to the fork's tree, with the two
    /// branch names it was computed from.
    fn fork_diff<'a>(repo: &'a git2::Repository, base: &str, fork: &str) -> (r: Result<
        (git2::Diff<'a>, Ghost<(Seq<char>, Seq<char>)>),
        GitError,
    >)
        ensures
            r is Ok ==> r->Ok_0.1@ == (base@, fork@),
            r is Err ==> r->Err_0 is Repository,
    {
        let base_commit = Self::branch_commit(repo, base)?;
        let fork_commit = Self::branch_commit(repo, fork)?;
        let merge_base = match repo.merge_base(base_commit.id(), fork_commit.id()) {
            Ok(oid) => oid,
            Err(e) => return Err(repository_error(&e)),
        };
        let merge_base_commit = match repo.find_commit(merge_base) {
            Ok(commit) => commit,
            Err(e) => return Err(repository_error(&e)),
        };
        let base_tree = match merge_base_commit.tree() {
            Ok(tree) => tree,
            Err(e) => return Err(repository_error(&e)),
        };
        let fork_tree = match fork_commit.tree() {
            Ok(tree) => tree,
            Err(e) => return Err(repository_error(&e)),
        };
        match diff_trees(repo, &base_tree, &fork_tree) {
            Ok(diff) => Ok((diff, Ghost((base@, fork@)))),
            Err(e) => Err(repository_error(&e)),
        }
    }

    /// Applies the changes of branch `fork` to the working tree of branch
    /// `base`, unstaged, switching to `base` first where HEAD names another
    /// branch. Fails with `DirtyWorkingTree`, touching nothing, where a
    /// tracked file has changes, staged or not; with `MergeConflict` where git
    /// does not apply the changes (the tree may then hold part of them).
    pub fn squash_merge_branch(&mut self, base: &str, fork: &str) -> (r: Result<(), GitError>)
        ensures
            final(self).created() == old(self).created(),
            final(self).writes().len() >= old(self).writes().len(),
            final(self).writes().take(old(self).writes().len() as int) == old(self).writes(),
            ({
                let t = final(self).writes().skip(old(self).writes().len() as int);
                let h = final(self).head_read();
                &&& is_merge_trace(t, base@, fork@)
                &&& t.len() > 0 && t[0] is CheckoutBranch ==> head_elsewhere(h, base@)
                &&& r is Ok ==> (head_on(h, base@) && t == seq![
                    TreeWrite::ApplyDiff { base: base@, fork: fork@, applied: true },
                ]) || (head_elsewhere(h, base@) && t == merge_plan(base@, fork@, true))
                &&& (r is Err && r->Err_0 is MergeConflict) <==> (t.len() > 0 && t.last()
                    == TreeWrite::ApplyDiff { base: base@, fork: fork@, applied: false })
                &&& r is Err && r->Err_0 is DirtyWorkingTree ==> t.len() == 0
            }),
            r is Err && r->Err_0 is DirtyWorkingTree <==> final(self).statuses_read() is Some
                && has_tracked_changes_spec(final(self).statuses_read()->Some_0),
            r is Err && r->Err_0 is DirtyWorkingTree ==> final(self).writes() == old(self).writes(),
    {
        let ghost start = self.writes();
        self.head_read = Ghost(None);
        proof {
            assert(self.writes().skip(start.len() as int) =~= merge_plan(base@, fork@, true).take(0));
            assert(self.writes().take(start.len() as int) =~= start);
        }
        // Untracked files never make the tree dirty.
        let statuses = match status_flags(&self.repo, false) {
            Ok(statuses) => statuses,
            Err(e) => {
                self.statuses_read = Ghost(None);
                return Err(repository_error(&e));
            },
        };
        self.statuses_read = Ghost(Some(statuses@));
        if has_tracked_changes(&statuses) {
            return Err(GitError::DirtyWorkingTree);
        }
        let switched = self.switch_to(base);
        proof {
            let t = self.writes().skip(start.len() as int);
            let sw = merge_plan(base@, fork@, true);
            if self.writes() == start {
                assert(t =~= sw.take(0));
            } else if self.writes() == start.push(sw[0]) {
                assert(t =~= sw.take(1));
            } else {
                assert(t =~= sw.take(2));
            }
            assert(self.writes().take(start.len() as int) =~= start);
        }
        match switched {
            Ok(()) => {},
            Err(e) => return Err(e),
        }
        let ghost before_apply = self.writes();
        let diff = Self::fork_diff(&self.repo, base, fork);
        let (diff, source) = match diff {
            Ok(found) => found,
            Err(e) => {
                return Err(e);
            },
        };
        let applied = apply_to_workdir(&self.repo, &diff);
        self.writes = Ghost(
            self.writes@.push(
                TreeWrite::ApplyDiff { base: source@.0, fork: source@.1, applied: applied is Ok },
            ),
        );
        proof {
            let t = self.writes().skip(start.len() as int);
            let a = applied is Ok;
            let sw = merge_plan(base@, fork@, a);
            let st = seq![TreeWrite::ApplyDiff { base: base@, fork: fork@, applied: a }];
            if before_apply == start {
                assert(t =~= st);
                assert(t =~= st.take(1));
            } else {
                assert(t =~= sw);
                assert(t =~= sw.take(3));
            }
            assert(self.writes().take(start.len() as int) =~= start);
        }
        match applied {
            Ok(()) => Ok(()),
            Err(_) => Err(GitError::MergeConflict),
        }
    }
}

} // verus!
