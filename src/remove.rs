//! Recursive removal of a directory, and its atomic form, which first
//! renames the directory out of the way.
//!
//! The removal is a state machine: it names the next system operation to
//! make, the caller makes it and hands back what came of it.
use vstd::prelude::*;

use crate::error::Error;
use crate::list::{Entry, EntryView, SimpleType, is_dot_name};
use crate::dir::Dir;
use crate::path::{
    append, candidate, copy_range, entry_name, has_nul, is_under, last_dot,
    lemma_candidate_in_place, removal_candidate, to_cstr, trim_slashes, usable_name,
};

verus! {

/// The path of the member `name` of the directory at `dir`.
pub open spec fn child_path(dir: Seq<u8>, name: Seq<u8>) -> Seq<u8> {
    dir + seq![47u8] + name
}

/// Writes the path of the member `name` of the directory at `dir`.
pub fn child_path_of(dir: &[u8], name: &[u8]) -> (r: Vec<u8>)
    ensures
        r@ == child_path(dir@, name@),
{
    let mut out = copy_range(dir, 0, dir.len());
    assert(dir@.subrange(0, dir@.len() as int) =~= dir@);
    out.push(47u8);
    append(&mut out, name);
    out
}

/// A directory that is being emptied.
#[derive(Debug)]
pub struct Frame {
    /// Its path, relative to the handle that the removal works on.
    pub path: Vec<u8>,
    /// Whether it has been listed.
    pub listed: bool,
    /// The members that are still to be removed.
    pub pending: Vec<Entry>,
}

/// The mathematical form of a `Frame`.
pub struct FrameView {
    pub path: Seq<u8>,
    pub listed: bool,
    pub pending: Seq<EntryView>,
}

impl View for Frame {
    type V = FrameView;

    open spec fn view(&self) -> FrameView {
        FrameView {
            path: self.path@,
            listed: self.listed,
            pending: self.pending@.map_values(|e: Entry| e@),
        }
    }
}

/// The next operation of a removal.
#[derive(Debug)]
pub enum RemoveAction {
    /// List the directory at this path.
    List(Vec<u8>),
    /// Read the status of this member: the listing gave no type.
    Stat(Vec<u8>),
    /// Remove this file.
    RemoveFile(Vec<u8>),
    /// Remove this directory, now empty.
    RemoveDir(Vec<u8>),
    /// Everything has been removed.
    Done,
    /// The removal stops on this error; what was removed stays removed.
    Abort(Error),
}

/// The mathematical form of a `RemoveAction`.
pub enum ActionView {
    List(Seq<u8>),
    Stat(Seq<u8>),
    RemoveFile(Seq<u8>),
    RemoveDir(Seq<u8>),
    Done,
    Abort(Error),
}

impl View for RemoveAction {
    type V = ActionView;

    open spec fn view(&self) -> ActionView {
        match self {
            RemoveAction::List(p) => ActionView::List(p@),
            RemoveAction::Stat(p) => ActionView::Stat(p@),
            RemoveAction::RemoveFile(p) => ActionView::RemoveFile(p@),
            RemoveAction::RemoveDir(p) => ActionView::RemoveDir(p@),
            RemoveAction::Done => ActionView::Done,
            RemoveAction::Abort(e) => ActionView::Abort(*e),
        }
    }
}

/// The path that an action operates on, if any.
pub open spec fn action_path(a: ActionView) -> Option<Seq<u8>> {
    match a {
        ActionView::List(p) => Some(p),
        ActionView::Stat(p) => Some(p),
        ActionView::RemoveFile(p) => Some(p),
        ActionView::RemoveDir(p) => Some(p),
        _ => None,
    }
}

/// What came of the last operation.
pub enum RemoveEvent {
    /// The directory was listed and holds these members.
    Listed(Vec<Entry>),
    /// The member's status gives this type.
    Stated(SimpleType),
    /// The file or directory was removed.
    Removed,
    /// The operation failed.
    Failed(Error),
}

/// The removal of a directory and all it holds.
#[derive(Debug)]
pub struct Remover {
    /// The directory to remove.
    pub root: Vec<u8>,
    /// The directories being emptied; each one below the one before.
    pub stack: Vec<Frame>,
    /// The member whose status has been asked for.
    pub inspecting: Option<Vec<u8>>,
    /// Whether the removal is over.
    pub finished: bool,
}

/// The mathematical form of a `Remover`.
pub struct RemoverView {
    pub root: Seq<u8>,
    pub stack: Seq<FrameView>,
    pub inspecting: Option<Seq<u8>>,
    pub finished: bool,
}

impl View for Remover {
    type V = RemoverView;

    open spec fn view(&self) -> RemoverView {
        RemoverView {
            root: self.root@,
            stack: self.stack@.map_values(|f: Frame| f@),
            inspecting: match self.inspecting {
                Some(p) => Some(p@),
                None => None,
            },
            finished: self.finished,
        }
    }
}

/// Every path that the removal holds lies under its root, and a finished
/// removal holds none.
pub open spec fn remover_wf(v: RemoverView) -> bool {
    &&& forall|i: int| 0 <= i < v.stack.len() ==> is_under(#[trigger] v.stack[i].path, v.root)
    &&& (v.inspecting matches Some(p) ==> is_under(p, v.root))
    &&& (v.finished ==> v.stack.len() == 0 && v.inspecting is None)
}

/// Whether a member is to be looked at before it is removed: the listing
/// gave no type for it.
pub open spec fn needs_stat(t: Option<SimpleType>) -> bool {
    t is None || t == Some(SimpleType::Unknown)
}

/// The next operation of the removal `v`, and the removal after it.
pub open spec fn advance(v: RemoverView) -> (RemoverView, ActionView) {
    if v.finished {
        (v, ActionView::Done)
    } else if v.stack.len() == 0 {
        (RemoverView { finished: true, inspecting: None, ..v }, ActionView::Done)
    } else {
        let top = v.stack.last();
        if !top.listed {
            (v, ActionView::List(top.path))
        } else if top.pending.len() == 0 {
            (RemoverView { stack: v.stack.drop_last(), ..v }, ActionView::RemoveDir(top.path))
        } else {
            let e = top.pending.last();
            let child = child_path(top.path, e.name);
            let rest = v.stack.drop_last().push(FrameView { pending: top.pending.drop_last(), ..top });
            if e.file_type == Some(SimpleType::Dir) {
                (
                    RemoverView {
                        stack: rest.push(FrameView { path: child, listed: false, pending: Seq::empty() }),
                        ..v
                    },
                    ActionView::List(child),
                )
            } else if needs_stat(e.file_type) {
                (RemoverView { stack: rest, inspecting: Some(child), ..v }, ActionView::Stat(child))
            } else {
                (RemoverView { stack: rest, ..v }, ActionView::RemoveFile(child))
            }
        }
    }
}

/// The removal `v` once the directory on top has been listed with the
/// members `es`; `.` and `..` are left out.
pub open spec fn after_listing(v: RemoverView, es: Seq<EntryView>) -> RemoverView {
    if v.stack.len() == 0 || v.finished {
        v
    } else {
        let top = v.stack.last();
        RemoverView {
            stack: v.stack.drop_last().push(
                FrameView {
                    listed: true,
                    pending: es.filter(|e: EntryView| !is_dot_name(e.name)),
                    ..top
                },
            ),
            ..v
        }
    }
}

/// The removal `v` once the member it looked at has turned out to be of
/// type `t`, and the next operation.
pub open spec fn after_stat(v: RemoverView, t: SimpleType) -> (RemoverView, ActionView) {
    match v.inspecting {
        Some(c) => if t == SimpleType::Dir {
            (
                RemoverView {
                    stack: v.stack.push(FrameView { path: c, listed: false, pending: Seq::empty() }),
                    inspecting: None,
                    ..v
                },
                ActionView::List(c),
            )
        } else {
            (RemoverView { inspecting: None, ..v }, ActionView::RemoveFile(c))
        },
        None => advance(v),
    }
}

/// The removal `v` once its operation has failed with `e`: it stops.
pub open spec fn after_failure(v: RemoverView, e: Error) -> (RemoverView, ActionView) {
    (
        RemoverView { stack: Seq::empty(), inspecting: None, finished: true, ..v },
        ActionView::Abort(e),
    )
}

/// Keeps the members of a listing other than `.` and `..`, in order.
fn keep_members(es: Vec<Entry>) -> (r: Vec<Entry>)
    ensures
        r@.map_values(|e: Entry| e@) == es@.map_values(|e: Entry| e@).filter(
            |e: EntryView| !is_dot_name(e.name),
        ),
{
    let ghost ev = es@.map_values(|e: Entry| e@);
    let mut out: Vec<Entry> = Vec::new();
    let mut rest = es;
    let mut k: usize = 0;
    let total = rest.len();
    let ghost n = ev.len();
    while rest.len() > 0
        invariant
            k + rest@.len() == n,
            n == total,
            n == ev.len(),
            rest@.map_values(|e: Entry| e@) == ev.subrange(k as int, n as int),
            out@.map_values(|e: Entry| e@) == ev.subrange(0, k as int).filter(|e: EntryView| !is_dot_name(e.name)),
        decreases rest@.len(),
    {
        let ghost before = rest@.map_values(|e: Entry| e@);
        let ghost old_rest = rest@;
        let e = rest.remove(0);
        assert(before[0] == e@);
        assert(ev[k as int] == e@);
        assert(rest@ =~= old_rest.subrange(1, old_rest.len() as int));
        assert forall|i: int| 0 <= i < rest@.len() implies rest@[i]@ == ev[k + 1 + i] by {
            assert(rest@[i] == old_rest[i + 1]);
            assert(before[i + 1] == old_rest[i + 1]@);
        }
        assert(rest@.map_values(|e: Entry| e@) =~= ev.subrange(k + 1, n as int));
        let ghost prev = ev.subrange(0, k as int);
        assert(ev.subrange(0, k + 1).drop_last() =~= prev);
        assert(ev.subrange(0, k + 1).last() == e@);
        let n1 = e.name.len();
        let dot = (n1 == 1 && e.name[0] == 46u8) || (n1 == 2 && e.name[0] == 46u8 && e.name[1]
            == 46u8);
        proof {
            reveal(Seq::filter);
            if n1 == 1 && e.name@[0] == 46u8 {
                assert(e.name@ =~= seq![46u8]);
            }
            if n1 == 2 && e.name@[0] == 46u8 && e.name@[1] == 46u8 {
                assert(e.name@ =~= seq![46u8, 46u8]);
            }
            assert(dot == is_dot_name(e@.name));
            assert(ev.subrange(0, k + 1).filter(|e: EntryView| !is_dot_name(e.name)) == (if !dot {
                prev.filter(|e: EntryView| !is_dot_name(e.name)).push(e@)
            } else {
                prev.filter(|e: EntryView| !is_dot_name(e.name))
            }));
        }
        if !dot {
            out.push(e);
            assert(out@.map_values(|e: Entry| e@) =~= prev.filter(|e: EntryView| !is_dot_name(e.name)).push(ev[k as int]));
        }
        k = k + 1;
    }
    assert(ev.subrange(0, n as int) =~= ev);
    out
}

proof fn lemma_child_under(dir: Seq<u8>, name: Seq<u8>, root: Seq<u8>)
    requires
        is_under(dir, root),
    ensures
        is_under(child_path(dir, name), root),
{
    let c = child_path(dir, name);
    assert(c.subrange(0, dir.len() as int) =~= dir);
    if dir != root {
        assert(c.subrange(0, root.len() as int) =~= dir.subrange(0, root.len() as int));
        assert(c[root.len() as int] == dir[root.len() as int]);
    } else {
        assert(c[root.len() as int] == 47u8);
    }
}

proof fn lemma_advance_wf(v: RemoverView)
    requires
        remover_wf(v),
    ensures
        remover_wf(advance(v).0),
        advance(v).0.root == v.root,
        action_path(advance(v).1) matches Some(p) ==> is_under(p, v.root),
{
    if !v.finished && v.stack.len() > 0 {
        let top = v.stack.last();
        assert(is_under(top.path, v.root));
        if top.listed && top.pending.len() > 0 {
            lemma_child_under(top.path, top.pending.last().name, v.root);
        }
    }
}

/// A directory frame that is still to be listed.
fn unlisted(path: Vec<u8>) -> (f: Frame)
    ensures
        f@ == (FrameView { path: path@, listed: false, pending: Seq::empty() }),
{
    let f = Frame { path, listed: false, pending: Vec::new() };
    assert(f@.pending =~= Seq::<EntryView>::empty());
    f
}

fn copy_bytes(p: &Vec<u8>) -> (r: Vec<u8>)
    ensures
        r@ == p@,
{
    let r = copy_range(p.as_slice(), 0, p.len());
    assert(p@.subrange(0, p@.len() as int) =~= p@);
    r
}

impl Remover {
    /// A removal of the directory at `root`, relative to the handle that it
    /// works on.
    pub fn new(root: &[u8]) -> (r: Remover)
        ensures
            r@.root == root@,
            r@.stack == seq![FrameView { path: root@, listed: false, pending: Seq::empty() }],
            r@.inspecting is None,
            !r@.finished,
            remover_wf(r@),
    {
        let path = copy_range(root, 0, root.len());
        let root_copy = copy_range(root, 0, root.len());
        assert(root@.subrange(0, root@.len() as int) =~= root@);
        let mut stack: Vec<Frame> = Vec::new();
        stack.push(unlisted(path));
        let r = Remover { root: root_copy, stack, inspecting: None, finished: false };
        assert(r@.stack =~= seq![FrameView { path: root@, listed: false, pending: Seq::empty() }]);
        r
    }

    /// The first operation of the removal.
    pub fn start(&mut self) -> (a: RemoveAction)
        requires
            remover_wf(old(self)@),
            old(self)@.inspecting is None,
        ensures
            (final(self)@, a@) == advance(old(self)@),
            remover_wf(final(self)@),
            action_path(a@) matches Some(p) ==> is_under(p, old(self)@.root),
    {
        self.step()
    }

    /// Takes in what came of the last operation, and names the next one.
    pub fn on_event(&mut self, event: RemoveEvent) -> (a: RemoveAction)
        requires
            remover_wf(old(self)@),
        ensures
            (final(self)@, a@) == match event {
                RemoveEvent::Listed(es) => advance(
                    after_listing(old(self)@, es@.map_values(|e: Entry| e@)),
                ),
                RemoveEvent::Stated(t) => after_stat(old(self)@, t),
                RemoveEvent::Removed => advance(old(self)@),
                RemoveEvent::Failed(e) => after_failure(old(self)@, e),
            },
            remover_wf(final(self)@),
            final(self)@.root == old(self)@.root,
            action_path(a@) matches Some(p) ==> is_under(p, old(self)@.root),
    {
        match event {
            RemoveEvent::Failed(e) => {
                self.stack = Vec::new();
                self.inspecting = None;
                self.finished = true;
                assert(self@.stack =~= Seq::<FrameView>::empty());
                RemoveAction::Abort(e)
            },
            RemoveEvent::Removed => self.step(),
            RemoveEvent::Stated(t) => {
                let ghost v = self@;
                match self.inspecting.take() {
                    Some(c) => {
                        if t == SimpleType::Dir {
                            let p = copy_bytes(&c);
                            self.stack.push(unlisted(c));
                            assert(self@.stack =~= v.stack.push(
                                FrameView { path: p@, listed: false, pending: Seq::empty() },
                            ));
                            RemoveAction::List(p)
                        } else {
                            RemoveAction::RemoveFile(c)
                        }
                    },
                    None => self.step(),
                }
            },
            RemoveEvent::Listed(es) => {
                let ghost v = self@;
                let ghost ev = es@.map_values(|e: Entry| e@);
                if self.finished || self.stack.len() == 0 {
                    return self.step();
                }
                let kept = keep_members(es);
                let mut top = match self.stack.pop() {
                    Some(f) => f,
                    None => return RemoveAction::Done,
                };
                top.listed = true;
                top.pending = kept;
                self.stack.push(top);
                assert(self@.stack =~= after_listing(v, ev).stack);
                self.step()
            },
        }
    }

    /// Names the next operation of a removal that is not waiting on a
    /// status.
    fn step(&mut self) -> (a: RemoveAction)
        requires
            remover_wf(old(self)@),
        ensures
            (final(self)@, a@) == advance(old(self)@),
            remover_wf(final(self)@),
            final(self)@.root == old(self)@.root,
            action_path(a@) matches Some(p) ==> is_under(p, old(self)@.root),
    {
        proof {
            lemma_advance_wf(self@);
        }
        let ghost v = self@;
        if self.finished {
            return RemoveAction::Done;
        }
        if self.stack.len() == 0 {
            self.finished = true;
            self.inspecting = None;
            return RemoveAction::Done;
        }
        let mut top = match self.stack.pop() {
            Some(f) => f,
            None => return RemoveAction::Done,
        };
        assert(self@.stack =~= v.stack.drop_last());
        if !top.listed {
            let p = copy_bytes(&top.path);
            self.stack.push(top);
            assert(self@.stack =~= v.stack);
            return RemoveAction::List(p);
        }
        let e = match top.pending.pop() {
            Some(e) => e,
            None => {
                assert(top@.pending.len() == 0);
                return RemoveAction::RemoveDir(top.path);
            },
        };
        let ghost t = v.stack.last();
        assert(top@.pending =~= t.pending.drop_last());
        assert(e@ == t.pending.last());
        assert(top@ == (FrameView { pending: t.pending.drop_last(), ..t }));
        let child = child_path_of(top.path.as_slice(), e.name.as_slice());
        self.stack.push(top);
        let ghost rest = self@.stack;
        assert(rest =~= v.stack.drop_last().push(FrameView { pending: t.pending.drop_last(), ..t }));
        match e.file_type {
            Some(SimpleType::Dir) => {
                let p = copy_bytes(&child);
                self.stack.push(unlisted(child));
                assert(self@.stack =~= rest.push(
                    FrameView { path: p@, listed: false, pending: Seq::empty() },
                ));
                RemoveAction::List(p)
            },
            None | Some(SimpleType::Unknown) => {
                let p = copy_bytes(&child);
                self.inspecting = Some(child);
                RemoveAction::Stat(p)
            },
            _ => RemoveAction::RemoveFile(child),
        }
    }
}

/// The largest counter that the atomic removal tries.
pub const MAX_COUNTER: u32 = 65535;

/// The atomic removal of a directory: it is renamed to the first candidate
/// name that is free, in one step, and only then removed under that name.
///
/// Drive it with `start` and then `on_rename`: each `Rename` names where to
/// rename the directory, and the caller reports whether that worked.
#[derive(Debug)]
pub struct AtomicRemove {
    /// The directory to remove.
    pub path: Vec<u8>,
    /// Where to rename it to; empty for in place.
    pub staging: Vec<u8>,
    /// The counter of the next candidate name.
    pub next: u32,
    /// The candidate whose rename has been asked for and not yet answered.
    pub pending: Option<Vec<u8>>,
}

/// The mathematical form of an `AtomicRemove`.
pub struct AtomicView {
    pub path: Seq<u8>,
    pub staging: Seq<u8>,
    pub next: nat,
    pub pending: Option<Seq<u8>>,
}

impl View for AtomicRemove {
    type V = AtomicView;

    open spec fn view(&self) -> AtomicView {
        AtomicView {
            path: self.path@,
            staging: self.staging@,
            next: self.next as nat,
            pending: match self.pending {
                Some(c) => Some(c@),
                None => None,
            },
        }
    }
}

/// The next step of an atomic removal.
#[derive(Debug)]
pub enum AtomicAction {
    /// Rename the directory to this name, and report whether that worked.
    Rename(Vec<u8>),
    /// The directory now has the renamed name: remove it with this removal.
    Remove(Remover),
    /// The atomic removal stops on this error; nothing has been removed.
    Abort(Error),
}

/// The mathematical form of an `AtomicAction`.
pub enum AtomicActionView {
    Rename(Seq<u8>),
    Remove(RemoverView),
    Abort(Error),
}

impl View for AtomicAction {
    type V = AtomicActionView;

    open spec fn view(&self) -> AtomicActionView {
        match self {
            AtomicAction::Rename(c) => AtomicActionView::Rename(c@),
            AtomicAction::Remove(r) => AtomicActionView::Remove(r@),
            AtomicAction::Abort(e) => AtomicActionView::Abort(*e),
        }
    }
}

/// Whether the atomic removal of `path` through `staging` can be planned:
/// no nul byte in either, and an entry name that names an entry.
pub open spec fn atomic_removable(path: Seq<u8>, staging: Seq<u8>) -> bool {
    !has_nul(path) && !has_nul(staging) && usable_name(entry_name(path))
}

/// An atomic removal that has tried nothing yet.
pub open spec fn fresh_atomic(path: Seq<u8>, staging: Seq<u8>) -> AtomicView {
    AtomicView { path, staging, next: 0, pending: None }
}

/// A removal of `root` that has done nothing yet.
pub open spec fn fresh_remover(root: Seq<u8>) -> RemoverView {
    RemoverView {
        root,
        stack: seq![FrameView { path: root, listed: false, pending: Seq::empty() }],
        inspecting: None,
        finished: false,
    }
}

/// The candidates of an atomic removal are those of its path, tried in
/// order; the one asked for last is the one before `next`.
pub open spec fn atomic_wf(v: AtomicView) -> bool {
    &&& usable_name(entry_name(v.path))
    &&& v.next <= MAX_COUNTER + 1
    &&& (v.pending matches Some(c) ==> v.next >= 1 && c == candidate(
        v.path,
        v.staging,
        (v.next - 1) as nat,
    ))
}

/// What an atomic removal does when told whether the last rename worked:
/// a rename that worked ends the search and the directory is removed under
/// that name; otherwise the next candidate is tried, until none is left.
pub open spec fn rename_step(v: AtomicView, renamed: bool) -> (AtomicView, AtomicActionView) {
    if renamed && v.pending is Some {
        (
            AtomicView { pending: None, ..v },
            AtomicActionView::Remove(fresh_remover(v.pending->Some_0)),
        )
    } else if v.next <= MAX_COUNTER {
        let c = candidate(v.path, v.staging, v.next);
        (AtomicView { next: v.next + 1, pending: Some(c), ..v }, AtomicActionView::Rename(c))
    } else {
        (AtomicView { pending: None, ..v }, AtomicActionView::Abort(Error::Exhausted))
    }
}

fn copy_bytes_of(p: &Vec<u8>) -> (r: Vec<u8>)
    ensures
        r@ == p@,
{
    let r = copy_range(p.as_slice(), 0, p.len());
    assert(p@.subrange(0, p@.len() as int) =~= p@);
    r
}

impl AtomicRemove {
    /// The first step: rename to the first candidate.
    pub fn start(&mut self) -> (a: AtomicAction)
        requires
            atomic_wf(old(self)@),
        ensures
            atomic_wf(final(self)@),
            (final(self)@, a@) == rename_step(old(self)@, false),
    {
        self.on_rename(false)
    }

    /// Takes in whether the last rename worked, and names the next step.
    pub fn on_rename(&mut self, renamed: bool) -> (a: AtomicAction)
        requires
            atomic_wf(old(self)@),
        ensures
            atomic_wf(final(self)@),
            (final(self)@, a@) == rename_step(old(self)@, renamed),
    {
        if renamed {
            match self.pending.take() {
                Some(c) => {
                    let r = Remover::new(c.as_slice());
                    assert(r@ == fresh_remover(c@));
                    return AtomicAction::Remove(r);
                },
                None => {},
            }
        }
        if self.next > MAX_COUNTER {
            self.pending = None;
            return AtomicAction::Abort(Error::Exhausted);
        }
        let c = match removal_candidate(self.path.as_slice(), self.staging.as_slice(), self.next as u16) {
            Ok(c) => c,
            Err(e) => return AtomicAction::Abort(e),
        };
        self.pending = Some(copy_bytes_of(&c));
        self.next = self.next + 1;
        AtomicAction::Rename(c)
    }
}

impl Dir {
    /// Plans removing the directory `path` with all it holds: members
    /// before the directory that holds them. A failure stops the removal
    /// and leaves what was removed removed.
    pub fn remove_recursive(&self, path: &[u8]) -> (r: Result<Remover, Error>)
        ensures
            has_nul(path@) <==> r is Err,
            r is Err ==> r->Err_0 == Error::InvalidInput,
            r is Ok ==> r->Ok_0@ == fresh_remover(path@),
            r is Ok ==> remover_wf(r->Ok_0@),
    {
        match to_cstr(path) {
            Ok(_) => {
                let r = Remover::new(path);
                assert(r@ == fresh_remover(path@));
                Ok(r)
            },
            Err(e) => Err(e),
        }
    }

    /// Plans removing the directory `path` so that its name disappears in
    /// one step: it is first renamed, inside `staging` when that is not
    /// empty, else in place, to its name with the extension replaced by a
    /// counter from 0 up to `MAX_COUNTER`; the first rename that works ends
    /// the search, and the renamed directory is then removed. When no
    /// rename works the removal fails with `Error::Exhausted`.
    pub fn remove_recursive_atomic(&self, path: &[u8], staging: &[u8]) -> (r: Result<
        AtomicRemove,
        Error,
    >)
        ensures
            atomic_removable(path@, staging@) <==> r is Ok,
            r is Err ==> r->Err_0 == Error::InvalidInput,
            r is Ok ==> r->Ok_0@ == fresh_atomic(path@, staging@) && atomic_wf(r->Ok_0@),
    {
        if to_cstr(path).is_err() || to_cstr(staging).is_err() {
            return Err(Error::InvalidInput);
        }
        if removal_candidate(path, staging, 0).is_err() {
            return Err(Error::InvalidInput);
        }
        let p = copy_range(path, 0, path.len());
        let s = copy_range(staging, 0, staging.len());
        assert(path@.subrange(0, path@.len() as int) =~= path@);
        assert(staging@.subrange(0, staging@.len() as int) =~= staging@);
        Ok(AtomicRemove { path: p, staging: s, next: 0, pending: None })
    }
}

/// The atomic removal after it has started and then been told of `n` - 1
/// failed renames: `n` steps without a successful rename.
pub open spec fn after_failures(path: Seq<u8>, staging: Seq<u8>, n: nat) -> AtomicView
    decreases n,
{
    if n == 0 {
        fresh_atomic(path, staging)
    } else {
        rename_step(after_failures(path, staging, (n - 1) as nat), false).0
    }
}

proof fn lemma_after_failures(path: Seq<u8>, staging: Seq<u8>, n: nat)
    requires
        n <= MAX_COUNTER + 1,
    ensures
        after_failures(path, staging, n).path == path,
        after_failures(path, staging, n).staging == staging,
        after_failures(path, staging, n).next == n,
        n == 0 ==> after_failures(path, staging, n).pending is None,
        n > 0 ==> after_failures(path, staging, n).pending == Some(
            candidate(path, staging, (n - 1) as nat),
        ),
    decreases n,
{
    if n > 0 {
        lemma_after_failures(path, staging, (n - 1) as nat);
    }
}

/// The steps of an atomic removal: candidates are tried in increasing
/// order, and nothing is removed before a rename has worked. When the
/// rename to candidate `k` is the first that works, the removal then works
/// on that name alone; when renames to all candidates from 0 to
/// `MAX_COUNTER` fail, it fails with `Error::Exhausted`.
pub proof fn lemma_atomic_removal_steps(path: Seq<u8>, staging: Seq<u8>, k: nat)
    ensures
        !(rename_step(after_failures(path, staging, k), false).1 is Remove),
        k <= MAX_COUNTER ==> rename_step(after_failures(path, staging, k), false).1
            == AtomicActionView::Rename(candidate(path, staging, k)),
        k <= MAX_COUNTER ==> rename_step(after_failures(path, staging, k + 1), true).1
            == AtomicActionView::Remove(fresh_remover(candidate(path, staging, k))),
        rename_step(after_failures(path, staging, (MAX_COUNTER + 1) as nat), false).1
            == AtomicActionView::Abort(Error::Exhausted),
{
    lemma_after_failures(path, staging, (MAX_COUNTER + 1) as nat);
    if k <= MAX_COUNTER {
        lemma_after_failures(path, staging, k);
        lemma_after_failures(path, staging, k + 1);
    }
}

/// A directory is removed only once it has been listed and all the members
/// of that listing have been dealt with; its members come first.
pub proof fn lemma_dir_removed_after_members(v: RemoverView)
    ensures
        advance(v).1 matches ActionView::RemoveDir(p) ==> {
            &&& v.stack.len() > 0
            &&& p == v.stack.last().path
            &&& v.stack.last().listed
            &&& v.stack.last().pending.len() == 0
        },
{
}

/// Removing `path` in place hides its name in one step: when its entry
/// name has no extension, nothing that the removal of a candidate name
/// works on is that entry or lies below it.
pub proof fn lemma_atomic_removal_hides_name(path: Seq<u8>, counter: nat, p: Seq<u8>)
    requires
        last_dot(entry_name(path)) <= 0,
        is_under(p, candidate(path, Seq::empty(), counter)),
    ensures
        p != trim_slashes(path),
        !is_under(p, trim_slashes(path)),
{
    lemma_candidate_in_place(path, counter);
    let t = trim_slashes(path);
    let c = candidate(path, Seq::empty(), counter);
    assert(c[t.len() as int] == 46u8);
    if p != c {
        assert(p.subrange(0, c.len() as int) == c);
        assert(p[t.len() as int] == p.subrange(0, c.len() as int)[t.len() as int]);
    }
    assert(p.len() >= c.len());
    assert(p[t.len() as int] == 46u8);
}

} // verus!
