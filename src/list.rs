//! The directory iterator: what each read of the native stream yields, and
//! the life of the stream that the iterator and its entries share.
use vstd::prelude::*;

use crate::dir::{Call, SysCall, on_path, plan};
use crate::error::Error;
use crate::path::{cstr, has_nul, to_cstr};
use crate::sys::{
    at_symlink_nofollow, dt_dir, dt_lnk, dt_reg, dt_unknown, ebadf, spec_at_symlink_nofollow,
    spec_dt_dir, spec_dt_lnk, spec_dt_reg, spec_dt_unknown, spec_ebadf,
};

verus! {

/// The coarse type of a directory member.
#[derive(Clone, Copy, Debug, PartialEq, Eq, Structural)]
pub enum SimpleType {
    Symlink,
    Dir,
    File,
    Other,
    Unknown,
}

/// The type that a directory entry's type tag gives, if the tag gives one.
pub open spec fn type_of_tag(d_type: u8) -> Option<SimpleType> {
    if d_type == spec_dt_unknown() {
        None
    } else if d_type == spec_dt_reg() {
        Some(SimpleType::File)
    } else if d_type == spec_dt_dir() {
        Some(SimpleType::Dir)
    } else if d_type == spec_dt_lnk() {
        Some(SimpleType::Symlink)
    } else {
        Some(SimpleType::Other)
    }
}

/// Reads a directory entry's type tag.
pub fn simple_type_of_tag(d_type: u8) -> (r: Option<SimpleType>)
    ensures
        r == type_of_tag(d_type),
{
    if d_type == dt_unknown() {
        None
    } else if d_type == dt_reg() {
        Some(SimpleType::File)
    } else if d_type == dt_dir() {
        Some(SimpleType::Dir)
    } else if d_type == dt_lnk() {
        Some(SimpleType::Symlink)
    } else {
        Some(SimpleType::Other)
    }
}

/// Whether `name` is `.` or `..`, which the iterator never yields.
pub open spec fn is_dot_name(name: Seq<u8>) -> bool {
    name == seq![46u8] || name == seq![46u8, 46u8]
}

/// One member of a directory, as a read of the stream saw it.
#[derive(Debug)]
pub struct Entry {
    /// The name: bytes, not necessarily text, without a nul.
    pub name: Vec<u8>,
    /// The type, when the stream reported one.
    pub file_type: Option<SimpleType>,
    /// The inode number.
    pub ino: u64,
}

/// The mathematical form of an `Entry`.
pub struct EntryView {
    pub name: Seq<u8>,
    pub file_type: Option<SimpleType>,
    pub ino: u64,
}

impl View for Entry {
    type V = EntryView;

    open spec fn view(&self) -> EntryView {
        EntryView { name: self.name@, file_type: self.file_type, ino: self.ino }
    }
}

impl Entry {
    /// The name of the entry.
    pub fn file_name(&self) -> (r: &[u8])
        ensures
            r@ == self.name@,
    {
        self.name.as_slice()
    }

    /// The type of the entry, if the stream reported one.
    pub fn simple_type(&self) -> (r: Option<SimpleType>)
        ensures
            r == self.file_type,
    {
        self.file_type
    }

    /// The inode number of the entry.
    pub fn inode(&self) -> (r: u64)
        ensures
            r == self.ino,
    {
        self.ino
    }

    /// Plans reading the entry's status relative to the stream it came
    /// from, whose descriptor is `stream_fd`; `None` once the stream has
    /// been closed, which fails with a bad-descriptor error.
    pub fn metadata(&self, stream_fd: Option<i32>) -> (r: Result<SysCall, Error>)
        ensures
            plan(r) == match stream_fd {
                None => Err::<Call, Error>(Error::Os(spec_ebadf())),
                Some(fd) => on_path(
                    self.name@,
                    Call::FstatAt {
                        dirfd: fd,
                        path: cstr(self.name@),
                        flags: spec_at_symlink_nofollow(),
                    },
                ),
            },
    {
        match stream_fd {
            None => Err(Error::Os(ebadf())),
            Some(fd) => match to_cstr(self.name.as_slice()) {
                Ok(p) => Ok(SysCall::FstatAt { dirfd: fd, path: p, flags: at_symlink_nofollow() }),
                Err(e) => Err(e),
            },
        }
    }
}

/// What one read of the native stream reported.
pub enum ReadOutcome {
    /// A member: its name without the nul, its type tag and inode number.
    Entry { name: Vec<u8>, d_type: u8, ino: u64 },
    /// No member is left: the read returned nothing and set no error.
    End,
    /// The read returned nothing and set this error number.
    Failed(i32),
}

/// The mathematical form of a `ReadOutcome`.
pub enum ReadView {
    Entry { name: Seq<u8>, d_type: u8, ino: u64 },
    End,
    Failed(i32),
}

impl View for ReadOutcome {
    type V = ReadView;

    open spec fn view(&self) -> ReadView {
        match self {
            ReadOutcome::Entry { name, d_type, ino } => ReadView::Entry {
                name: name@,
                d_type: *d_type,
                ino: *ino,
            },
            ReadOutcome::End => ReadView::End,
            ReadOutcome::Failed(e) => ReadView::Failed(*e),
        }
    }
}

/// Where an iterator stands.
#[derive(Clone, Copy, Debug, PartialEq, Eq, Structural)]
pub enum IterState {
    /// Reads go on.
    Open,
    /// The stream reported its end.
    Ended,
    /// A read failed; the stream's state is unknown, so no read follows.
    Failed,
    /// The stream has been closed.
    Closed,
}

/// What a read made of the iterator's next item.
pub enum Step {
    /// A `.` or `..` entry: read again.
    Skip,
    /// The next item.
    Yield(Entry),
    /// No more items.
    End,
    /// The read failed.
    Error(Error),
}

/// The mathematical form of a `Step`.
pub enum StepView {
    Skip,
    Yield(EntryView),
    End,
    Error(Error),
}

impl View for Step {
    type V = StepView;

    open spec fn view(&self) -> StepView {
        match self {
            Step::Skip => StepView::Skip,
            Step::Yield(e) => StepView::Yield(e@),
            Step::End => StepView::End,
            Step::Error(e) => StepView::Error(*e),
        }
    }
}

/// What an open iterator makes of a read: its next state and the step.
pub open spec fn read_step(read: ReadView) -> (IterState, StepView) {
    match read {
        ReadView::Entry { name, d_type, ino } => if is_dot_name(name) {
            (IterState::Open, StepView::Skip)
        } else {
            (
                IterState::Open,
                StepView::Yield(EntryView { name, file_type: type_of_tag(d_type), ino }),
            )
        },
        ReadView::End => (IterState::Ended, StepView::End),
        ReadView::Failed(e) => (IterState::Failed, StepView::Error(Error::Os(e))),
    }
}

/// What an iterator that reads no more yields: nothing once ended or
/// failed, a bad-descriptor error once closed.
pub open spec fn idle_item(state: IterState) -> Option<Result<EntryView, Error>> {
    if state == IterState::Closed {
        Some(Err(Error::Os(spec_ebadf())))
    } else {
        None
    }
}

/// What closing does from `state`: the state after, and whether the native
/// stream must be closed now.
pub open spec fn close_step(state: IterState) -> (IterState, bool) {
    (IterState::Closed, state != IterState::Closed)
}

/// What a position query from `state` gives, with `told` the value that the
/// native query returned and `errno` its error number.
pub open spec fn position_of(state: IterState, told: i64, errno: i32) -> Result<DirPosition, Error> {
    if state == IterState::Closed {
        Err(Error::Os(spec_ebadf()))
    } else if told == -1 {
        Err(Error::Os(errno))
    } else {
        Ok(DirPosition { pos: told })
    }
}

/// What seeking to `pos` does from `state`: the state after, and the offset
/// to hand to the native seek, if it is to be made.
pub open spec fn seek_step(state: IterState, pos: i64) -> (IterState, Option<i64>) {
    match state {
        IterState::Closed => (IterState::Closed, None),
        IterState::Failed => (IterState::Failed, Some(pos)),
        _ => (IterState::Open, Some(pos)),
    }
}

/// A position in a listing, as obtained from `DirIter::current_position`.
/// It is valid only for the iterator it came from.
#[derive(Clone, Copy, Debug, PartialEq, Eq, Structural)]
pub struct DirPosition {
    pub pos: i64,
}

/// An iterator over the members of a directory, other than `.` and `..`.
///
/// The native stream itself is held by the caller, who reads it when
/// `needs_read` says so and hands each outcome to `next_entry`.
#[derive(Debug)]
pub struct DirIter {
    pub state: IterState,
}

/// The iterator over a stream that opening produced: `opened` tells
/// whether the stream could be opened, `errno` why not.
pub fn open_dirfd(opened: bool, errno: i32) -> (r: Result<DirIter, Error>)
    ensures
        opened ==> r is Ok && r->Ok_0.state == IterState::Open,
        !opened ==> r is Err && r->Err_0 == Error::Os(errno),
{
    if opened {
        Ok(DirIter { state: IterState::Open })
    } else {
        Err(Error::Os(errno))
    }
}

impl DirIter {
    /// Whether the next item needs a read of the stream.
    pub fn needs_read(&self) -> (r: bool)
        ensures
            r == (self.state == IterState::Open),
    {
        self.state == IterState::Open
    }

    /// Takes in one read of the stream.
    ///
    /// A name that a read reports comes from a C string, so it holds no nul
    /// byte; neither does the entry made from it.
    pub fn next_entry(&mut self, read: ReadOutcome) -> (r: Step)
        requires
            old(self).state == IterState::Open,
            read@ matches ReadView::Entry { name, .. } ==> !has_nul(name),
        ensures
            (final(self).state, r@) == read_step(read@),
            r@ matches StepView::Yield(e) ==> !has_nul(e.name),
    {
        match read {
            ReadOutcome::Entry { name, d_type, ino } => {
                let n = name.len();
                if (n == 1 && name[0] == 46u8) || (n == 2 && name[0] == 46u8 && name[1] == 46u8) {
                    proof {
                        if n == 1 {
                            assert(name@ =~= seq![46u8]);
                        }
                        if n == 2 {
                            assert(name@ =~= seq![46u8, 46u8]);
                        }
                    }
                    Step::Skip
                } else {
                    proof {
                        if name@ == seq![46u8] {
                            assert(name@[0] == 46u8);
                        }
                        if name@ == seq![46u8, 46u8] {
                            assert(name@[0] == 46u8 && name@[1] == 46u8);
                        }
                    }
                    Step::Yield(Entry { name, file_type: simple_type_of_tag(d_type), ino })
                }
            },
            ReadOutcome::End => {
                self.state = IterState::Ended;
                Step::End
            },
            ReadOutcome::Failed(e) => {
                self.state = IterState::Failed;
                Step::Error(Error::Os(e))
            },
        }
    }

    /// The next item of an iterator that reads no more.
    pub fn idle_next(&self) -> (r: Option<Result<Entry, Error>>)
        requires
            self.state != IterState::Open,
        ensures
            r is None <==> idle_item(self.state) is None,
            r is Some ==> r->Some_0 is Err && idle_item(self.state) == Some(
                Err::<EntryView, Error>(r->Some_0->Err_0),
            ),
    {
        if self.state == IterState::Closed {
            Some(Err(Error::Os(ebadf())))
        } else {
            None
        }
    }

    /// Closes the iterator. Only the first call closes the native stream:
    /// closing again, or after the end, is harmless.
    pub fn close(&mut self) -> (must_close: bool)
        ensures
            (final(self).state, must_close) == close_step(old(self).state),
    {
        let must_close = self.state != IterState::Closed;
        self.state = IterState::Closed;
        must_close
    }

    /// The position of the iterator, from what the native query returned.
    pub fn current_position(&self, told: i64, errno: i32) -> (r: Result<DirPosition, Error>)
        ensures
            r == position_of(self.state, told, errno),
    {
        if self.state == IterState::Closed {
            Err(Error::Os(ebadf()))
        } else if told == -1 {
            Err(Error::Os(errno))
        } else {
            Ok(DirPosition { pos: told })
        }
    }

    /// Returns to `position`: gives the offset for the native seek, which
    /// cannot fail. A seek reopens an ended listing.
    pub fn seek(&mut self, position: DirPosition) -> (r: Option<i64>)
        ensures
            (final(self).state, r) == seek_step(old(self).state, position.pos),
    {
        match self.state {
            IterState::Closed => None,
            IterState::Failed => Some(position.pos),
            _ => {
                self.state = IterState::Open;
                Some(position.pos)
            },
        }
    }

    /// Returns to the start: whether the native rewind is to be made.
    pub fn rewind(&mut self) -> (r: bool)
        ensures
            (final(self).state, r) == (match old(self).state {
                IterState::Closed => (IterState::Closed, false),
                IterState::Failed => (IterState::Failed, true),
                _ => (IterState::Open, true),
            }),
    {
        match self.state {
            IterState::Closed => false,
            IterState::Failed => true,
            _ => {
                self.state = IterState::Open;
                true
            },
        }
    }
}

/// The names that an open iterator yields from reads of members named
/// `names`, in that order.
pub open spec fn listed(names: Seq<Seq<u8>>) -> Seq<Seq<u8>>
    decreases names.len(),
{
    if names.len() == 0 {
        Seq::empty()
    } else {
        let before = listed(names.drop_last());
        match read_step(ReadView::Entry { name: names.last(), d_type: 0, ino: 0 }).1 {
            StepView::Yield(e) => before.push(e.name),
            _ => before,
        }
    }
}

/// A listing yields exactly the members other than `.` and `..`, in the
/// order in which the stream reported them.
pub proof fn lemma_listing_skips_dots(names: Seq<Seq<u8>>)
    ensures
        listed(names) == names.filter(|n: Seq<u8>| !is_dot_name(n)),
    decreases names.len(),
{
    reveal(Seq::filter);
    if names.len() > 0 {
        lemma_listing_skips_dots(names.drop_last());
    }
}

/// Closing twice, or closing after the end of the listing, closes the
/// native stream exactly once and never fails.
pub proof fn lemma_close_idempotent(state: IterState)
    ensures
        close_step(state).0 == IterState::Closed,
        close_step(state).1 == (state != IterState::Closed),
        close_step(close_step(state).0) == (IterState::Closed, false),
        close_step(IterState::Ended) == (IterState::Closed, true),
{
}

/// Seeking to the position just read hands the native seek the very value
/// that the position query returned, and leaves a listing that has not
/// failed open for the next read.
pub proof fn lemma_position_round_trip(state: IterState, told: i64, errno: i32)
    requires
        state != IterState::Closed,
        told != -1,
    ensures
        position_of(state, told, errno) == Ok::<DirPosition, Error>(DirPosition { pos: told }),
        seek_step(state, position_of(state, told, errno)->Ok_0.pos).1 == Some(told),
        state != IterState::Failed ==> seek_step(state, told).0 == IterState::Open,
{
}

/// A failed read is reported as an error, never taken for the end of the
/// listing; the listing then yields nothing more. Reading a restricted
/// handle's stream fails, so listing one never looks like an empty
/// directory.
pub proof fn lemma_failed_read_reported(errno: i32)
    ensures
        read_step(ReadView::Failed(errno)) == (IterState::Failed, StepView::Error(Error::Os(errno))),
        idle_item(IterState::Failed) is None,
{
}

} // verus!
