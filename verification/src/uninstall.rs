//! The uninstall helper: its arguments, the lexical normalization of the
//! directory it is given, and the decisions of removing that directory once
//! the tray process has exited.
use vstd::prelude::*;
use crate::setup::{spec_same_path, validate_uninstall_dir};
use crate::text::{owned, parse_u32, push_str, spec_parse_u32};

verus! {

/// Milliseconds the helper waits for the tray process, and then keeps trying
/// to remove the directory.
pub const REMOVAL_WINDOW_MS: u64 = 8000;
/// Milliseconds between two removal attempts.
pub const REMOVAL_RETRY_MS: u64 = 350;

/// The error of a helper started with fewer than two arguments.
pub open spec fn missing_arguments_message() -> Seq<char> {
    "missing uninstall helper arguments"@
}

/// The helper's arguments: the process id to wait for (first argument, in
/// decimal) and the directory to remove (second argument).
pub open spec fn spec_helper_args(args: Seq<Seq<char>>) -> Result<(u32, Seq<char>), Seq<char>> {
    if args.len() < 2 {
        Err(missing_arguments_message())
    } else {
        match spec_parse_u32(args[0]) {
            Ok(pid) => Ok((pid, args[1])),
            Err(m) => Err(m),
        }
    }
}

/// Reads the helper's arguments, or gives the message of the error.
pub fn helper_args(args: &Vec<String>) -> (r: Result<(u32, String), String>)
    ensures
        match r {
            Ok((pid, dir)) => spec_helper_args(args@.map_values(|a: String| a@)) == Ok::<
                (u32, Seq<char>),
                Seq<char>,
            >((pid, dir@)),
            Err(m) => spec_helper_args(args@.map_values(|a: String| a@)) == Err::<
                (u32, Seq<char>),
                Seq<char>,
            >(m@),
        },
{
    let ghost views = args@.map_values(|a: String| a@);
    if args.len() < 2 {
        return Err(owned("missing uninstall helper arguments"));
    }
    assert(views[0] == args@[0]@ && views[1] == args@[1]@);
    match parse_u32(args[0].as_str()) {
        Ok(pid) => Ok((pid, args[1].clone())),
        Err(m) => Err(m),
    }
}

/// A component of a path, as `std::path::Component` tells them apart.
pub enum PathPart {
    Prefix(String),
    Root,
    Current,
    Parent,
    Normal(String),
}

/// The model of a path component.
pub enum PathPartModel {
    Prefix(Seq<char>),
    Root,
    Current,
    Parent,
    Normal(Seq<char>),
}

impl View for PathPart {
    type V = PathPartModel;

    open spec fn view(&self) -> PathPartModel {
        match self {
            PathPart::Prefix(t) => PathPartModel::Prefix(t@),
            PathPart::Root => PathPartModel::Root,
            PathPart::Current => PathPartModel::Current,
            PathPart::Parent => PathPartModel::Parent,
            PathPart::Normal(t) => PathPartModel::Normal(t@),
        }
    }
}

/// The views of a sequence of path components.
pub open spec fn part_views(parts: Seq<PathPart>) -> Seq<PathPartModel> {
    parts.map_values(|p: PathPart| p@)
}

/// The lexical normalization of a path's components, read from the left:
/// `.` is dropped, `..` removes the component before it when that is a
/// name (never a prefix or the root), and every other component is kept.
pub open spec fn fold_parts(parts: Seq<PathPartModel>) -> Seq<PathPartModel>
    decreases parts.len(),
{
    if parts.len() == 0 {
        Seq::empty()
    } else {
        let kept = fold_parts(parts.drop_last());
        match parts.last() {
            PathPartModel::Current => kept,
            PathPartModel::Parent => if kept.len() > 0 && kept.last() is Normal {
                kept.drop_last()
            } else {
                kept
            },
            other => kept.push(other),
        }
    }
}

fn copy_part(part: &PathPart) -> (c: PathPart)
    ensures
        c@ == part@,
{
    match part {
        PathPart::Prefix(t) => PathPart::Prefix(t.clone()),
        PathPart::Root => PathPart::Root,
        PathPart::Current => PathPart::Current,
        PathPart::Parent => PathPart::Parent,
        PathPart::Normal(t) => PathPart::Normal(t.clone()),
    }
}

/// The components of a path after lexical normalization (no `.`, and each
/// `..` applied to the name before it).
pub fn normalized_components(parts: &Vec<PathPart>) -> (out: Vec<PathPart>)
    ensures
        part_views(out@) == fold_parts(part_views(parts@)),
{
    let mut out: Vec<PathPart> = Vec::new();
    let mut i: usize = 0;
    while i < parts.len()
        invariant
            i <= parts.len(),
            part_views(out@) == fold_parts(part_views(parts@).take(i as int)),
        decreases parts.len() - i,
    {
        let ghost before = part_views(out@);
        let ghost now = part_views(parts@).take(i + 1);
        assert(now.drop_last() =~= part_views(parts@).take(i as int));
        assert(now.last() == parts@[i as int]@);
        match &parts[i] {
            PathPart::Current => {},
            PathPart::Parent => {
                let last_is_name = match out.last() {
                    Some(PathPart::Normal(_)) => true,
                    _ => false,
                };
                if last_is_name {
                    out.pop();
                    assert(part_views(out@) =~= before.drop_last());
                }
            },
            other => {
                let c = copy_part(other);
                out.push(c);
                assert(part_views(out@) =~= before.push(c@));
            },
        }
        i = i + 1;
    }
    assert(part_views(parts@).take(parts@.len() as int) =~= part_views(parts@));
    out
}

/// Where a removal stands.
#[derive(Debug, Clone, Copy, PartialEq, Eq, Structural)]
pub enum RemovalPhase {
    /// Nothing done yet.
    Ready,
    /// Waiting for the tray process to exit.
    Waiting,
    /// The directory is being removed.
    Removing,
    /// A removal failed; pausing before the next one.
    Sleeping,
    /// The removal is over.
    Done,
}

/// What the removal tells its caller to do next.
pub enum RemovalAction {
    /// Wait this many milliseconds at most for the process with this id to exit.
    WaitForProcess(u32, u64),
    /// Remove the directory with all it holds.
    RemoveDir,
    /// Sleep this many milliseconds.
    Sleep(u64),
    /// The removal is over: removed, or the message of the failure.
    Finished(Result<(), String>),
}

/// The outcome of the last action, handed back to the removal. Times are
/// milliseconds on a clock that does not go back.
pub enum RemovalEvent {
    /// The removal begins.
    Start,
    /// The wait is over, at this time.
    Waited(u64),
    /// The directory was removed.
    Removed,
    /// The removal failed with this error; the flag tells whether the
    /// directory still exists.
    RemoveFailed(String, bool),
    /// The sleep is over, at this time.
    Slept(u64),
}

/// The model of an action.
#[verifier::ext_equal]
pub enum RemovalActionModel {
    WaitForProcess(u32, int),
    RemoveDir,
    Sleep(int),
    Finished(Result<(), Seq<char>>),
}

/// The model of an event.
pub enum RemovalEventModel {
    Start,
    Waited(int),
    Removed,
    RemoveFailed(Seq<char>, bool),
    Slept(int),
}

impl View for RemovalAction {
    type V = RemovalActionModel;

    open spec fn view(&self) -> RemovalActionModel {
        match self {
            RemovalAction::WaitForProcess(pid, ms) => RemovalActionModel::WaitForProcess(
                *pid,
                *ms as int,
            ),
            RemovalAction::RemoveDir => RemovalActionModel::RemoveDir,
            RemovalAction::Sleep(ms) => RemovalActionModel::Sleep(*ms as int),
            RemovalAction::Finished(r) => RemovalActionModel::Finished(
                match r {
                    Ok(()) => Ok(()),
                    Err(m) => Err(m@),
                },
            ),
        }
    }
}

impl View for RemovalEvent {
    type V = RemovalEventModel;

    open spec fn view(&self) -> RemovalEventModel {
        match self {
            RemovalEvent::Start => RemovalEventModel::Start,
            RemovalEvent::Waited(t) => RemovalEventModel::Waited(*t as int),
            RemovalEvent::Removed => RemovalEventModel::Removed,
            RemovalEvent::RemoveFailed(e, exists) => RemovalEventModel::RemoveFailed(e@, *exists),
            RemovalEvent::Slept(t) => RemovalEventModel::Slept(*t as int),
        }
    }
}

/// The model of a removal: the process to wait for, the directory, the time
/// by which it must be removed, the error of the last failed attempt, and
/// where the removal stands.
#[verifier::ext_equal]
pub struct RemovalModel {
    pub pid: u32,
    pub dir: Seq<char>,
    pub deadline: int,
    pub last_error: Option<Seq<char>>,
    pub phase: RemovalPhase,
}

/// The refusal of a directory that is not the install directory.
pub open spec fn refusal_message(requested: Seq<char>, install_dir: Seq<char>) -> Seq<char> {
    "refusing to remove "@ + requested + ", expected "@ + install_dir
}

/// The error of a removal that ran out of time.
pub open spec fn gave_up_message(dir: Seq<char>, last_error: Option<Seq<char>>) -> Seq<char> {
    "uninstall cleaned up startup entries, but could not remove "@ + dir + ": "@
        + match last_error {
        Some(e) => e,
        None => "unknown error"@,
    }
}

/// The event is the answer the removal waits for in its phase.
pub open spec fn spec_removal_awaits(m: RemovalModel, e: RemovalEventModel) -> bool {
    match m.phase {
        RemovalPhase::Ready => e is Start,
        RemovalPhase::Waiting => e is Waited,
        RemovalPhase::Removing => e is Removed || e is RemoveFailed,
        RemovalPhase::Sleeping => e is Slept,
        RemovalPhase::Done => false,
    }
}

/// At time `now`: remove again before the deadline, else give up.
pub open spec fn try_or_give_up(m: RemovalModel, now: int) -> (RemovalModel, RemovalActionModel) {
    if now < m.deadline {
        (RemovalModel { phase: RemovalPhase::Removing, ..m }, RemovalActionModel::RemoveDir)
    } else {
        (
            RemovalModel { phase: RemovalPhase::Done, ..m },
            RemovalActionModel::Finished(Err(gave_up_message(m.dir, m.last_error))),
        )
    }
}

/// One step of the removal. It first waits up to 8 s for the process; from
/// the end of the wait it has 8 s. A removal that succeeds, or that fails
/// when the directory no longer exists, finishes with success; any other
/// failure keeps its error and sleeps 350 ms; before the deadline it removes
/// again, at or after it, it gives up with the last error.
pub open spec fn spec_removal(m: RemovalModel, e: RemovalEventModel) -> (
    RemovalModel,
    RemovalActionModel,
) {
    match e {
        RemovalEventModel::Start => (
            RemovalModel { phase: RemovalPhase::Waiting, ..m },
            RemovalActionModel::WaitForProcess(m.pid, REMOVAL_WINDOW_MS as int),
        ),
        RemovalEventModel::Waited(now) => {
            let deadline = if now + REMOVAL_WINDOW_MS <= u64::MAX {
                now + REMOVAL_WINDOW_MS
            } else {
                u64::MAX as int
            };
            try_or_give_up(RemovalModel { deadline, ..m }, now)
        },
        RemovalEventModel::Removed => (
            RemovalModel { phase: RemovalPhase::Done, ..m },
            RemovalActionModel::Finished(Ok(())),
        ),
        RemovalEventModel::RemoveFailed(err, still_exists) => if !still_exists {
            (RemovalModel { phase: RemovalPhase::Done, ..m }, RemovalActionModel::Finished(Ok(())))
        } else {
            (
                RemovalModel { last_error: Some(err), phase: RemovalPhase::Sleeping, ..m },
                RemovalActionModel::Sleep(REMOVAL_RETRY_MS as int),
            )
        },
        RemovalEventModel::Slept(now) => try_or_give_up(m, now),
    }
}

/// Removes the install directory once the tray process has exited.
pub struct DirectoryRemoval {
    pid: u32,
    dir: String,
    deadline: u64,
    last_error: Option<String>,
    phase: RemovalPhase,
}

impl View for DirectoryRemoval {
    type V = RemovalModel;

    closed spec fn view(&self) -> RemovalModel {
        RemovalModel {
            pid: self.pid,
            dir: self.dir@,
            deadline: self.deadline as int,
            last_error: match &self.last_error {
                Some(e) => Some(e@),
                None => None,
            },
            phase: self.phase,
        }
    }
}

impl DirectoryRemoval {
    /// A removal of the install directory after the process `pid` exits,
    /// when the requested directory names the same place as the install
    /// directory (both absolute and normalized); else the refusal, and
    /// nothing is to be removed.
    pub fn new(pid: u32, requested: &str, install_dir: &str) -> (r: Result<Self, String>)
        ensures
            match r {
                Ok(removal) => spec_same_path(requested@, install_dir@) && removal@ == (
                RemovalModel {
                    pid,
                    dir: install_dir@,
                    deadline: 0,
                    last_error: None,
                    phase: RemovalPhase::Ready,
                }),
                Err(message) => !spec_same_path(requested@, install_dir@) && message@
                    == refusal_message(requested@, install_dir@),
            },
    {
        match validate_uninstall_dir(requested, install_dir) {
            Ok(dir) => Ok(
                DirectoryRemoval { pid, dir, deadline: 0, last_error: None, phase: RemovalPhase::Ready },
            ),
            Err(message) => Err(message),
        }
    }

    /// Whether the removal waits for this event.
    pub fn awaits(&self, event: &RemovalEvent) -> (r: bool)
        ensures
            r == spec_removal_awaits(self@, event@),
    {
        match (self.phase, event) {
            (RemovalPhase::Ready, RemovalEvent::Start) => true,
            (RemovalPhase::Waiting, RemovalEvent::Waited(_)) => true,
            (RemovalPhase::Removing, RemovalEvent::Removed) => true,
            (RemovalPhase::Removing, RemovalEvent::RemoveFailed(_, _)) => true,
            (RemovalPhase::Sleeping, RemovalEvent::Slept(_)) => true,
            _ => false,
        }
    }

    fn give_up_message(&self) -> (m: String)
        ensures
            m@ == gave_up_message(self@.dir, self@.last_error),
    {
        let mut m = String::new();
        push_str(&mut m, "uninstall cleaned up startup entries, but could not remove ");
        push_str(&mut m, self.dir.as_str());
        push_str(&mut m, ": ");
        match &self.last_error {
            Some(e) => push_str(&mut m, e.as_str()),
            None => push_str(&mut m, "unknown error"),
        }
        m
    }

    fn try_or_give_up(&mut self, now: u64) -> (action: RemovalAction)
        ensures
            (final(self)@, action@) == try_or_give_up(old(self)@, now as int),
    {
        if now < self.deadline {
            self.phase = RemovalPhase::Removing;
            RemovalAction::RemoveDir
        } else {
            self.phase = RemovalPhase::Done;
            RemovalAction::Finished(Err(self.give_up_message()))
        }
    }

    /// One step of the uninstall helper's removal. It begins with
    /// `RemovalEvent::Start`; each later event answers the action returned
    /// before it, until the action is `Finished`.
    pub fn finish_uninstall(&mut self, event: RemovalEvent) -> (action: RemovalAction)
        requires
            spec_removal_awaits(old(self)@, event@),
        ensures
            (final(self)@, action@) == spec_removal(old(self)@, event@),
            final(self)@.dir == old(self)@.dir,
            final(self)@.pid == old(self)@.pid,
    {
        match event {
            RemovalEvent::Start => {
                self.phase = RemovalPhase::Waiting;
                RemovalAction::WaitForProcess(self.pid, REMOVAL_WINDOW_MS)
            },
            RemovalEvent::Waited(now) => {
                self.deadline = now.saturating_add(REMOVAL_WINDOW_MS);
                self.try_or_give_up(now)
            },
            RemovalEvent::Removed => {
                self.phase = RemovalPhase::Done;
                RemovalAction::Finished(Ok(()))
            },
            RemovalEvent::RemoveFailed(err, still_exists) => {
                if !still_exists {
                    self.phase = RemovalPhase::Done;
                    RemovalAction::Finished(Ok(()))
                } else {
                    self.last_error = Some(err);
                    self.phase = RemovalPhase::Sleeping;
                    RemovalAction::Sleep(REMOVAL_RETRY_MS)
                }
            },
            RemovalEvent::Slept(now) => self.try_or_give_up(now),
        }
    }
}

/// The directory a removal works on never changes, so a removal made by
/// `DirectoryRemoval::new` only ever removes the install directory, and
/// only when the requested directory named the same place.
pub proof fn lemma_removal_keeps_its_directory(m: RemovalModel, e: RemovalEventModel)
    ensures
        spec_removal(m, e).0.dir == m.dir,
        spec_removal(m, e).0.pid == m.pid,
{
}

/// The directory is only ever removed before the deadline, which lies 8 s
/// after the end of the wait (or at the end of the clock); a failed attempt
/// that leaves the directory is retried after a 350 ms pause; a removal that
/// succeeds or leaves no directory ends in success; and giving up reports
/// the directory and the last error.
pub proof fn lemma_removal_step(m: RemovalModel, e: RemovalEventModel)
    requires
        spec_removal_awaits(m, e),
    ensures
        spec_removal(m, e).1 is RemoveDir ==> (e matches RemovalEventModel::Waited(now) && now
            < spec_removal(m, e).0.deadline) || (e matches RemovalEventModel::Slept(now) && now
            < m.deadline),
        e matches RemovalEventModel::Waited(now) ==> spec_removal(m, e).0.deadline == if now
            + 8000 <= u64::MAX {
            now + 8000
        } else {
            u64::MAX as int
        },
        e is Removed ==> spec_removal(m, e).1 == RemovalActionModel::Finished(Ok(())),
        e matches RemovalEventModel::RemoveFailed(err, still_exists) ==> if still_exists {
            spec_removal(m, e).1 == RemovalActionModel::Sleep(350) && spec_removal(m, e).0.last_error
                == Some(err)
        } else {
            spec_removal(m, e).1 == RemovalActionModel::Finished(Ok(()))
        },
        spec_removal(m, e).1 matches RemovalActionModel::Finished(Err(msg)) ==> msg
            == gave_up_message(m.dir, m.last_error),
{
}

} // verus!
