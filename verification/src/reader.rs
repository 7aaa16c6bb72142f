//! The decisions of a battery read: which device path to query, when to fall
//! back to enumerating devices, which path to remember, and what to report.
//! The caller performs each requested action and answers with its outcome.
use vstd::prelude::*;
use crate::hid_path::{candidate_views, query_allowed, path_may_be_queried, HidCandidate};
use crate::report::spec_raw_to_percent;
use crate::report::raw_to_percent;
use crate::text::{hex_word, join, push_hex_word, push_str, views, join_strings};

verus! {

/// A battery level as shown (`percent`) and as the mouse reported it (`raw`).
#[derive(Debug, Clone, Copy, PartialEq, Eq, Structural)]
pub struct BatteryReading {
    pub percent: u8,
    pub raw: u8,
}

/// The reading for a raw battery level.
pub open spec fn reading_of(raw: u8) -> BatteryReading {
    BatteryReading { percent: spec_raw_to_percent(raw as int) as u8, raw }
}

/// A failed battery read, with the message that explains it.
#[derive(Debug, Clone)]
pub struct BatteryError {
    message: String,
}

impl View for BatteryError {
    type V = Seq<char>;

    closed spec fn view(&self) -> Seq<char> {
        self.message@
    }
}

impl BatteryError {
    /// An error with the given message.
    pub fn new(message: String) -> (e: Self)
        ensures
            e@ == message@,
    {
        BatteryError { message }
    }

    /// The message of the error (what `Display` shows).
    pub fn message(&self) -> (m: String)
        ensures
            m@ == self@,
    {
        self.message.clone()
    }
}

/// An outcome with its error taken by its message.
pub open spec fn result_view<T>(r: Result<T, BatteryError>) -> Result<T, Seq<char>> {
    match r {
        Ok(v) => Ok(v),
        Err(e) => Err(e@),
    }
}

/// What the reader tells its caller to do next.
pub enum ReadAction {
    /// Open this device path and ask it for the battery level.
    QueryPath(String),
    /// Enumerate the HID devices and hand back the battery candidates.
    Enumerate,
    /// The read is over, with this outcome.
    Finished(Result<BatteryReading, BatteryError>),
}

/// The outcome of the last action, handed back to the reader.
pub enum ReadEvent {
    /// A read begins.
    Start,
    /// The queried path gave this raw battery level, or failed so.
    PathRead(Result<u8, BatteryError>),
    /// The enumeration gave these candidates, in the order to try them, or failed so.
    Enumerated(Result<Vec<HidCandidate>, BatteryError>),
}

/// The model of an action.
#[verifier::ext_equal]
pub enum ReadActionModel {
    QueryPath(Seq<char>),
    Enumerate,
    Finished(Result<BatteryReading, Seq<char>>),
}

/// The model of an event.
pub enum ReadEventModel {
    Start,
    PathRead(Result<u8, Seq<char>>),
    Enumerated(Result<Seq<(Seq<char>, u16)>, Seq<char>>),
}

impl View for ReadAction {
    type V = ReadActionModel;

    open spec fn view(&self) -> ReadActionModel {
        match self {
            ReadAction::QueryPath(p) => ReadActionModel::QueryPath(p@),
            ReadAction::Enumerate => ReadActionModel::Enumerate,
            ReadAction::Finished(r) => ReadActionModel::Finished(result_view(*r)),
        }
    }
}

impl View for ReadEvent {
    type V = ReadEventModel;

    open spec fn view(&self) -> ReadEventModel {
        match self {
            ReadEvent::Start => ReadEventModel::Start,
            ReadEvent::PathRead(r) => ReadEventModel::PathRead(result_view(*r)),
            ReadEvent::Enumerated(r) => ReadEventModel::Enumerated(
                match r {
                    Ok(c) => Ok(candidate_views(c@)),
                    Err(e) => Err(e@),
                },
            ),
        }
    }
}

/// Where a read stands.
#[verifier::ext_equal]
pub enum ReadPhaseModel {
    /// No read is under way.
    Idle,
    /// The remembered path is being queried.
    CheckingCache,
    /// The devices are being enumerated.
    Enumerating,
    /// The candidate before index `next` is being queried; `errors` holds
    /// one line for each candidate that failed before it.
    Trying { candidates: Seq<(Seq<char>, u16)>, next: int, errors: Seq<Seq<char>> },
}

/// The model of a reader: the remembered working path, and where a read stands.
#[verifier::ext_equal]
pub struct ReaderModel {
    pub cached: Option<Seq<char>>,
    pub phase: ReadPhaseModel,
}

/// The error of a read when no candidate was found.
pub open spec fn not_found_message() -> Seq<char> {
    "Razer Viper V4 Pro battery interface was not found over USB."@
}

/// The error that a query of a path that is not a battery interface gives.
pub open spec fn refusal_message() -> Seq<char> {
    "refusing to query a non-battery HID interface"@
}

/// The line recorded for a candidate whose query failed.
pub open spec fn candidate_error(pid: u16, error: Seq<char>) -> Seq<char> {
    "PID "@ + hex_word(pid) + ": "@ + error
}

/// The error of a read in which every candidate failed.
pub open spec fn all_failed_message(errors: Seq<Seq<char>>) -> Seq<char> {
    "Found the mouse, but could not read battery. "@ + join(errors, " | "@)
}

/// Moving on to the first candidate from index `k` on that may be queried;
/// the ones skipped are recorded as refused.
pub open spec fn spec_advance(
    candidates: Seq<(Seq<char>, u16)>,
    k: int,
    errors: Seq<Seq<char>>,
) -> (ReadPhaseModel, ReadActionModel)
    decreases candidates.len() - k,
{
    if k < 0 || k >= candidates.len() {
        (ReadPhaseModel::Idle, ReadActionModel::Finished(Err(all_failed_message(errors))))
    } else if query_allowed(candidates[k].0) {
        (
            ReadPhaseModel::Trying { candidates, next: k + 1, errors },
            ReadActionModel::QueryPath(candidates[k].0),
        )
    } else {
        spec_advance(
            candidates,
            k + 1,
            errors.push(candidate_error(candidates[k].1, refusal_message())),
        )
    }
}

/// The event is the answer the reader waits for in its phase.
pub open spec fn spec_awaits(m: ReaderModel, e: ReadEventModel) -> bool {
    match m.phase {
        ReadPhaseModel::Idle => e is Start,
        ReadPhaseModel::CheckingCache => e is PathRead,
        ReadPhaseModel::Enumerating => e is Enumerated,
        ReadPhaseModel::Trying { .. } => e is PathRead,
    }
}

/// One step of a read: the next model and the action to perform.
pub open spec fn spec_read(m: ReaderModel, e: ReadEventModel) -> (ReaderModel, ReadActionModel) {
    match e {
        ReadEventModel::Start => match m.cached {
            Some(p) if query_allowed(p) => (
                ReaderModel { cached: m.cached, phase: ReadPhaseModel::CheckingCache },
                ReadActionModel::QueryPath(p),
            ),
            _ => (
                ReaderModel { cached: None, phase: ReadPhaseModel::Enumerating },
                ReadActionModel::Enumerate,
            ),
        },
        ReadEventModel::PathRead(r) => match m.phase {
            ReadPhaseModel::Trying { candidates, next, errors } => match r {
                Ok(raw) => (
                    ReaderModel {
                        cached: Some(candidates[next - 1].0),
                        phase: ReadPhaseModel::Idle,
                    },
                    ReadActionModel::Finished(Ok(reading_of(raw))),
                ),
                Err(msg) => {
                    let step = spec_advance(
                        candidates,
                        next,
                        errors.push(candidate_error(candidates[next - 1].1, msg)),
                    );
                    (ReaderModel { cached: m.cached, phase: step.0 }, step.1)
                },
            },
            _ => match r {
                Ok(raw) => (
                    ReaderModel { cached: m.cached, phase: ReadPhaseModel::Idle },
                    ReadActionModel::Finished(Ok(reading_of(raw))),
                ),
                Err(_) => (
                    ReaderModel { cached: None, phase: ReadPhaseModel::Enumerating },
                    ReadActionModel::Enumerate,
                ),
            },
        },
        ReadEventModel::Enumerated(r) => match r {
            Err(msg) => (
                ReaderModel { cached: m.cached, phase: ReadPhaseModel::Idle },
                ReadActionModel::Finished(Err(msg)),
            ),
            Ok(candidates) => if candidates.len() == 0 {
                (
                    ReaderModel { cached: m.cached, phase: ReadPhaseModel::Idle },
                    ReadActionModel::Finished(Err(not_found_message())),
                )
            } else {
                let step = spec_advance(candidates, 0, Seq::empty());
                (ReaderModel { cached: m.cached, phase: step.0 }, step.1)
            },
        },
    }
}

/// The invariant of a reader model: the remembered path may be queried, the
/// remembered path is being queried when the cache is checked, nothing is
/// remembered while the devices are enumerated and tried, and a candidate
/// being queried may be queried.
pub open spec fn model_wf(m: ReaderModel) -> bool {
    &&& (m.cached matches Some(p) ==> query_allowed(p))
    &&& (m.phase is CheckingCache ==> m.cached is Some)
    &&& (m.phase is Enumerating || m.phase is Trying ==> m.cached is None)
    &&& (m.phase matches ReadPhaseModel::Trying { candidates, next, errors } ==> {
        &&& 1 <= next <= candidates.len()
        &&& query_allowed(candidates[next - 1].0)
    })
}

/// Every query that `spec_advance` hands out is of a path that may be queried,
/// and the phase it leads to is well formed.
proof fn lemma_advance_safe(candidates: Seq<(Seq<char>, u16)>, k: int, errors: Seq<Seq<char>>)
    ensures
        spec_advance(candidates, k, errors).1 matches ReadActionModel::QueryPath(p) ==> query_allowed(p),
        spec_advance(candidates, k, errors).0 is Idle || spec_advance(candidates, k, errors).0 is Trying,
        spec_advance(candidates, k, errors).1 matches ReadActionModel::Finished(r) ==> r is Err,
        spec_advance(candidates, k, errors).0 matches ReadPhaseModel::Trying { candidates: c, next, errors: _ } ==> {
            &&& 1 <= next <= c.len()
            &&& query_allowed(c[next - 1].0)
        },
    decreases candidates.len() - k,
{
    if 0 <= k < candidates.len() && !query_allowed(candidates[k].0) {
        lemma_advance_safe(
            candidates,
            k + 1,
            errors.push(candidate_error(candidates[k].1, refusal_message())),
        );
    }
}

#[derive(Debug)]
enum ReadPhase {
    Idle,
    CheckingCache,
    Enumerating,
    Trying { candidates: Vec<HidCandidate>, next: usize, errors: Vec<String> },
}

/// Reads the battery level, remembering the path that worked last.
#[derive(Debug)]
pub struct BatteryReader {
    cached_path: Option<String>,
    phase: ReadPhase,
}

impl View for BatteryReader {
    type V = ReaderModel;

    closed spec fn view(&self) -> ReaderModel {
        ReaderModel {
            cached: match &self.cached_path {
                Some(p) => Some(p@),
                None => None,
            },
            phase: match &self.phase {
                ReadPhase::Idle => ReadPhaseModel::Idle,
                ReadPhase::CheckingCache => ReadPhaseModel::CheckingCache,
                ReadPhase::Enumerating => ReadPhaseModel::Enumerating,
                ReadPhase::Trying { candidates, next, errors } => ReadPhaseModel::Trying {
                    candidates: candidate_views(candidates@),
                    next: *next as int,
                    errors: views(errors@),
                },
            },
        }
    }
}

fn candidate_error_message(pid: u16, error: &str) -> (m: String)
    ensures
        m@ == candidate_error(pid, error@),
{
    let mut m = String::new();
    push_str(&mut m, "PID ");
    push_hex_word(&mut m, pid);
    push_str(&mut m, ": ");
    push_str(&mut m, error);
    m
}

fn reading_from_raw(raw: u8) -> (r: BatteryReading)
    ensures
        r == reading_of(raw),
{
    BatteryReading { percent: raw_to_percent(raw), raw }
}

impl BatteryReader {
    /// The well-formedness of a reader: its model is well formed, and the
    /// candidate being queried is one of its candidates.
    #[verifier::type_invariant]
    spec fn wf(self) -> bool {
        &&& model_wf(self@)
        &&& (self.phase matches ReadPhase::Trying { candidates, next, errors } ==> next
            <= candidates.len())
    }

    /// A reader that remembers no path.
    pub fn new() -> (r: Self)
        ensures
            model_wf(r@),
            r@.cached is None,
            r@.phase is Idle,
    {
        BatteryReader { cached_path: None, phase: ReadPhase::Idle }
    }

    /// Whether the reader waits for this event.
    pub fn awaits(&self, event: &ReadEvent) -> (r: bool)
        ensures
            r == spec_awaits(self@, event@),
    {
        match (&self.phase, event) {
            (ReadPhase::Idle, ReadEvent::Start) => true,
            (ReadPhase::CheckingCache, ReadEvent::PathRead(_)) => true,
            (ReadPhase::Enumerating, ReadEvent::Enumerated(_)) => true,
            (ReadPhase::Trying { .. }, ReadEvent::PathRead(_)) => true,
            _ => false,
        }
    }

    /// Moves on from candidate `k` to the first one that may be queried.
    fn advance(&mut self, candidates: Vec<HidCandidate>, k: usize, errors: Vec<String>) -> (action:
        ReadAction)
        requires
            k <= candidates.len(),
            model_wf(old(self)@),
            old(self)@.cached is None,
            !(old(self)@.phase is CheckingCache),
        ensures
            final(self).wf(),
            final(self)@.cached == old(self)@.cached,
            (final(self)@.phase, action@) == spec_advance(
                candidate_views(candidates@),
                k as int,
                views(errors@),
            ),
    {
        let ghost cands = candidate_views(candidates@);
        let ghost start_errors = views(errors@);
        let mut errors = errors;
        let mut i = k;
        let mut found = false;
        while i < candidates.len() && !found
            invariant
                k <= i <= candidates.len(),
                cands == candidate_views(candidates@),
                found ==> i < candidates.len() && query_allowed(cands[i as int].0),
                spec_advance(cands, k as int, start_errors) == spec_advance(
                    cands,
                    i as int,
                    views(errors@),
                ),
            decreases candidates.len() - i + (if found { 0int } else { 1int }),
        {
            assert(cands[i as int].0 == candidates@[i as int].path@);
            if path_may_be_queried(candidates[i].path.as_str()) {
                found = true;
            } else {
                let line = candidate_error_message(
                    candidates[i].pid,
                    "refusing to query a non-battery HID interface",
                );
                let ghost before = views(errors@);
                errors.push(line);
                assert(views(errors@) =~= before.push(
                    candidate_error(cands[i as int].1, refusal_message()),
                ));
                i = i + 1;
            }
        }
        if found {
            let path = candidates[i].path.clone();
            assert(path@ == cands[i as int].0);
            let ghost errs = views(errors@);
            self.phase = ReadPhase::Trying { candidates, next: i + 1, errors };
            assert(spec_advance(cands, i as int, errs) == (
                ReadPhaseModel::Trying { candidates: cands, next: i + 1, errors: errs },
                ReadActionModel::QueryPath(cands[i as int].0),
            ));
            return ReadAction::QueryPath(path);
        }
        self.phase = ReadPhase::Idle;
        let mut message = String::new();
        push_str(&mut message, "Found the mouse, but could not read battery. ");
        let joined = join_strings(&errors, " | ");
        push_str(&mut message, joined.as_str());
        ReadAction::Finished(Err(BatteryError::new(message)))
    }

    /// One step of a battery read. A read begins with `ReadEvent::Start`; each
    /// later event answers the action returned before it, until the action is
    /// `Finished`. Only paths that may be queried are ever handed out for a
    /// query, and only such a path is remembered.
    pub fn read(&mut self, event: ReadEvent) -> (action: ReadAction)
        requires
            spec_awaits(old(self)@, event@),
        ensures
            model_wf(final(self)@),
            (final(self)@, action@) == spec_read(old(self)@, event@),
            action@ matches ReadActionModel::QueryPath(p) ==> query_allowed(p),
            final(self)@.cached matches Some(p) ==> query_allowed(p),
            action@ matches ReadActionModel::Finished(r) ==> (r is Ok <==> final(self)@.cached is Some),
    {
        proof {
            use_type_invariant(&*self);
            lemma_read_step_is_safe(self@, event@);
        }
        match event {
            ReadEvent::Start => {
                let cached = match &self.cached_path {
                    Some(p) => if path_may_be_queried(p.as_str()) {
                        Some(p.clone())
                    } else {
                        None
                    },
                    None => None,
                };
                match cached {
                    Some(path) => {
                        self.phase = ReadPhase::CheckingCache;
                        ReadAction::QueryPath(path)
                    },
                    None => {
                        self.cached_path = None;
                        self.phase = ReadPhase::Enumerating;
                        ReadAction::Enumerate
                    },
                }
            },
            ReadEvent::PathRead(result) => {
                let mut phase = ReadPhase::Idle;
                std::mem::swap(&mut phase, &mut self.phase);
                match phase {
                    ReadPhase::Trying { candidates, next, errors } => {
                        match result {
                            Ok(raw) => {
                                self.cached_path = Some(candidates[next - 1].path.clone());
                                ReadAction::Finished(Ok(reading_from_raw(raw)))
                            },
                            Err(err) => {
                                let msg = err.message();
                                let line = candidate_error_message(
                                    candidates[next - 1].pid,
                                    msg.as_str(),
                                );
                                let mut errors = errors;
                                let ghost before = views(errors@);
                                errors.push(line);
                                assert(views(errors@) =~= before.push(line@));
                                self.advance(candidates, next, errors)
                            },
                        }
                    },
                    _ => {
                        match result {
                            Ok(raw) => ReadAction::Finished(Ok(reading_from_raw(raw))),
                            Err(_) => {
                                self.cached_path = None;
                                self.phase = ReadPhase::Enumerating;
                                ReadAction::Enumerate
                            },
                        }
                    },
                }
            },
            ReadEvent::Enumerated(result) => {
                match result {
                    Err(err) => {
                        self.phase = ReadPhase::Idle;
                        ReadAction::Finished(Err(err))
                    },
                    Ok(candidates) => {
                        if candidates.len() == 0 {
                            self.phase = ReadPhase::Idle;
                            let message = "Razer Viper V4 Pro battery interface was not found over USB.".to_owned();
                            ReadAction::Finished(Err(BatteryError::new(message)))
                        } else {
                            self.phase = ReadPhase::Idle;
                            let errors: Vec<String> = Vec::new();
                            assert(views(errors@) =~= Seq::<Seq<char>>::empty());
                            self.advance(candidates, 0, errors)
                        }
                    },
                }
            },
        }
    }
}

/// From any well-formed state, a step of a read keeps the state well formed:
/// the remembered path is always one that may be queried, and the reader
/// only ever asks to query such a path (one of the safe feature interfaces
/// of a Viper V4 Pro). When a read finishes, it gives a reading exactly when
/// a path is remembered afterwards: a remembered path that is not supported
/// or fails is dropped, and a failed read remembers nothing.
pub proof fn lemma_read_step_is_safe(m: ReaderModel, e: ReadEventModel)
    requires
        model_wf(m),
        spec_awaits(m, e),
    ensures
        model_wf(spec_read(m, e).0),
        spec_read(m, e).1 matches ReadActionModel::QueryPath(p) ==> query_allowed(p),
        spec_read(m, e).1 matches ReadActionModel::Finished(r) ==> (r is Ok
            <==> spec_read(m, e).0.cached is Some),
{
    if let ReadEventModel::Enumerated(Ok(c)) = e {
        lemma_advance_safe(c, 0, Seq::empty());
    }
    if let ReadPhaseModel::Trying { candidates, next, errors } = m.phase {
        if let ReadEventModel::PathRead(Err(msg)) = e {
            lemma_advance_safe(
                candidates,
                next,
                errors.push(candidate_error(candidates[next - 1].1, msg)),
            );
        }
    }
}

/// The path whose query gave a reading is remembered, and the next read
/// queries it before anything else.
pub proof fn lemma_working_path_is_tried_first(m: ReaderModel, raw: u8)
    requires
        model_wf(m),
        m.phase is Trying,
    ensures
        ({
            let (after, action) = spec_read(m, ReadEventModel::PathRead(Ok(raw)));
            let path = m.phase->candidates[m.phase->next - 1].0;
            &&& action == ReadActionModel::Finished(Ok(reading_of(raw)))
            &&& after.cached == Some(path)
            &&& spec_read(after, ReadEventModel::Start).1 == ReadActionModel::QueryPath(path)
        }),
{
}

/// A remembered path that still answers gives the reading without any
/// enumeration; one that fails is forgotten and the devices are enumerated.
pub proof fn lemma_cached_path_outcome(m: ReaderModel, r: Result<u8, Seq<char>>)
    requires
        model_wf(m),
        m.phase is CheckingCache,
    ensures
        ({
            let (after, action) = spec_read(m, ReadEventModel::PathRead(r));
            match r {
                Ok(raw) => after.cached == m.cached && action == ReadActionModel::Finished(
                    Ok(reading_of(raw)),
                ),
                Err(_) => after.cached is None && action == ReadActionModel::Enumerate,
            }
        }),
{
}

/// A read whose candidates all fail reports every failure, one line per
/// candidate in the order they were tried.
pub proof fn lemma_all_failures_reported(
    candidates: Seq<(Seq<char>, u16)>,
    k: int,
    errors: Seq<Seq<char>>,
)
    requires
        0 <= k <= candidates.len(),
        forall|i: int| k <= i < candidates.len() ==> !query_allowed(#[trigger] candidates[i].0),
    ensures
        spec_advance(candidates, k, errors) == (
            ReadPhaseModel::Idle,
            ReadActionModel::Finished(
                Err(
                    all_failed_message(
                        errors + Seq::new(
                            (candidates.len() - k) as nat,
                            |i: int| candidate_error(candidates[k + i].1, refusal_message()),
                        ),
                    ),
                ),
            ),
        ),
    decreases candidates.len() - k,
{
    let rest = Seq::new(
        (candidates.len() - k) as nat,
        |i: int| candidate_error(candidates[k + i].1, refusal_message()),
    );
    if k == candidates.len() {
        assert(errors + rest =~= errors);
    } else {
        let pushed = errors.push(candidate_error(candidates[k].1, refusal_message()));
        lemma_all_failures_reported(candidates, k + 1, pushed);
        let rest2 = Seq::new(
            (candidates.len() - (k + 1)) as nat,
            |i: int| candidate_error(candidates[k + 1 + i].1, refusal_message()),
        );
        assert(pushed + rest2 =~= errors + rest);
    }
}

impl Default for BatteryReader {
    /// A reader that remembers no path.
    fn default() -> (r: Self)
        ensures
            model_wf(r@),
            r@.cached is None,
            r@.phase is Idle,
    {
        BatteryReader::new()
    }
}


proof fn lemma_advance_reaches_first_allowed(
    candidates: Seq<(Seq<char>, u16)>,
    k: int,
    errors: Seq<Seq<char>>,
    j: int,
)
    requires
        0 <= k <= j < candidates.len(),
        query_allowed(candidates[j].0),
        forall|i: int| k <= i < j ==> !query_allowed(#[trigger] candidates[i].0),
    ensures
        spec_advance(candidates, k, errors).1 == ReadActionModel::QueryPath(candidates[j].0),
    decreases j - k,
{
    if k < j {
        lemma_advance_reaches_first_allowed(
            candidates,
            k + 1,
            errors.push(candidate_error(candidates[k].1, refusal_message())),
            j,
        );
    }
}

/// When the candidate being queried fails, the read goes on with the next
/// candidate that may be queried: if candidate `j` is the first such one
/// after the failed one, the next action is the query of candidate `j`.
pub proof fn lemma_failed_candidate_moves_to_next(m: ReaderModel, err: Seq<char>, j: int)
    requires
        model_wf(m),
        m.phase is Trying,
        m.phase->next <= j < m.phase->candidates.len(),
        query_allowed(m.phase->candidates[j].0),
        forall|i: int|
            m.phase->next <= i < j ==> !query_allowed(#[trigger] m.phase->candidates[i].0),
    ensures
        spec_read(m, ReadEventModel::PathRead(Err(err))).1 == ReadActionModel::QueryPath(
            m.phase->candidates[j].0,
        ),
{
    let c = m.phase->candidates;
    let next = m.phase->next;
    lemma_advance_reaches_first_allowed(
        c,
        next,
        m.phase->errors.push(candidate_error(c[next - 1].1, err)),
        j,
    );
}

/// A read whose candidate fails ends in an error only when no later
/// candidate may be queried; so a read that finishes with an error has
/// queried every candidate that may be queried.
pub proof fn lemma_read_gives_up_only_after_every_candidate(m: ReaderModel, err: Seq<char>)
    requires
        model_wf(m),
        m.phase is Trying,
        spec_read(m, ReadEventModel::PathRead(Err(err))).1 is Finished,
    ensures
        forall|i: int|
            m.phase->next <= i < m.phase->candidates.len() ==> !query_allowed(
                #[trigger] m.phase->candidates[i].0,
            ),
{
    let c = m.phase->candidates;
    let next = m.phase->next;
    assert forall|i: int| next <= i < c.len() implies !query_allowed(#[trigger] c[i].0) by {
        if query_allowed(c[i].0) {
            lemma_first_allowed_exists(c, next, i);
            let first = choose|f: int|
                next <= f <= i && query_allowed(c[f].0) && forall|g: int|
                    next <= g < f ==> !query_allowed(#[trigger] c[g].0);
            lemma_failed_candidate_moves_to_next(m, err, first);
        }
    }
}

proof fn lemma_first_allowed_exists(c: Seq<(Seq<char>, u16)>, k: int, i: int)
    requires
        k <= i < c.len(),
        query_allowed(c[i].0),
    ensures
        exists|f: int|
            k <= f <= i && query_allowed(c[f].0) && forall|g: int|
                k <= g < f ==> !query_allowed(#[trigger] c[g].0),
    decreases i - k,
{
    if query_allowed(c[k].0) {
        assert(forall|g: int| k <= g < k ==> !query_allowed(#[trigger] c[g].0));
    } else {
        lemma_first_allowed_exists(c, k + 1, i);
        let f = choose|f: int|
            k + 1 <= f <= i && query_allowed(c[f].0) && forall|g: int|
                k + 1 <= g < f ==> !query_allowed(#[trigger] c[g].0);
        assert(forall|g: int| k <= g < f ==> !query_allowed(#[trigger] c[g].0));
    }
}

} // verus!
