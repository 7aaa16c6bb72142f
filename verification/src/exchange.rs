//! The exchange of feature reports with an opened device: send the battery
//! request, wait, fetch the answer and check it, at most twice.
use vstd::prelude::*;
use crate::reader::BatteryError;
use crate::report::{
    build_report, response_level, response_problem, spec_request, validate_response, HID_REPORT_LEN,
};
use crate::text::push_str;

verus! {

/// Requests sent in one exchange, at most.
pub const MAX_ATTEMPTS: u8 = 2;

/// Where an exchange stands.
#[derive(Debug, Clone, Copy, PartialEq, Eq, Structural)]
pub enum ExchangePhase {
    /// Nothing sent yet.
    Ready,
    /// The request is being sent.
    Sending,
    /// The request was sent; waiting before the answer is fetched.
    Waiting,
    /// The answer is being fetched.
    Receiving,
    /// An attempt failed; pausing before the next one.
    Pausing,
    /// The exchange is over.
    Done,
}

/// What the exchange tells its caller to do next.
pub enum ExchangeAction {
    /// Send this feature report to the device.
    SendFeature([u8; HID_REPORT_LEN]),
    /// Sleep this many milliseconds.
    Sleep(u64),
    /// Fetch a feature report from the device.
    ReceiveFeature,
    /// The exchange is over: the battery level, or why there is none.
    Finished(Result<u8, BatteryError>),
}

/// The outcome of the last action, handed back to the exchange.
pub enum ExchangeEvent {
    /// The exchange begins.
    Start,
    /// The request was sent, or sending failed with this system error text.
    Sent(Result<(), String>),
    /// The sleep is over.
    Slept,
    /// The device answered with this report, or fetching failed with this system error text.
    Received(Result<[u8; HID_REPORT_LEN], String>),
}

/// The model of an action.
#[verifier::ext_equal]
pub enum ExchangeActionModel {
    SendFeature(Seq<u8>),
    Sleep(int),
    ReceiveFeature,
    Finished(Result<u8, Seq<char>>),
}

/// The model of an event.
pub enum ExchangeEventModel {
    Start,
    Sent(Result<(), Seq<char>>),
    Slept,
    Received(Result<Seq<u8>, Seq<char>>),
}

impl View for ExchangeAction {
    type V = ExchangeActionModel;

    open spec fn view(&self) -> ExchangeActionModel {
        match self {
            ExchangeAction::SendFeature(r) => ExchangeActionModel::SendFeature(r@),
            ExchangeAction::Sleep(ms) => ExchangeActionModel::Sleep(*ms as int),
            ExchangeAction::ReceiveFeature => ExchangeActionModel::ReceiveFeature,
            ExchangeAction::Finished(r) => ExchangeActionModel::Finished(
                match r {
                    Ok(v) => Ok(*v),
                    Err(e) => Err(e@),
                },
            ),
        }
    }
}

impl View for ExchangeEvent {
    type V = ExchangeEventModel;

    open spec fn view(&self) -> ExchangeEventModel {
        match self {
            ExchangeEvent::Start => ExchangeEventModel::Start,
            ExchangeEvent::Sent(r) => ExchangeEventModel::Sent(
                match r {
                    Ok(()) => Ok(()),
                    Err(e) => Err(e@),
                },
            ),
            ExchangeEvent::Slept => ExchangeEventModel::Slept,
            ExchangeEvent::Received(r) => ExchangeEventModel::Received(
                match r {
                    Ok(a) => Ok(a@),
                    Err(e) => Err(e@),
                },
            ),
        }
    }
}

/// The model of an exchange: the attempts begun, the error of the last failed
/// attempt, and where the exchange stands.
#[verifier::ext_equal]
pub struct ExchangeModel {
    pub attempts: int,
    pub last_error: Option<Seq<char>>,
    pub phase: ExchangePhase,
}

/// The error of an exchange in which no attempt failed with a message.
pub open spec fn no_response_message() -> Seq<char> {
    "device did not return a usable response"@
}

/// The event is the answer the exchange waits for in its phase.
pub open spec fn spec_exchange_awaits(m: ExchangeModel, e: ExchangeEventModel) -> bool {
    match m.phase {
        ExchangePhase::Ready => e is Start,
        ExchangePhase::Sending => e is Sent,
        ExchangePhase::Waiting => e is Slept,
        ExchangePhase::Receiving => e is Received,
        ExchangePhase::Pausing => e is Slept,
        ExchangePhase::Done => false,
    }
}

/// The model after a failed attempt: the error is kept and the exchange pauses.
pub open spec fn after_failure(m: ExchangeModel, error: Seq<char>, pause: int) -> (
    ExchangeModel,
    ExchangeActionModel,
) {
    (
        ExchangeModel { attempts: m.attempts, last_error: Some(error), phase: ExchangePhase::Pausing },
        ExchangeActionModel::Sleep(pause),
    )
}

/// One step of an exchange: the next model and the action to perform. A
/// failed send pauses 50 ms, a sent request is given 65 ms before its answer
/// is fetched, and a failed fetch or a refused answer pauses 75 ms; after the
/// pause a new attempt begins, unless two have been made.
pub open spec fn spec_exchange(m: ExchangeModel, e: ExchangeEventModel) -> (
    ExchangeModel,
    ExchangeActionModel,
) {
    match e {
        ExchangeEventModel::Start => (
            ExchangeModel { attempts: 1, last_error: None, phase: ExchangePhase::Sending },
            ExchangeActionModel::SendFeature(spec_request()),
        ),
        ExchangeEventModel::Sent(Err(os)) => after_failure(
            m,
            "HidD_SetFeature failed: "@ + os,
            50,
        ),
        ExchangeEventModel::Sent(Ok(())) => (
            ExchangeModel { phase: ExchangePhase::Waiting, ..m },
            ExchangeActionModel::Sleep(65),
        ),
        ExchangeEventModel::Received(Err(os)) => after_failure(
            m,
            "HidD_GetFeature failed: "@ + os,
            75,
        ),
        ExchangeEventModel::Received(Ok(r)) => match response_problem(r) {
            None => (
                ExchangeModel { phase: ExchangePhase::Done, ..m },
                ExchangeActionModel::Finished(Ok(response_level(r))),
            ),
            Some(msg) => after_failure(m, msg, 75),
        },
        ExchangeEventModel::Slept => if m.phase is Waiting {
            (
                ExchangeModel { phase: ExchangePhase::Receiving, ..m },
                ExchangeActionModel::ReceiveFeature,
            )
        } else if m.attempts < MAX_ATTEMPTS {
            (
                ExchangeModel { attempts: m.attempts + 1, phase: ExchangePhase::Sending, ..m },
                ExchangeActionModel::SendFeature(spec_request()),
            )
        } else {
            (
                ExchangeModel { phase: ExchangePhase::Done, ..m },
                ExchangeActionModel::Finished(
                    Err(
                        match m.last_error {
                            Some(msg) => msg,
                            None => no_response_message(),
                        },
                    ),
                ),
            )
        },
    }
}

/// Reads the battery byte over an opened device.
pub struct FeatureExchange {
    attempts: u8,
    last_error: Option<String>,
    phase: ExchangePhase,
}

impl View for FeatureExchange {
    type V = ExchangeModel;

    closed spec fn view(&self) -> ExchangeModel {
        ExchangeModel {
            attempts: self.attempts as int,
            last_error: match &self.last_error {
                Some(e) => Some(e@),
                None => None,
            },
            phase: self.phase,
        }
    }
}

fn prefixed(prefix: &str, text: &str) -> (m: String)
    ensures
        m@ == prefix@ + text@,
{
    let mut m = String::new();
    push_str(&mut m, prefix);
    push_str(&mut m, text);
    assert(m@ =~= prefix@ + text@);
    m
}

impl FeatureExchange {
    /// No exchange makes more than two attempts.
    #[verifier::type_invariant]
    spec fn attempts_bounded(self) -> bool {
        self.attempts <= MAX_ATTEMPTS
    }

    /// An exchange that has sent nothing yet.
    pub fn new() -> (x: Self)
        ensures
            x@ == (ExchangeModel { attempts: 0, last_error: None, phase: ExchangePhase::Ready }),
    {
        FeatureExchange { attempts: 0, last_error: None, phase: ExchangePhase::Ready }
    }

    /// Where the exchange stands.
    pub fn phase(&self) -> (p: ExchangePhase)
        ensures
            p == self@.phase,
    {
        self.phase
    }

    /// Whether the exchange waits for this event.
    pub fn awaits(&self, event: &ExchangeEvent) -> (r: bool)
        ensures
            r == spec_exchange_awaits(self@, event@),
    {
        match (self.phase, event) {
            (ExchangePhase::Ready, ExchangeEvent::Start) => true,
            (ExchangePhase::Sending, ExchangeEvent::Sent(_)) => true,
            (ExchangePhase::Waiting, ExchangeEvent::Slept) => true,
            (ExchangePhase::Receiving, ExchangeEvent::Received(_)) => true,
            (ExchangePhase::Pausing, ExchangeEvent::Slept) => true,
            _ => false,
        }
    }

    /// One step of reading the battery byte. An exchange begins with
    /// `ExchangeEvent::Start`; each later event answers the action returned
    /// before it, until the action is `Finished`. At most two requests are
    /// sent, each of them the battery request, and a level is only given
    /// back from an answer that passed the checks.
    pub fn read_battery_byte(&mut self, event: ExchangeEvent) -> (action: ExchangeAction)
        requires
            spec_exchange_awaits(old(self)@, event@),
        ensures
            (final(self)@, action@) == spec_exchange(old(self)@, event@),
            final(self)@.attempts <= MAX_ATTEMPTS,
            action@ is SendFeature ==> final(self)@.attempts == old(self)@.attempts + 1
                || old(self)@.phase is Ready,
    {
        proof {
            use_type_invariant(&*self);
        }
        match event {
            ExchangeEvent::Start => {
                self.attempts = 1;
                self.last_error = None;
                self.phase = ExchangePhase::Sending;
                ExchangeAction::SendFeature(build_report())
            },
            ExchangeEvent::Sent(Err(os)) => {
                self.last_error = Some(prefixed("HidD_SetFeature failed: ", os.as_str()));
                self.phase = ExchangePhase::Pausing;
                ExchangeAction::Sleep(50)
            },
            ExchangeEvent::Sent(Ok(())) => {
                self.phase = ExchangePhase::Waiting;
                ExchangeAction::Sleep(65)
            },
            ExchangeEvent::Received(Err(os)) => {
                self.last_error = Some(prefixed("HidD_GetFeature failed: ", os.as_str()));
                self.phase = ExchangePhase::Pausing;
                ExchangeAction::Sleep(75)
            },
            ExchangeEvent::Received(Ok(response)) => {
                match validate_response(&response) {
                    Ok(level) => {
                        self.phase = ExchangePhase::Done;
                        ExchangeAction::Finished(Ok(level))
                    },
                    Err(message) => {
                        self.last_error = Some(message);
                        self.phase = ExchangePhase::Pausing;
                        ExchangeAction::Sleep(75)
                    },
                }
            },
            ExchangeEvent::Slept => {
                if self.phase == ExchangePhase::Waiting {
                    self.phase = ExchangePhase::Receiving;
                    ExchangeAction::ReceiveFeature
                } else if self.attempts < MAX_ATTEMPTS {
                    self.attempts = self.attempts + 1;
                    self.phase = ExchangePhase::Sending;
                    ExchangeAction::SendFeature(build_report())
                } else {
                    self.phase = ExchangePhase::Done;
                    let message = match &self.last_error {
                        Some(m) => m.clone(),
                        None => "device did not return a usable response".to_owned(),
                    };
                    ExchangeAction::Finished(Err(BatteryError::new(message)))
                }
            },
        }
    }
}

/// Every step of an exchange keeps at most two attempts, sends nothing but
/// the battery request, and gives a level only from a response that passed
/// the checks, namely its byte 10.
pub proof fn lemma_exchange_step_is_bounded(m: ExchangeModel, e: ExchangeEventModel)
    requires
        m.attempts <= MAX_ATTEMPTS,
        spec_exchange_awaits(m, e),
    ensures
        spec_exchange(m, e).0.attempts <= MAX_ATTEMPTS,
        spec_exchange(m, e).1 matches ExchangeActionModel::SendFeature(r) ==> r == spec_request(),
        spec_exchange(m, e).1 matches ExchangeActionModel::Finished(Ok(level)) ==> (e matches ExchangeEventModel::Received(Ok(r)) && response_problem(r) is None && level == response_level(r)),
{
}


/// An answer that carries the success or busy status, the transaction id
/// and the battery command header gives its byte 10 as the level, whatever
/// attempt it answers.
pub proof fn lemma_valid_answer_gives_level(m: ExchangeModel, r: Seq<u8>)
    requires
        r.len() == 91,
        r[1] == 0x02 || r[1] == 0x01,
        r[2] == 0x1f,
        r[6] == 0x02,
        r[7] == 0x07,
        r[8] == 0x80,
    ensures
        spec_exchange(m, ExchangeEventModel::Received(Ok(r))).1 == ExchangeActionModel::Finished(
            Ok(r[10]),
        ),
{
}

} // verus!
