//! ECC lifecycle states and operations, their integer codings, the
//! declared transition map between them, and the per-state gating
//! predicates the aggregator builds on.

use vstd::prelude::*;
use crate::error::{ECCOperationError, ECCStatusError};
use crate::textutil::str_eq;

verus! {

/// Lifecycle state of one ECC server. The ordered forward chain is
/// `Offline -> Idle -> Described -> Prepared -> Ready -> Running`;
/// `Transition`, `Busy`, `Inconsistent` and `ErrorStat` sit outside
/// that chain.
#[derive(Debug, Clone, Copy, PartialEq, Eq, Structural)]
pub enum ECCStatus {
    Offline,
    Transition,
    Idle,
    Prepared,
    Described,
    Ready,
    Running,
    ErrorStat,
    Inconsistent,
    Busy,
}

/// Lifecycle command accepted by an ECC server. `Invalid` is the
/// sentinel for states with no legal operation in the asked direction.
#[derive(Debug, Clone, Copy, PartialEq, Eq, Structural)]
pub enum ECCOperation {
    Describe,
    Prepare,
    Configure,
    Start,
    Undo,
    Breakup,
    Stop,
    Invalid,
}

impl ECCStatus {
    /// Integer coding of a state, the inverse of [`ECCStatus::from_int`].
    pub open spec fn spec_to_int(self) -> i32 {
        match self {
            ECCStatus::Offline => 0,
            ECCStatus::Idle => 1,
            ECCStatus::Described => 2,
            ECCStatus::Prepared => 3,
            ECCStatus::Ready => 4,
            ECCStatus::Running => 5,
            ECCStatus::Transition => 6,
            ECCStatus::Busy => 7,
            ECCStatus::Inconsistent => 8,
            ECCStatus::ErrorStat => 9,
        }
    }

    /// Decoding of an integer state code; every value without an
    /// assigned coding reads as `ErrorStat`.
    pub open spec fn spec_from_int(value: i32) -> ECCStatus {
        if value == 0 {
            ECCStatus::Offline
        } else if value == 1 {
            ECCStatus::Idle
        } else if value == 2 {
            ECCStatus::Described
        } else if value == 3 {
            ECCStatus::Prepared
        } else if value == 4 {
            ECCStatus::Ready
        } else if value == 5 {
            ECCStatus::Running
        } else if value == 6 {
            ECCStatus::Transition
        } else if value == 7 {
            ECCStatus::Busy
        } else if value == 8 {
            ECCStatus::Inconsistent
        } else {
            ECCStatus::ErrorStat
        }
    }

    /// Encode this state as its integer code.
    pub fn to_int(self) -> (code: i32)
        ensures
            code == self.spec_to_int(),
    {
        match self {
            ECCStatus::Offline => 0,
            ECCStatus::Idle => 1,
            ECCStatus::Described => 2,
            ECCStatus::Prepared => 3,
            ECCStatus::Ready => 4,
            ECCStatus::Running => 5,
            ECCStatus::Transition => 6,
            ECCStatus::Busy => 7,
            ECCStatus::Inconsistent => 8,
            ECCStatus::ErrorStat => 9,
        }
    }

    /// Decode an integer state code.
    pub fn from_int(value: i32) -> (status: ECCStatus)
        ensures
            status == ECCStatus::spec_from_int(value),
    {
        match value {
            0 => ECCStatus::Offline,
            1 => ECCStatus::Idle,
            2 => ECCStatus::Described,
            3 => ECCStatus::Prepared,
            4 => ECCStatus::Ready,
            5 => ECCStatus::Running,
            6 => ECCStatus::Transition,
            7 => ECCStatus::Busy,
            8 => ECCStatus::Inconsistent,
            _ => ECCStatus::ErrorStat,
        }
    }

    /// The operation that advances this state one step forward, or
    /// `Invalid` where none is declared.
    pub open spec fn spec_forward_operation(self) -> ECCOperation {
        match self {
            ECCStatus::Idle => ECCOperation::Describe,
            ECCStatus::Described => ECCOperation::Prepare,
            ECCStatus::Prepared => ECCOperation::Configure,
            ECCStatus::Ready => ECCOperation::Start,
            _ => ECCOperation::Invalid,
        }
    }

    /// The operation that moves this state one step backward, or
    /// `Invalid` where none is declared.
    pub open spec fn spec_backward_operation(self) -> ECCOperation {
        match self {
            ECCStatus::Described => ECCOperation::Undo,
            ECCStatus::Prepared => ECCOperation::Undo,
            ECCStatus::Ready => ECCOperation::Undo,
            _ => ECCOperation::Invalid,
        }
    }

    pub fn get_forward_operation(&self) -> (op: ECCOperation)
        ensures
            op == self.spec_forward_operation(),
    {
        match self {
            ECCStatus::Idle => ECCOperation::Describe,
            ECCStatus::Described => ECCOperation::Prepare,
            ECCStatus::Prepared => ECCOperation::Configure,
            ECCStatus::Ready => ECCOperation::Start,
            _ => ECCOperation::Invalid,
        }
    }

    pub fn get_backward_operation(&self) -> (op: ECCOperation)
        ensures
            op == self.spec_backward_operation(),
    {
        match self {
            ECCStatus::Described => ECCOperation::Undo,
            ECCStatus::Prepared => ECCOperation::Undo,
            ECCStatus::Ready => ECCOperation::Undo,
            _ => ECCOperation::Invalid,
        }
    }

    /// States from which the front end may push a module forward. The
    /// `Start` step out of `Ready` is reserved for the run sequencer,
    /// so `Ready` is not included here although the operation map
    /// declares `Ready -> Start`.
    pub open spec fn spec_can_go_forward(self) -> bool {
        match self {
            ECCStatus::Idle => true,
            ECCStatus::Described => true,
            ECCStatus::Prepared => true,
            _ => false,
        }
    }

    /// States from which the front end may undo one step.
    pub open spec fn spec_can_go_backward(self) -> bool {
        match self {
            ECCStatus::Ready => true,
            ECCStatus::Prepared => true,
            ECCStatus::Described => true,
            _ => false,
        }
    }

    pub fn can_go_forward(&self) -> (b: bool)
        ensures
            b == self.spec_can_go_forward(),
    {
        match self {
            ECCStatus::Idle => true,
            ECCStatus::Described => true,
            ECCStatus::Prepared => true,
            _ => false,
        }
    }

    pub fn can_go_backward(&self) -> (b: bool)
        ensures
            b == self.spec_can_go_backward(),
    {
        match self {
            ECCStatus::Ready => true,
            ECCStatus::Prepared => true,
            ECCStatus::Described => true,
            _ => false,
        }
    }

    /// Display label of a state, the inverse of
    /// [`ECCStatus::spec_from_label`] on the labels it emits.
    pub open spec fn spec_label(self) -> Seq<char> {
        match self {
            ECCStatus::Offline => "Offline"@,
            ECCStatus::Transition => "Transition"@,
            ECCStatus::Idle => "Idle"@,
            ECCStatus::Prepared => "Prepared"@,
            ECCStatus::Described => "Described"@,
            ECCStatus::Ready => "Ready"@,
            ECCStatus::Running => "Running"@,
            ECCStatus::ErrorStat => "Error"@,
            ECCStatus::Inconsistent => "Inconsistent"@,
            ECCStatus::Busy => "Busy"@,
        }
    }

    pub fn to_label(&self) -> (label: String)
        ensures
            label@ == self.spec_label(),
    {
        match self {
            ECCStatus::Offline => String::from_str("Offline"),
            ECCStatus::Transition => String::from_str("Transition"),
            ECCStatus::Idle => String::from_str("Idle"),
            ECCStatus::Prepared => String::from_str("Prepared"),
            ECCStatus::Described => String::from_str("Described"),
            ECCStatus::Ready => String::from_str("Ready"),
            ECCStatus::Running => String::from_str("Running"),
            ECCStatus::ErrorStat => String::from_str("Error"),
            ECCStatus::Inconsistent => String::from_str("Inconsistent"),
            ECCStatus::Busy => String::from_str("Busy"),
        }
    }

    /// The state a label names, if any.
    pub open spec fn spec_from_label(value: Seq<char>) -> Option<ECCStatus> {
        if value == "Offline"@ {
            Some(ECCStatus::Offline)
        } else if value == "Transition"@ {
            Some(ECCStatus::Transition)
        } else if value == "Idle"@ {
            Some(ECCStatus::Idle)
        } else if value == "Prepared"@ {
            Some(ECCStatus::Prepared)
        } else if value == "Described"@ {
            Some(ECCStatus::Described)
        } else if value == "Ready"@ {
            Some(ECCStatus::Ready)
        } else if value == "Running"@ {
            Some(ECCStatus::Running)
        } else if value == "Error"@ {
            Some(ECCStatus::ErrorStat)
        } else if value == "Inconsistent"@ {
            Some(ECCStatus::Inconsistent)
        } else if value == "Busy"@ {
            Some(ECCStatus::Busy)
        } else {
            None
        }
    }

    /// Decode a state label; an unknown label is handed back inside
    /// the error.
    pub fn from_label(value: String) -> (r: Result<ECCStatus, ECCStatusError>)
        ensures
            match r {
                Ok(status) => ECCStatus::spec_from_label(value@) == Some(status),
                Err(e) => {
                    &&& ECCStatus::spec_from_label(value@) is None
                    &&& e matches ECCStatusError::BadString(s) && s@ == value@
                },
            },
    {
        if str_eq(value.as_str(), "Offline") {
            Ok(ECCStatus::Offline)
        } else if str_eq(value.as_str(), "Transition") {
            Ok(ECCStatus::Transition)
        } else if str_eq(value.as_str(), "Idle") {
            Ok(ECCStatus::Idle)
        } else if str_eq(value.as_str(), "Prepared") {
            Ok(ECCStatus::Prepared)
        } else if str_eq(value.as_str(), "Described") {
            Ok(ECCStatus::Described)
        } else if str_eq(value.as_str(), "Ready") {
            Ok(ECCStatus::Ready)
        } else if str_eq(value.as_str(), "Running") {
            Ok(ECCStatus::Running)
        } else if str_eq(value.as_str(), "Error") {
            Ok(ECCStatus::ErrorStat)
        } else if str_eq(value.as_str(), "Inconsistent") {
            Ok(ECCStatus::Inconsistent)
        } else if str_eq(value.as_str(), "Busy") {
            Ok(ECCStatus::Busy)
        } else {
            Err(ECCStatusError::BadString(value))
        }
    }

    /// The integer coding is bidirectional: decoding the code of a
    /// state gives the state back.
    pub proof fn lemma_int_roundtrip(self)
        ensures
            ECCStatus::spec_from_int(self.spec_to_int()) == self,
    {
    }

    /// The text coding is bidirectional: decoding the label of a state
    /// gives the state back.
    pub proof fn lemma_label_roundtrip(self)
        ensures
            ECCStatus::spec_from_label(self.spec_label()) == Some(self),
    {
        broadcast use vstd::string::group_string_axioms;

        reveal_strlit("Offline");
        reveal_strlit("Transition");
        reveal_strlit("Idle");
        reveal_strlit("Prepared");
        reveal_strlit("Described");
        reveal_strlit("Ready");
        reveal_strlit("Running");
        reveal_strlit("Error");
        reveal_strlit("Inconsistent");
        reveal_strlit("Busy");
        assert("Offline"@.len() == 7);
        assert("Transition"@.len() == 10);
        assert("Idle"@.len() == 4);
        assert("Prepared"@.len() == 8);
        assert("Described"@.len() == 9);
        assert("Ready"@.len() == 5);
        assert("Running"@.len() == 7);
        assert("Error"@.len() == 5);
        assert("Inconsistent"@.len() == 12);
        assert("Busy"@.len() == 4);
        assert("Offline"@[0] == 'O' && "Running"@[0] == 'R');
        assert("Ready"@[0] == 'R' && "Error"@[0] == 'E');
        assert("Idle"@[0] == 'I' && "Busy"@[0] == 'B');
    }

    /// Position of a state along the ordered forward chain; states off
    /// the chain have no rank.
    pub open spec fn spec_rank(self) -> Option<int> {
        match self {
            ECCStatus::Offline => Some(0int),
            ECCStatus::Idle => Some(1int),
            ECCStatus::Described => Some(2int),
            ECCStatus::Prepared => Some(3int),
            ECCStatus::Ready => Some(4int),
            ECCStatus::Running => Some(5int),
            _ => None,
        }
    }
}

impl ECCOperation {
    /// Wire label of an operation, used as the XML tag of a transition
    /// request.
    pub open spec fn spec_label(self) -> Seq<char> {
        match self {
            ECCOperation::Describe => "Describe"@,
            ECCOperation::Prepare => "Prepare"@,
            ECCOperation::Configure => "Configure"@,
            ECCOperation::Start => "Start"@,
            ECCOperation::Undo => "Undo"@,
            ECCOperation::Breakup => "Breakup"@,
            ECCOperation::Stop => "Stop"@,
            ECCOperation::Invalid => "Invalid"@,
        }
    }

    pub fn to_label(&self) -> (label: String)
        ensures
            label@ == self.spec_label(),
    {
        match self {
            ECCOperation::Describe => String::from_str("Describe"),
            ECCOperation::Prepare => String::from_str("Prepare"),
            ECCOperation::Configure => String::from_str("Configure"),
            ECCOperation::Start => String::from_str("Start"),
            ECCOperation::Undo => String::from_str("Undo"),
            ECCOperation::Breakup => String::from_str("Breakup"),
            ECCOperation::Stop => String::from_str("Stop"),
            ECCOperation::Invalid => String::from_str("Invalid"),
        }
    }

    /// The operation a label names, if any.
    pub open spec fn spec_from_label(value: Seq<char>) -> Option<ECCOperation> {
        if value == "Describe"@ {
            Some(ECCOperation::Describe)
        } else if value == "Prepare"@ {
            Some(ECCOperation::Prepare)
        } else if value == "Configure"@ {
            Some(ECCOperation::Configure)
        } else if value == "Start"@ {
            Some(ECCOperation::Start)
        } else if value == "Undo"@ {
            Some(ECCOperation::Undo)
        } else if value == "Breakup"@ {
            Some(ECCOperation::Breakup)
        } else if value == "Stop"@ {
            Some(ECCOperation::Stop)
        } else if value == "Invalid"@ {
            Some(ECCOperation::Invalid)
        } else {
            None
        }
    }

    /// Decode an operation label; an unknown label is handed back
    /// inside the error.
    pub fn from_label(value: String) -> (r: Result<ECCOperation, ECCOperationError>)
        ensures
            match r {
                Ok(op) => ECCOperation::spec_from_label(value@) == Some(op),
                Err(e) => {
                    &&& ECCOperation::spec_from_label(value@) is None
                    &&& e matches ECCOperationError::BadString(s) && s@ == value@
                },
            },
    {
        if str_eq(value.as_str(), "Describe") {
            Ok(ECCOperation::Describe)
        } else if str_eq(value.as_str(), "Prepare") {
            Ok(ECCOperation::Prepare)
        } else if str_eq(value.as_str(), "Configure") {
            Ok(ECCOperation::Configure)
        } else if str_eq(value.as_str(), "Start") {
            Ok(ECCOperation::Start)
        } else if str_eq(value.as_str(), "Undo") {
            Ok(ECCOperation::Undo)
        } else if str_eq(value.as_str(), "Breakup") {
            Ok(ECCOperation::Breakup)
        } else if str_eq(value.as_str(), "Stop") {
            Ok(ECCOperation::Stop)
        } else if str_eq(value.as_str(), "Invalid") {
            Ok(ECCOperation::Invalid)
        } else {
            Err(ECCOperationError::BadString(value))
        }
    }

    /// The text coding is bidirectional: decoding the label of an
    /// operation gives the operation back.
    pub proof fn lemma_label_roundtrip(self)
        ensures
            ECCOperation::spec_from_label(self.spec_label()) == Some(self),
    {
        broadcast use vstd::string::group_string_axioms;

        reveal_strlit("Describe");
        reveal_strlit("Prepare");
        reveal_strlit("Configure");
        reveal_strlit("Start");
        reveal_strlit("Undo");
        reveal_strlit("Breakup");
        reveal_strlit("Stop");
        reveal_strlit("Invalid");
        assert("Describe"@.len() == 8);
        assert("Prepare"@.len() == 7);
        assert("Configure"@.len() == 9);
        assert("Start"@.len() == 5);
        assert("Undo"@.len() == 4);
        assert("Breakup"@.len() == 7);
        assert("Stop"@.len() == 4);
        assert("Invalid"@.len() == 7);
        assert("Prepare"@[0] == 'P' && "Breakup"@[0] == 'B' && "Invalid"@[0] == 'I');
        assert("Undo"@[0] == 'U' && "Stop"@[0] == 'S');
    }
}

/// The declared transition map: the state an ECC server reaches when it
/// accepts `op` in state `before`, or `None` where the map declares no
/// such edge. `Breakup` tears any state down to `Idle`.
pub open spec fn spec_transition(before: ECCStatus, op: ECCOperation) -> Option<ECCStatus> {
    match op {
        ECCOperation::Describe => if before == ECCStatus::Idle {
            Some(ECCStatus::Described)
        } else {
            None
        },
        ECCOperation::Prepare => if before == ECCStatus::Described {
            Some(ECCStatus::Prepared)
        } else {
            None
        },
        ECCOperation::Configure => if before == ECCStatus::Prepared {
            Some(ECCStatus::Ready)
        } else {
            None
        },
        ECCOperation::Start => if before == ECCStatus::Ready {
            Some(ECCStatus::Running)
        } else {
            None
        },
        ECCOperation::Stop => if before == ECCStatus::Running {
            Some(ECCStatus::Ready)
        } else {
            None
        },
        ECCOperation::Undo => match before {
            ECCStatus::Described => Some(ECCStatus::Idle),
            ECCStatus::Prepared => Some(ECCStatus::Described),
            ECCStatus::Ready => Some(ECCStatus::Prepared),
            _ => None,
        },
        ECCOperation::Breakup => Some(ECCStatus::Idle),
        ECCOperation::Invalid => None,
    }
}

/// The state after a command is reachable from the state before it via
/// the declared operation map: every non-`Invalid` forward operation is
/// a declared edge that advances the lifecycle rank by exactly one, and
/// every non-`Invalid` backward operation is a declared edge that
/// lowers it by exactly one.
pub proof fn lemma_operation_map_steps(s: ECCStatus)
    ensures
        s.spec_forward_operation() != ECCOperation::Invalid ==> {
            let after = spec_transition(s, s.spec_forward_operation());
            &&& after is Some
            &&& s.spec_rank() is Some
            &&& after->Some_0.spec_rank() == Some(s.spec_rank()->Some_0 + 1)
        },
        s.spec_backward_operation() != ECCOperation::Invalid ==> {
            let after = spec_transition(s, s.spec_backward_operation());
            &&& after is Some
            &&& s.spec_rank() is Some
            &&& after->Some_0.spec_rank() == Some(s.spec_rank()->Some_0 - 1)
        },
{
}

/// Stopping is the inverse of starting: `Start` is declared exactly on
/// `Ready` and lands in `Running`, and `Stop` is declared exactly on
/// `Running` and lands back in `Ready`.
pub proof fn lemma_start_stop_inverse(s: ECCStatus)
    ensures
        spec_transition(s, ECCOperation::Start) is Some <==> s == ECCStatus::Ready,
        spec_transition(s, ECCOperation::Stop) is Some <==> s == ECCStatus::Running,
        s == ECCStatus::Ready ==> spec_transition(
            spec_transition(s, ECCOperation::Start)->Some_0,
            ECCOperation::Stop,
        ) == Some(s),
{
}

} // verus!
