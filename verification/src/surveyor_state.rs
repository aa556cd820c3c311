//! Surveyor (data-router) states and disk statuses with their integer
//! and text codings.

use vstd::prelude::*;
use crate::textutil::str_eq;

verus! {

/// Reported state of one Surveyor endpoint.
#[derive(Debug, Clone, Copy, PartialEq, Eq, Structural)]
pub enum SurveyorState {
    Online,
    Offline,
    Invalid,
    Inconsistent,
}

/// Whether a Surveyor's mount currently holds acquisition files.
#[derive(Debug, Clone, Copy, PartialEq, Eq, Structural)]
pub enum SurveyorDiskStatus {
    Filled,
    Empty,
    NA,
}

impl SurveyorState {
    /// Decoding of the integer on the first line of a Surveyor body:
    /// zero is offline, one is online, everything else invalid.
    pub open spec fn spec_from_int(value: i32) -> SurveyorState {
        if value == 0 {
            SurveyorState::Offline
        } else if value == 1 {
            SurveyorState::Online
        } else {
            SurveyorState::Invalid
        }
    }

    pub fn from_int(value: i32) -> (state: SurveyorState)
        ensures
            state == SurveyorState::spec_from_int(value),
    {
        match value {
            0 => SurveyorState::Offline,
            1 => SurveyorState::Online,
            _ => SurveyorState::Invalid,
        }
    }

    /// Display label of a state. `Inconsistent` deliberately shares the
    /// `Invalid` label: the front end shows both the same way.
    pub open spec fn spec_label(self) -> Seq<char> {
        match self {
            SurveyorState::Online => "Online"@,
            SurveyorState::Offline => "Offline"@,
            SurveyorState::Invalid => "Invalid"@,
            SurveyorState::Inconsistent => "Invalid"@,
        }
    }

    pub fn to_label(&self) -> (label: String)
        ensures
            label@ == self.spec_label(),
    {
        match self {
            SurveyorState::Online => String::from_str("Online"),
            SurveyorState::Offline => String::from_str("Offline"),
            SurveyorState::Invalid => String::from_str("Invalid"),
            SurveyorState::Inconsistent => String::from_str("Invalid"),
        }
    }
}

impl SurveyorDiskStatus {
    /// Decoding of a disk-status label; unknown labels read as `NA`.
    pub open spec fn spec_from_label(value: Seq<char>) -> SurveyorDiskStatus {
        if value == "Filled"@ {
            SurveyorDiskStatus::Filled
        } else if value == "Empty"@ {
            SurveyorDiskStatus::Empty
        } else {
            SurveyorDiskStatus::NA
        }
    }

    pub fn from_label(value: &str) -> (status: SurveyorDiskStatus)
        ensures
            status == SurveyorDiskStatus::spec_from_label(value@),
    {
        if str_eq(value, "Filled") {
            SurveyorDiskStatus::Filled
        } else if str_eq(value, "Empty") {
            SurveyorDiskStatus::Empty
        } else {
            SurveyorDiskStatus::NA
        }
    }

    pub open spec fn spec_label(self) -> Seq<char> {
        match self {
            SurveyorDiskStatus::Filled => "Filled"@,
            SurveyorDiskStatus::Empty => "Empty"@,
            SurveyorDiskStatus::NA => "N/A"@,
        }
    }

    pub fn to_label(&self) -> (label: String)
        ensures
            label@ == self.spec_label(),
    {
        match self {
            SurveyorDiskStatus::Filled => String::from_str("Filled"),
            SurveyorDiskStatus::Empty => String::from_str("Empty"),
            SurveyorDiskStatus::NA => String::from_str("N/A"),
        }
    }

    /// Encoding followed by decoding gives the status back for the two
    /// labels that code real contents; `NA` also rounds trip because
    /// its label codes nothing else.
    pub proof fn lemma_label_roundtrip(self)
        ensures
            SurveyorDiskStatus::spec_from_label(self.spec_label()) == self,
    {
        broadcast use vstd::string::group_string_axioms;

        reveal_strlit("Filled");
        reveal_strlit("Empty");
        reveal_strlit("N/A");
        assert("Filled"@.len() == 6);
        assert("Empty"@.len() == 5);
        assert("N/A"@.len() == 3);
    }
}

} // verus!
