//! The status aggregator: per-module last-known ECC and Surveyor
//! snapshots, the busy holds placed around commanded transitions, the
//! fleet-level aggregation, and the gating predicate the run lifecycle
//! is driven by. Only the synchronous thread that drains the hub
//! touches it.

use vstd::prelude::*;
use crate::constants::{MUTANT_ID, NUMBER_OF_MODULES};
use crate::ecc_envoy::{spec_offline_status, ECCStatusResponse, ECCStatusResponseView};
use crate::ecc_operation::ECCStatus;
use crate::error::EmbassyError;
use crate::message::{EmbassyMessage, EmbassyMessageView, MessageKind, MessagePayloadView};
use crate::surveyor_envoy::{spec_default_surveyor, SurveyorResponse, SurveyorResponseView};
use crate::surveyor_state::SurveyorState;

verus! {

/// The state an ECC snapshot effectively reports: a nonzero error code
/// reads as `ErrorStat`, a nonzero transition flag as `Transition`,
/// and otherwise the decoded state code.
pub open spec fn spec_effective_status(r: ECCStatusResponseView) -> ECCStatus {
    if r.error_code != 0 {
        ECCStatus::ErrorStat
    } else if r.transition != 0 {
        ECCStatus::Transition
    } else {
        ECCStatus::spec_from_int(r.state)
    }
}

/// Compute the state a snapshot effectively reports.
pub fn effective_status(r: &ECCStatusResponse) -> (s: ECCStatus)
    ensures
        s == spec_effective_status(r@),
{
    if r.error_code != 0 {
        ECCStatus::ErrorStat
    } else if r.transition != 0 {
        ECCStatus::Transition
    } else {
        ECCStatus::from_int(r.state)
    }
}

/// The snapshot stamped onto a module when a hold is placed: no error,
/// no transition flag, and the `Busy` state code.
pub open spec fn spec_busy_status() -> ECCStatusResponseView {
    ECCStatusResponseView {
        error_code: 0,
        error_message: Seq::empty(),
        state: ECCStatus::Busy.spec_to_int(),
        transition: 0,
    }
}

/// Mathematical content of a [`StatusManager`].
#[verifier::ext_equal]
pub struct StatusManagerView {
    pub ecc_status: Seq<ECCStatusResponseView>,
    pub surveyor_status: Seq<SurveyorResponseView>,
    pub ecc_holds: Seq<bool>,
}

/// The aggregator itself: one ECC snapshot and one hold per module,
/// one Surveyor snapshot per CoBo.
#[derive(Debug)]
pub struct StatusManager {
    ecc_status: Vec<ECCStatusResponse>,
    surveyor_status: Vec<SurveyorResponse>,
    ecc_holds: Vec<bool>,
}

impl View for StatusManager {
    type V = StatusManagerView;

    closed spec fn view(&self) -> StatusManagerView {
        StatusManagerView {
            ecc_status: self.ecc_status@.map_values(|r: ECCStatusResponse| r@),
            surveyor_status: self.surveyor_status@.map_values(|r: SurveyorResponse| r@),
            ecc_holds: self.ecc_holds@,
        }
    }
}

/// An envelope the aggregator can ingest: its payload matches its kind
/// tag, or its kind is one the aggregator ignores.
pub open spec fn spec_ingestible(m: EmbassyMessageView) -> bool {
    match m.kind {
        MessageKind::ECCOperation => m.payload matches MessagePayloadView::EccOperation(_),
        MessageKind::ECCStatus => m.payload matches MessagePayloadView::EccStatus(_),
        MessageKind::Surveyor => m.payload matches MessagePayloadView::Surveyor(_),
        MessageKind::Other => true,
        MessageKind::Cancel => true,
    }
}

/// What ingesting one envelope does: an operation response releases
/// its module's hold, a status snapshot lands unless the module is
/// held, a Surveyor snapshot always lands, and everything else —
/// including any envelope whose module id is out of range — changes
/// nothing.
pub open spec fn spec_ingest(v: StatusManagerView, m: EmbassyMessageView) -> StatusManagerView {
    match m.payload {
        MessagePayloadView::EccOperation(_) => {
            if m.kind == MessageKind::ECCOperation && 0 <= m.id < v.ecc_holds.len() {
                StatusManagerView { ecc_holds: v.ecc_holds.update(m.id as int, false), ..v }
            } else {
                v
            }
        },
        MessagePayloadView::EccStatus(p) => {
            if m.kind == MessageKind::ECCStatus && 0 <= m.id < v.ecc_status.len()
                && m.id < v.ecc_holds.len() && !v.ecc_holds[m.id as int] {
                StatusManagerView { ecc_status: v.ecc_status.update(m.id as int, p), ..v }
            } else {
                v
            }
        },
        MessagePayloadView::Surveyor(p) => {
            if m.kind == MessageKind::Surveyor && 0 <= m.id < v.surveyor_status.len() {
                StatusManagerView { surveyor_status: v.surveyor_status.update(m.id as int, p), ..v }
            } else {
                v
            }
        },
        MessagePayloadView::Empty => v,
    }
}

/// Ingesting a batch, in order.
pub open spec fn spec_ingest_all(v: StatusManagerView, ms: Seq<EmbassyMessageView>) -> StatusManagerView
    decreases ms.len(),
{
    if ms.len() == 0 {
        v
    } else {
        spec_ingest(spec_ingest_all(v, ms.drop_last()), ms.last())
    }
}

/// The views of a batch of envelopes.
pub open spec fn spec_views(ms: Seq<EmbassyMessage>) -> Seq<EmbassyMessageView> {
    ms.map_values(|m: EmbassyMessage| m@)
}

fn default_ecc_vec() -> (v: Vec<ECCStatusResponse>)
    ensures
        v@.len() == NUMBER_OF_MODULES,
        forall|i: int| 0 <= i < v@.len() ==> #[trigger] v@[i]@ == spec_offline_status(),
{
    let mut v: Vec<ECCStatusResponse> = Vec::new();
    let mut i: usize = 0;
    while i < NUMBER_OF_MODULES
        invariant
            i <= NUMBER_OF_MODULES,
            v@.len() == i,
            forall|k: int| 0 <= k < v@.len() ==> #[trigger] v@[k]@ == spec_offline_status(),
        decreases NUMBER_OF_MODULES - i,
    {
        v.push(ECCStatusResponse::default());
        i += 1;
    }
    v
}

fn default_surveyor_vec() -> (v: Vec<SurveyorResponse>)
    ensures
        v@.len() == NUMBER_OF_MODULES - 1,
        forall|i: int| 0 <= i < v@.len() ==> #[trigger] v@[i]@ == spec_default_surveyor(),
{
    let mut v: Vec<SurveyorResponse> = Vec::new();
    let mut i: usize = 0;
    while i < NUMBER_OF_MODULES - 1
        invariant
            i <= NUMBER_OF_MODULES - 1,
            v@.len() == i,
            forall|k: int| 0 <= k < v@.len() ==> #[trigger] v@[k]@ == spec_default_surveyor(),
        decreases NUMBER_OF_MODULES - 1 - i,
    {
        v.push(SurveyorResponse::default());
        i += 1;
    }
    v
}

fn default_holds_vec() -> (v: Vec<bool>)
    ensures
        v@ =~= Seq::new(NUMBER_OF_MODULES as nat, |i: int| false),
{
    let mut v: Vec<bool> = Vec::new();
    let mut i: usize = 0;
    while i < NUMBER_OF_MODULES
        invariant
            i <= NUMBER_OF_MODULES,
            v@.len() == i,
            forall|k: int| 0 <= k < v@.len() ==> !(#[trigger] v@[k]),
        decreases NUMBER_OF_MODULES - i,
    {
        v.push(false);
        i += 1;
    }
    proof {
        assert(v@ =~= Seq::new(NUMBER_OF_MODULES as nat, |i: int| false));
    }
    v
}

impl StatusManager {
    /// Shape of a well-formed aggregator: one ECC slot and one hold per
    /// module, one Surveyor slot per CoBo.
    pub open spec fn wf(&self) -> bool {
        &&& self@.ecc_status.len() == NUMBER_OF_MODULES
        &&& self@.surveyor_status.len() == NUMBER_OF_MODULES - 1
        &&& self@.ecc_holds.len() == NUMBER_OF_MODULES
    }

    /// A fresh aggregator: every module offline, no holds.
    pub fn new() -> (manager: StatusManager)
        ensures
            manager.wf(),
            forall|i: int|
                0 <= i < NUMBER_OF_MODULES ==> #[trigger] manager@.ecc_status[i]
                    == spec_offline_status(),
            forall|i: int|
                0 <= i < NUMBER_OF_MODULES - 1 ==> #[trigger] manager@.surveyor_status[i]
                    == spec_default_surveyor(),
            forall|i: int| 0 <= i < NUMBER_OF_MODULES ==> !(#[trigger] manager@.ecc_holds[i]),
    {
        StatusManager {
            ecc_status: default_ecc_vec(),
            surveyor_status: default_surveyor_vec(),
            ecc_holds: default_holds_vec(),
        }
    }

    /// Put every snapshot and hold back to its default, as after a
    /// disconnect.
    pub fn reset(&mut self)
        ensures
            final(self).wf(),
            forall|i: int|
                0 <= i < NUMBER_OF_MODULES ==> #[trigger] final(self)@.ecc_status[i]
                    == spec_offline_status(),
            forall|i: int|
                0 <= i < NUMBER_OF_MODULES - 1 ==> #[trigger] final(self)@.surveyor_status[i]
                    == spec_default_surveyor(),
            forall|i: int| 0 <= i < NUMBER_OF_MODULES ==> !(#[trigger] final(self)@.ecc_holds[i]),
    {
        self.ecc_status = default_ecc_vec();
        self.surveyor_status = default_surveyor_vec();
        self.ecc_holds = default_holds_vec();
    }

    /// Ingest a batch of envelopes in order. Stops at the first
    /// envelope whose payload does not match its kind tag and reports
    /// the mismatch; everything before it has landed.
    pub fn handle_messages(&mut self, messages: &[EmbassyMessage]) -> (r: Result<
        (),
        EmbassyError,
    >)
        requires
            old(self).wf(),
        ensures
            final(self).wf(),
            match r {
                Ok(()) => {
                    &&& forall|i: int|
                        0 <= i < messages@.len() ==> spec_ingestible(#[trigger] messages@[i]@)
                    &&& final(self)@ == spec_ingest_all(old(self)@, spec_views(messages@))
                },
                Err(e) => exists|j: int|
                    {
                        &&& 0 <= j < messages@.len()
                        &&& !spec_ingestible(#[trigger] messages@[j]@)
                        &&& forall|i: int| 0 <= i < j ==> spec_ingestible(#[trigger] messages@[i]@)
                        &&& final(self)@ == spec_ingest_all(old(self)@, spec_views(messages@).take(j))
                        &&& e matches EmbassyError::MessageKindError(want, got) && want
                            == messages@[j]@.kind && got == messages@[j]@.kind
                    },
            },
    {
        let ghost v0 = self@;
        let mut k: usize = 0;
        while k < messages.len()
            invariant
                old(self).wf(),
                self.wf(),
                k <= messages@.len(),
                v0 == old(self)@,
                forall|i: int| 0 <= i < k ==> spec_ingestible(#[trigger] messages@[i]@),
                self@ == spec_ingest_all(v0, spec_views(messages@).take(k as int)),
            decreases messages@.len() - k,
        {
            let message = &messages[k];
            proof {
                assert(spec_views(messages@).take(k + 1).drop_last() =~= spec_views(
                    messages@,
                ).take(k as int));
                assert(spec_views(messages@).take(k + 1).last() == messages@[k as int]@);
            }
            match message.kind {
                MessageKind::ECCOperation => {
                    let resp = match message.try_into_ecc_op() {
                        Ok(resp) => resp,
                        Err(e) => {
                            return Err(e);
                        },
                    };
                    if message.id >= 0 && (message.id as usize) < NUMBER_OF_MODULES {
                        let idx = message.id as usize;
                        self.ecc_holds[idx] = false;
                        proof {
                            assert(self@ =~= spec_ingest_all(
                                v0,
                                spec_views(messages@).take(k + 1),
                            ));
                        }
                    }
                },
                MessageKind::ECCStatus => {
                    let resp = match message.try_into_ecc_status() {
                        Ok(resp) => resp,
                        Err(e) => {
                            return Err(e);
                        },
                    };
                    if message.id >= 0 && (message.id as usize) < NUMBER_OF_MODULES {
                        let idx = message.id as usize;
                        if !self.ecc_holds[idx] {
                            self.ecc_status[idx] = resp;
                            proof {
                                assert(self@.ecc_status =~= spec_ingest_all(
                                    v0,
                                    spec_views(messages@).take(k + 1),
                                ).ecc_status);
                                assert(self@ =~= spec_ingest_all(
                                    v0,
                                    spec_views(messages@).take(k + 1),
                                ));
                            }
                        }
                    }
                },
                MessageKind::Surveyor => {
                    let resp = match message.try_into_surveyor() {
                        Ok(resp) => resp,
                        Err(e) => {
                            return Err(e);
                        },
                    };
                    if message.id >= 0 && (message.id as usize) < NUMBER_OF_MODULES - 1 {
                        let idx = message.id as usize;
                        self.surveyor_status[idx] = resp;
                        proof {
                            assert(self@.surveyor_status =~= spec_ingest_all(
                                v0,
                                spec_views(messages@).take(k + 1),
                            ).surveyor_status);
                            assert(self@ =~= spec_ingest_all(
                                v0,
                                spec_views(messages@).take(k + 1),
                            ));
                        }
                    }
                },
                MessageKind::Other => {},
                MessageKind::Cancel => {},
            }
            proof {
                assert(self@ =~= spec_ingest_all(v0, spec_views(messages@).take(k + 1)));
            }
            k += 1;
        }
        proof {
            assert(spec_views(messages@).take(messages@.len() as int) =~= spec_views(messages@));
        }
        Ok(())
    }

    /// The recorded ECC snapshots, one per module.
    pub fn get_ecc_status_response(&self) -> (r: &[ECCStatusResponse])
        ensures
            r@.map_values(|resp: ECCStatusResponse| resp@) == self@.ecc_status,
    {
        self.ecc_status.as_slice()
    }

    /// The state module `id` effectively reports.
    pub fn get_ecc_status(&self, id: usize) -> (s: ECCStatus)
        requires
            self.wf(),
            id < NUMBER_OF_MODULES,
        ensures
            s == spec_effective_status(self@.ecc_status[id as int]),
    {
        effective_status(&self.ecc_status[id])
    }

    /// Fleet-level ECC state: the common effective state if every
    /// module reports the same one, else `Inconsistent`.
    pub fn get_system_ecc_status(&self) -> (s: ECCStatus)
        requires
            self.wf(),
        ensures
            (forall|i: int|
                0 <= i < NUMBER_OF_MODULES ==> spec_effective_status(#[trigger] self@.ecc_status[i])
                    == spec_effective_status(self@.ecc_status[0])) ==> s == spec_effective_status(
                self@.ecc_status[0],
            ),
            !(forall|i: int|
                0 <= i < NUMBER_OF_MODULES ==> spec_effective_status(#[trigger] self@.ecc_status[i])
                    == spec_effective_status(self@.ecc_status[0])) ==> s == ECCStatus::Inconsistent,
    {
        let first = effective_status(&self.ecc_status[0]);
        let mut i: usize = 1;
        while i < NUMBER_OF_MODULES
            invariant
                self.wf(),
                1 <= i <= NUMBER_OF_MODULES,
                first == spec_effective_status(self@.ecc_status[0]),
                forall|k: int|
                    0 <= k < i ==> spec_effective_status(#[trigger] self@.ecc_status[k]) == first,
            decreases NUMBER_OF_MODULES - i,
        {
            if effective_status(&self.ecc_status[i]) != first {
                proof {
                    assert(spec_effective_status(self@.ecc_status[i as int]) != first);
                }
                return ECCStatus::Inconsistent;
            }
            i += 1;
        }
        first
    }

    /// Every module effectively reports `Ready`.
    pub fn is_system_ready(&self) -> (r: bool)
        requires
            self.wf(),
        ensures
            r == forall|i: int|
                0 <= i < NUMBER_OF_MODULES ==> spec_effective_status(#[trigger] self@.ecc_status[i])
                    == ECCStatus::Ready,
    {
        let mut i: usize = 0;
        while i < NUMBER_OF_MODULES
            invariant
                self.wf(),
                i <= NUMBER_OF_MODULES,
                forall|k: int|
                    0 <= k < i ==> spec_effective_status(#[trigger] self@.ecc_status[k])
                        == ECCStatus::Ready,
            decreases NUMBER_OF_MODULES - i,
        {
            if !matches!(effective_status(&self.ecc_status[i]), ECCStatus::Ready) {
                proof {
                    assert(spec_effective_status(self@.ecc_status[i as int]) != ECCStatus::Ready);
                }
                return false;
            }
            i += 1;
        }
        true
    }

    /// Every module effectively reports `Running`.
    pub fn is_system_running(&self) -> (r: bool)
        requires
            self.wf(),
        ensures
            r == forall|i: int|
                0 <= i < NUMBER_OF_MODULES ==> spec_effective_status(#[trigger] self@.ecc_status[i])
                    == ECCStatus::Running,
    {
        let mut i: usize = 0;
        while i < NUMBER_OF_MODULES
            invariant
                self.wf(),
                i <= NUMBER_OF_MODULES,
                forall|k: int|
                    0 <= k < i ==> spec_effective_status(#[trigger] self@.ecc_status[k])
                        == ECCStatus::Running,
            decreases NUMBER_OF_MODULES - i,
        {
            if !matches!(effective_status(&self.ecc_status[i]), ECCStatus::Running) {
                proof {
                    assert(spec_effective_status(self@.ecc_status[i as int]) != ECCStatus::Running);
                }
                return false;
            }
            i += 1;
        }
        true
    }

    /// Every CoBo — every module but the master — effectively reports
    /// `Running`.
    pub fn is_all_but_mutant_running(&self) -> (r: bool)
        requires
            self.wf(),
        ensures
            r == forall|i: int|
                0 <= i < NUMBER_OF_MODULES - 1 ==> spec_effective_status(
                    #[trigger] self@.ecc_status[i],
                ) == ECCStatus::Running,
    {
        let mut i: usize = 0;
        while i < NUMBER_OF_MODULES - 1
            invariant
                self.wf(),
                i <= NUMBER_OF_MODULES - 1,
                forall|k: int|
                    0 <= k < i ==> spec_effective_status(#[trigger] self@.ecc_status[k])
                        == ECCStatus::Running,
            decreases NUMBER_OF_MODULES - 1 - i,
        {
            if !matches!(effective_status(&self.ecc_status[i]), ECCStatus::Running) {
                proof {
                    assert(spec_effective_status(self@.ecc_status[i as int]) != ECCStatus::Running);
                }
                return false;
            }
            i += 1;
        }
        true
    }

    /// Every CoBo effectively reports `Ready`.
    pub fn is_all_but_mutant_ready(&self) -> (r: bool)
        requires
            self.wf(),
        ensures
            r == forall|i: int|
                0 <= i < NUMBER_OF_MODULES - 1 ==> spec_effective_status(
                    #[trigger] self@.ecc_status[i],
                ) == ECCStatus::Ready,
    {
        let mut i: usize = 0;
        while i < NUMBER_OF_MODULES - 1
            invariant
                self.wf(),
                i <= NUMBER_OF_MODULES - 1,
                forall|k: int|
                    0 <= k < i ==> spec_effective_status(#[trigger] self@.ecc_status[k])
                        == ECCStatus::Ready,
            decreases NUMBER_OF_MODULES - 1 - i,
        {
            if !matches!(effective_status(&self.ecc_status[i]), ECCStatus::Ready) {
                proof {
                    assert(spec_effective_status(self@.ecc_status[i as int]) != ECCStatus::Ready);
                }
                return false;
            }
            i += 1;
        }
        true
    }

    /// The master no longer reports `Running`.
    pub fn is_mutant_stopped(&self) -> (r: bool)
        requires
            self.wf(),
        ensures
            r == (spec_effective_status(self@.ecc_status[MUTANT_ID as int])
                != ECCStatus::Running),
    {
        !matches!(self.get_ecc_status(MUTANT_ID), ECCStatus::Running)
    }

    /// The master reports `Prepared`.
    pub fn is_mutant_prepared(&self) -> (r: bool)
        requires
            self.wf(),
        ensures
            r == (spec_effective_status(self@.ecc_status[MUTANT_ID as int])
                == ECCStatus::Prepared),
    {
        matches!(self.get_ecc_status(MUTANT_ID), ECCStatus::Prepared)
    }

    /// The master reports `Ready`.
    pub fn is_mutant_ready(&self) -> (r: bool)
        requires
            self.wf(),
        ensures
            r == (spec_effective_status(self@.ecc_status[MUTANT_ID as int]) == ECCStatus::Ready),
    {
        matches!(self.get_ecc_status(MUTANT_ID), ECCStatus::Ready)
    }

    /// The recorded Surveyor snapshots, one per CoBo.
    pub fn get_surveyor_status_response(&self) -> (r: &[SurveyorResponse])
        ensures
            r@.map_values(|resp: SurveyorResponse| resp@) == self@.surveyor_status,
    {
        self.surveyor_status.as_slice()
    }

    /// The state the Surveyor of CoBo `id` reports.
    pub fn get_surveyor_status(&self, id: usize) -> (s: SurveyorState)
        requires
            self.wf(),
            id < NUMBER_OF_MODULES - 1,
        ensures
            s == SurveyorState::spec_from_int(self@.surveyor_status[id as int].state),
    {
        SurveyorState::from_int(self.surveyor_status[id].state)
    }

    /// Fleet-level Surveyor state: the common decoded state if every
    /// Surveyor reports the same state code, else `Inconsistent`.
    pub fn get_surveyor_system_status(&self) -> (s: SurveyorState)
        requires
            self.wf(),
        ensures
            (forall|i: int|
                0 <= i < NUMBER_OF_MODULES - 1 ==> (#[trigger] self@.surveyor_status[i]).state
                    == self@.surveyor_status[0].state) ==> s == SurveyorState::spec_from_int(
                self@.surveyor_status[0].state,
            ),
            !(forall|i: int|
                0 <= i < NUMBER_OF_MODULES - 1 ==> (#[trigger] self@.surveyor_status[i]).state
                    == self@.surveyor_status[0].state) ==> s == SurveyorState::Inconsistent,
    {
        let first = self.surveyor_status[0].state;
        let mut i: usize = 1;
        while i < NUMBER_OF_MODULES - 1
            invariant
                self.wf(),
                1 <= i <= NUMBER_OF_MODULES - 1,
                first == self@.surveyor_status[0].state,
                forall|k: int| 0 <= k < i ==> (#[trigger] self@.surveyor_status[k]).state == first,
            decreases NUMBER_OF_MODULES - 1 - i,
        {
            if self.surveyor_status[i].state != first {
                proof {
                    assert(self@.surveyor_status[i as int].state != first);
                }
                return SurveyorState::Inconsistent;
            }
            i += 1;
        }
        SurveyorState::from_int(first)
    }

    /// Place the busy hold on module `id`: stamp its snapshot `Busy`
    /// and latch the hold, so status envelopes for it are dropped until
    /// the matching operation response releases it. Ids beyond the
    /// master are ignored.
    pub fn set_ecc_busy(&mut self, id: usize)
        requires
            old(self).wf(),
        ensures
            final(self).wf(),
            id <= MUTANT_ID ==> {
                &&& final(self)@.ecc_status == old(self)@.ecc_status.update(id as int, spec_busy_status())
                &&& final(self)@.ecc_holds == old(self)@.ecc_holds.update(id as int, true)
                &&& final(self)@.surveyor_status == old(self)@.surveyor_status
            },
            id > MUTANT_ID ==> final(self)@ == old(self)@,
    {
        if id > MUTANT_ID {
            return;
        }
        let busy = ECCStatusResponse {
            error_code: 0,
            error_message: String::new(),
            state: ECCStatus::Busy.to_int(),
            transition: 0,
        };
        proof {
            assert(busy@ =~= spec_busy_status());
        }
        self.ecc_status[id] = busy;
        self.ecc_holds[id] = true;
        proof {
            assert(self@.ecc_status =~= old(self)@.ecc_status.update(
                id as int,
                spec_busy_status(),
            ));
        }
    }

    /// The forward-gating predicate: a CoBo in `Described` may advance
    /// only once the master is `Prepared` or `Ready`; the master in
    /// `Prepared` may advance only once every CoBo is `Ready`; every
    /// other case defers to the state's own forward predicate.
    pub fn can_ecc_go_forward(&self, id: usize) -> (r: bool)
        requires
            self.wf(),
            id < NUMBER_OF_MODULES,
        ensures
            r == ({
                let st = spec_effective_status(self@.ecc_status[id as int]);
                if st == ECCStatus::Described && id != MUTANT_ID {
                    spec_effective_status(self@.ecc_status[MUTANT_ID as int])
                        == ECCStatus::Prepared || spec_effective_status(
                        self@.ecc_status[MUTANT_ID as int],
                    ) == ECCStatus::Ready
                } else if st == ECCStatus::Prepared && id == MUTANT_ID {
                    forall|i: int|
                        0 <= i < NUMBER_OF_MODULES - 1 ==> spec_effective_status(
                            #[trigger] self@.ecc_status[i],
                        ) == ECCStatus::Ready
                } else {
                    st.spec_can_go_forward()
                }
            }),
    {
        let status = self.get_ecc_status(id);
        if status == ECCStatus::Described && id != MUTANT_ID {
            match self.get_ecc_status(MUTANT_ID) {
                ECCStatus::Prepared => true,
                ECCStatus::Ready => true,
                _ => false,
            }
        } else if status == ECCStatus::Prepared && id == MUTANT_ID {
            self.is_all_but_mutant_ready()
        } else {
            status.can_go_forward()
        }
    }
}

/// The stamped busy snapshot effectively reads `Busy`: placing a hold
/// is immediately visible as the `Busy` state.
pub proof fn lemma_busy_status_reads_busy()
    ensures
        spec_effective_status(spec_busy_status()) == ECCStatus::Busy,
{
}

/// Hold semantics, stated over one ingested envelope: while module
/// `id` is held, no status envelope moves its recorded snapshot, and
/// the hold is released exactly by an operation response for the same
/// module.
pub proof fn lemma_hold_semantics(v: StatusManagerView, m: EmbassyMessageView, id: int)
    requires
        0 <= id < v.ecc_holds.len(),
        v.ecc_holds[id],
        v.ecc_status.len() == v.ecc_holds.len(),
    ensures
        m.kind == MessageKind::ECCStatus ==> spec_ingest(v, m).ecc_status[id] == v.ecc_status[id],
        !spec_ingest(v, m).ecc_holds[id] <==> (m.kind == MessageKind::ECCOperation && m.id == id
            && m.payload matches MessagePayloadView::EccOperation(_)),
{
}

/// A status response for an unheld module lands verbatim: the state
/// the aggregator records afterwards is exactly the state the response
/// effectively reports, so what is observed after a response is what
/// the module's server answered, never an invention of the aggregator.
pub proof fn lemma_status_ingest_records(v: StatusManagerView, m: EmbassyMessageView)
    requires
        m.kind == MessageKind::ECCStatus,
        m.payload matches MessagePayloadView::EccStatus(_),
        0 <= m.id < v.ecc_status.len(),
        v.ecc_status.len() == v.ecc_holds.len(),
        !v.ecc_holds[m.id as int],
    ensures
        m.payload matches MessagePayloadView::EccStatus(p) ==> spec_effective_status(
            spec_ingest(v, m).ecc_status[m.id as int],
        ) == spec_effective_status(p),
{
}

/// The busy-hold invariant is preserved by ingestion: if every held
/// module's snapshot reads `Busy` before an envelope lands, the same
/// holds after it, whatever the envelope.
pub proof fn lemma_hold_invariant(v: StatusManagerView, m: EmbassyMessageView)
    requires
        v.ecc_status.len() == v.ecc_holds.len(),
        forall|id: int|
            0 <= id < v.ecc_holds.len() && v.ecc_holds[id] ==> spec_effective_status(
                #[trigger] v.ecc_status[id],
            ) == ECCStatus::Busy,
    ensures
        forall|id: int|
            0 <= id < spec_ingest(v, m).ecc_holds.len() && spec_ingest(v, m).ecc_holds[id]
                ==> spec_effective_status(#[trigger] spec_ingest(v, m).ecc_status[id])
                == ECCStatus::Busy,
{
}

/// The busy-hold invariant over a whole batch: if every held module's
/// snapshot reads `Busy` before the batch lands, the same holds after
/// it, whatever the batch holds — a held module is observed `Busy`
/// from the moment its hold is placed until an operation response
/// releases it.
pub proof fn lemma_hold_invariant_batch(v: StatusManagerView, ms: Seq<EmbassyMessageView>)
    requires
        v.ecc_status.len() == v.ecc_holds.len(),
        forall|id: int|
            0 <= id < v.ecc_holds.len() && v.ecc_holds[id] ==> spec_effective_status(
                #[trigger] v.ecc_status[id],
            ) == ECCStatus::Busy,
    ensures
        spec_ingest_all(v, ms).ecc_status.len() == spec_ingest_all(v, ms).ecc_holds.len(),
        forall|id: int|
            0 <= id < spec_ingest_all(v, ms).ecc_holds.len() && spec_ingest_all(v, ms).ecc_holds[id]
                ==> spec_effective_status(#[trigger] spec_ingest_all(v, ms).ecc_status[id])
                == ECCStatus::Busy,
    decreases ms.len(),
{
    if ms.len() > 0 {
        lemma_hold_invariant_batch(v, ms.drop_last());
        lemma_hold_invariant(spec_ingest_all(v, ms.drop_last()), ms.last());
    }
}

} // verus!
