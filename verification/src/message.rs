//! The envelope every hub-visible message travels in: a kind tag, the
//! module id, an operation label, and a typed payload. The kind tag is
//! the discriminator the aggregator decodes by; decoding as the wrong
//! kind is the one error the envelope can raise.

use vstd::prelude::*;
use vstd::string::*;
use crate::ecc_envoy::{
    ECCOperationResponse, ECCOperationResponseView, ECCStatusResponse, ECCStatusResponseView,
};
use crate::error::EmbassyError;
use crate::surveyor_envoy::{SurveyorResponse, SurveyorResponseView};

verus! {

/// Discriminator of an envelope.
#[derive(Debug, Clone, Copy, PartialEq, Eq, Structural)]
pub enum MessageKind {
    ECCOperation,
    ECCStatus,
    Surveyor,
    Other,
    Cancel,
}

impl MessageKind {
    pub open spec fn spec_label(self) -> Seq<char> {
        match self {
            MessageKind::ECCOperation => "ECCOperation"@,
            MessageKind::ECCStatus => "ECCStatus"@,
            MessageKind::Surveyor => "Surveyor"@,
            MessageKind::Other => "Other"@,
            MessageKind::Cancel => "Cancel"@,
        }
    }

    pub fn to_label(&self) -> (label: String)
        ensures
            label@ == self.spec_label(),
    {
        match self {
            MessageKind::ECCOperation => String::from_str("ECCOperation"),
            MessageKind::ECCStatus => String::from_str("ECCStatus"),
            MessageKind::Surveyor => String::from_str("Surveyor"),
            MessageKind::Other => String::from_str("Other"),
            MessageKind::Cancel => String::from_str("Cancel"),
        }
    }
}

/// Typed payload of an envelope.
#[derive(Debug, Clone)]
pub enum MessagePayload {
    EccOperation(ECCOperationResponse),
    EccStatus(ECCStatusResponse),
    Surveyor(SurveyorResponse),
    Empty,
}

/// Mathematical content of a [`MessagePayload`].
#[verifier::ext_equal]
pub enum MessagePayloadView {
    EccOperation(ECCOperationResponseView),
    EccStatus(ECCStatusResponseView),
    Surveyor(SurveyorResponseView),
    Empty,
}

impl View for MessagePayload {
    type V = MessagePayloadView;

    open spec fn view(&self) -> MessagePayloadView {
        match self {
            MessagePayload::EccOperation(r) => MessagePayloadView::EccOperation(r@),
            MessagePayload::EccStatus(r) => MessagePayloadView::EccStatus(r@),
            MessagePayload::Surveyor(r) => MessagePayloadView::Surveyor(r@),
            MessagePayload::Empty => MessagePayloadView::Empty,
        }
    }
}

/// Mathematical content of an [`EmbassyMessage`].
#[verifier::ext_equal]
pub struct EmbassyMessageView {
    pub kind: MessageKind,
    pub id: i32,
    pub operation: Seq<char>,
    pub payload: MessagePayloadView,
}

/// One message between the driver pool and the synchronous side.
#[derive(Debug, Clone)]
pub struct EmbassyMessage {
    pub kind: MessageKind,
    pub id: i32,
    pub operation: String,
    pub payload: MessagePayload,
}

impl View for EmbassyMessage {
    type V = EmbassyMessageView;

    open spec fn view(&self) -> EmbassyMessageView {
        EmbassyMessageView {
            kind: self.kind,
            id: self.id,
            operation: self.operation@,
            payload: self.payload@,
        }
    }
}

impl EmbassyMessage {
    /// Envelope a Surveyor status snapshot from module `id`.
    pub fn compose_surveyor_response(response: SurveyorResponse, id: i32) -> (m: Self)
        ensures
            m@ == (EmbassyMessageView {
                kind: MessageKind::Surveyor,
                id: id,
                operation: "None"@,
                payload: MessagePayloadView::Surveyor(response@),
            }),
    {
        EmbassyMessage {
            kind: MessageKind::Surveyor,
            id,
            operation: String::from_str("None"),
            payload: MessagePayload::Surveyor(response),
        }
    }

    /// Envelope a lifecycle command for module `id`; `operation` is the
    /// operation's label.
    pub fn compose_ecc_op(operation: String, id: i32) -> (m: Self)
        ensures
            m@ == (EmbassyMessageView {
                kind: MessageKind::ECCOperation,
                id: id,
                operation: operation@,
                payload: MessagePayloadView::Empty,
            }),
    {
        EmbassyMessage {
            kind: MessageKind::ECCOperation,
            id,
            operation,
            payload: MessagePayload::Empty,
        }
    }

    /// Envelope an ECC server's answer to a lifecycle command.
    pub fn compose_ecc_response(response: ECCOperationResponse, id: i32) -> (m: Self)
        ensures
            m@ == (EmbassyMessageView {
                kind: MessageKind::ECCOperation,
                id: id,
                operation: "None"@,
                payload: MessagePayloadView::EccOperation(response@),
            }),
    {
        EmbassyMessage {
            kind: MessageKind::ECCOperation,
            id,
            operation: String::from_str("None"),
            payload: MessagePayload::EccOperation(response),
        }
    }

    /// Envelope an ECC status snapshot from module `id`.
    pub fn compose_ecc_status(response: ECCStatusResponse, id: i32) -> (m: Self)
        ensures
            m@ == (EmbassyMessageView {
                kind: MessageKind::ECCStatus,
                id: id,
                operation: "None"@,
                payload: MessagePayloadView::EccStatus(response@),
            }),
    {
        EmbassyMessage {
            kind: MessageKind::ECCStatus,
            id,
            operation: String::from_str("None"),
            payload: MessagePayload::EccStatus(response),
        }
    }

    /// The broadcast cancel envelope.
    pub fn compose_cancel() -> (m: Self)
        ensures
            m@ == (EmbassyMessageView {
                kind: MessageKind::Other,
                id: 0,
                operation: "None"@,
                payload: MessagePayloadView::Empty,
            }),
    {
        EmbassyMessage {
            kind: MessageKind::Other,
            id: 0,
            operation: String::from_str("None"),
            payload: MessagePayload::Empty,
        }
    }

    /// Decode this envelope as an ECC status snapshot; an envelope of
    /// any other kind, or one whose payload does not match its kind
    /// tag, is refused with a kind-mismatch error.
    pub fn try_into_ecc_status(&self) -> (r: Result<ECCStatusResponse, EmbassyError>)
        ensures
            match r {
                Ok(resp) => {
                    &&& self.kind == MessageKind::ECCStatus
                    &&& self@.payload matches MessagePayloadView::EccStatus(p) && resp@ == p
                },
                Err(e) => {
                    &&& !(self.kind == MessageKind::ECCStatus
                        && self@.payload matches MessagePayloadView::EccStatus(_))
                    &&& e matches EmbassyError::MessageKindError(want, got) && want
                        == MessageKind::ECCStatus && got == self.kind
                },
            },
    {
        if self.kind == MessageKind::ECCStatus {
            match &self.payload {
                MessagePayload::EccStatus(p) => {
                    let resp = ECCStatusResponse {
                        error_code: p.error_code,
                        error_message: p.error_message.clone(),
                        state: p.state,
                        transition: p.transition,
                    };
                    proof {
                        assert(resp@ =~= p@);
                    }
                    Ok(resp)
                },
                _ => Err(EmbassyError::MessageKindError(MessageKind::ECCStatus, self.kind)),
            }
        } else {
            Err(EmbassyError::MessageKindError(MessageKind::ECCStatus, self.kind))
        }
    }

    /// Decode this envelope as an ECC operation response; see
    /// [`EmbassyMessage::try_into_ecc_status`] for the refusal rule.
    pub fn try_into_ecc_op(&self) -> (r: Result<ECCOperationResponse, EmbassyError>)
        ensures
            match r {
                Ok(resp) => {
                    &&& self.kind == MessageKind::ECCOperation
                    &&& self@.payload matches MessagePayloadView::EccOperation(p) && resp@ == p
                },
                Err(e) => {
                    &&& !(self.kind == MessageKind::ECCOperation
                        && self@.payload matches MessagePayloadView::EccOperation(_))
                    &&& e matches EmbassyError::MessageKindError(want, got) && want
                        == MessageKind::ECCOperation && got == self.kind
                },
            },
    {
        if self.kind == MessageKind::ECCOperation {
            match &self.payload {
                MessagePayload::EccOperation(p) => {
                    let resp = ECCOperationResponse {
                        error_code: p.error_code,
                        error_message: p.error_message.clone(),
                        text: p.text.clone(),
                    };
                    proof {
                        assert(resp@ =~= p@);
                    }
                    Ok(resp)
                },
                _ => Err(EmbassyError::MessageKindError(MessageKind::ECCOperation, self.kind)),
            }
        } else {
            Err(EmbassyError::MessageKindError(MessageKind::ECCOperation, self.kind))
        }
    }

    /// Decode this envelope as a Surveyor snapshot; see
    /// [`EmbassyMessage::try_into_ecc_status`] for the refusal rule.
    pub fn try_into_surveyor(&self) -> (r: Result<SurveyorResponse, EmbassyError>)
        ensures
            match r {
                Ok(resp) => {
                    &&& self.kind == MessageKind::Surveyor
                    &&& self@.payload matches MessagePayloadView::Surveyor(p) && resp@ == p
                },
                Err(e) => {
                    &&& !(self.kind == MessageKind::Surveyor
                        && self@.payload matches MessagePayloadView::Surveyor(_))
                    &&& e matches EmbassyError::MessageKindError(want, got) && want
                        == MessageKind::Surveyor && got == self.kind
                },
            },
    {
        if self.kind == MessageKind::Surveyor {
            match &self.payload {
                MessagePayload::Surveyor(p) => {
                    let resp = SurveyorResponse {
                        state: p.state,
                        location: p.location.clone(),
                        disk_status: p.disk_status,
                        percent_used: p.percent_used.clone(),
                        disk_space: p.disk_space,
                        files: p.files,
                        bytes_used: p.bytes_used,
                        window_bytes: p.window_bytes,
                    };
                    proof {
                        assert(resp@ =~= p@);
                    }
                    Ok(resp)
                },
                _ => Err(EmbassyError::MessageKindError(MessageKind::Surveyor, self.kind)),
            }
        } else {
            Err(EmbassyError::MessageKindError(MessageKind::Surveyor, self.kind))
        }
    }
}

} // verus!
