//! ECC driver core: the per-module configuration and naming, the SOAP
//! request composers, the response snapshots, and the verified parsers
//! for the XML bodies an ECC server returns.

use vstd::prelude::*;
use vstd::string::*;
use crate::constants::{ADDRESS_START, ECC_URL_PORT, LISTENER_PORT, MUTANT_ID, NUMBER_OF_MODULES, PROTOCOL};
use crate::ecc_operation::ECCOperation;
use crate::error::EnvoyError;
use crate::message::{EmbassyMessage, EmbassyMessageView, MessageKind, MessagePayloadView};
use crate::textutil::{
    find_from, lemma_find_some, parse_i32, spec_find, spec_nat_chars, spec_parse_i32,
    u32_to_string,
};

verus! {

/// Envelope opening every SOAP request sent to an ECC server.
pub const ECC_SOAP_HEADER: &'static str = "<?xml version=\"1.0\" encoding=\"UTF-8\"?>\n<SOAP-ENV:Envelope\nxmlns:SOAP-ENV=\"http://schemas.xmlsoap.org/soap/envelope/\"\nxmlns:SOAP-ENC=\"http://schemas.xmlsoap.org/soap/encoding/\"\nxmlns:xsi=\"http://www.w3.org/2001/XMLSchema-instance\"\nxmlns:xsd=\"http://www.w3.org/2001/XMLSchema\"\nxmlns=\"urn:ecc\">\n<SOAP-ENV:Body>\n";

/// Envelope closing every SOAP request sent to an ECC server.
pub const ECC_SOAP_FOOTER: &'static str = "\n</SOAP-ENV:Body>\n</SOAP-ENV:Envelope>\n";

/// Mathematical content of an [`ECCOperationResponse`].
#[verifier::ext_equal]
pub struct ECCOperationResponseView {
    pub error_code: i32,
    pub error_message: Seq<char>,
    pub text: Seq<char>,
}

/// An ECC server's answer to a lifecycle command.
#[derive(Debug, Clone)]
pub struct ECCOperationResponse {
    pub error_code: i32,
    pub error_message: String,
    pub text: String,
}

impl View for ECCOperationResponse {
    type V = ECCOperationResponseView;

    open spec fn view(&self) -> ECCOperationResponseView {
        ECCOperationResponseView {
            error_code: self.error_code,
            error_message: self.error_message@,
            text: self.text@,
        }
    }
}

impl Default for ECCOperationResponse {
    fn default() -> (r: Self)
        ensures
            r@.error_code == 0,
            r@.error_message.len() == 0,
            r@.text.len() == 0,
    {
        ECCOperationResponse { error_code: 0, error_message: String::new(), text: String::new() }
    }
}

/// Mathematical content of an [`ECCStatusResponse`].
#[verifier::ext_equal]
pub struct ECCStatusResponseView {
    pub error_code: i32,
    pub error_message: Seq<char>,
    pub state: i32,
    pub transition: i32,
}

/// An ECC server's answer to a status query: an error code, an
/// optional message, the integer state code, and a flag that is
/// nonzero while a transition is in flight.
#[derive(Debug, Clone)]
pub struct ECCStatusResponse {
    pub error_code: i32,
    pub error_message: String,
    pub state: i32,
    pub transition: i32,
}

impl View for ECCStatusResponse {
    type V = ECCStatusResponseView;

    open spec fn view(&self) -> ECCStatusResponseView {
        ECCStatusResponseView {
            error_code: self.error_code,
            error_message: self.error_message@,
            state: self.state,
            transition: self.transition,
        }
    }
}

/// The snapshot a status driver synthesizes when its server cannot be
/// reached: no error, offline state, no transition.
pub open spec fn spec_offline_status() -> ECCStatusResponseView {
    ECCStatusResponseView {
        error_code: 0,
        error_message: Seq::empty(),
        state: 0,
        transition: 0,
    }
}

impl Default for ECCStatusResponse {
    fn default() -> (r: Self)
        ensures
            r@ == spec_offline_status(),
    {
        let r = ECCStatusResponse {
            error_code: 0,
            error_message: String::new(),
            state: 0,
            transition: 0,
        };
        proof {
            assert(r@ =~= spec_offline_status());
        }
        r
    }
}

/// Mathematical content of an [`ECCConfig`].
#[verifier::ext_equal]
pub struct ECCConfigView {
    pub id: i32,
    pub experiment: Seq<char>,
    pub address: Seq<char>,
    pub url: Seq<char>,
}

/// Per-module configuration of an ECC driver: the module id, the
/// experiment name, and the module's resolved address and URL.
#[derive(Debug, Clone)]
pub struct ECCConfig {
    pub id: i32,
    pub experiment: String,
    pub address: String,
    pub url: String,
}

impl View for ECCConfig {
    type V = ECCConfigView;

    open spec fn view(&self) -> ECCConfigView {
        ECCConfigView {
            id: self.id,
            experiment: self.experiment@,
            address: self.address@,
            url: self.url@,
        }
    }
}

/// Network address of module `id`: the master gets the `.1` host of
/// the fleet network, CoBo `i` gets host `60 + i`.
pub open spec fn spec_module_address(id: int) -> Seq<char> {
    if id == MUTANT_ID as int {
        ADDRESS_START@ + ".1"@
    } else {
        ADDRESS_START@ + "."@ + spec_nat_chars(60 + id)
    }
}

/// URL of the ECC server at `address`.
pub open spec fn spec_ecc_url(address: Seq<char>) -> Seq<char> {
    "http://"@ + address + ":"@ + spec_nat_chars(ECC_URL_PORT as int)
}

/// The describe-configuration name of a module: the experiment itself
/// for the master, `cobo<id>` for a CoBo.
pub open spec fn spec_describe(cfg: ECCConfigView) -> Seq<char> {
    if cfg.id == MUTANT_ID as i32 {
        cfg.experiment
    } else {
        "cobo"@ + spec_nat_chars(cfg.id as int)
    }
}

/// The data-sender name of a module.
pub open spec fn spec_source(cfg: ECCConfigView) -> Seq<char> {
    if cfg.id == MUTANT_ID as i32 {
        "Mutant[master]"@
    } else {
        "CoBo["@ + spec_nat_chars(cfg.id as int) + "]"@
    }
}

/// The data-router name of a module.
pub open spec fn spec_data_router(cfg: ECCConfigView) -> Seq<char> {
    "data"@ + spec_nat_chars(cfg.id as int)
}

/// The configID block of a transition request, naming the describe,
/// prepare and configure configurations.
pub open spec fn spec_config_body(cfg: ECCConfigView) -> Seq<char> {
    "<configID>\n<ConfigId>\n<SubConfigId type=\"describe\">\n"@ + spec_describe(cfg)
        + "\n</SubConfigId>\n<SubConfigId type=\"prepare\">\n"@ + cfg.experiment
        + "\n</SubConfigId>\n<SubConfigId type=\"configure\">\n"@ + cfg.experiment
        + "\n</SubConfigId>\n</ConfigId>\n</configID>"@
}

/// The DataLinkSet block of a transition request, pointing the
/// module's data sender at the data router on the module's own
/// address.
pub open spec fn spec_data_link_body(cfg: ECCConfigView) -> Seq<char> {
    "<table>\n<DataLinkSet>\n<DataLink>\n<DataSender id=\""@ + spec_source(cfg)
        + "\" />\n<DataRouter ipAddress=\""@ + cfg.address + "\" name=\""@ + spec_data_router(cfg)
        + "\" port=\""@ + spec_nat_chars(LISTENER_PORT as int) + "\" type=\""@ + PROTOCOL@
        + "\" />\n</DataLink>\n</DataLinkSet>\n</table>"@
}

/// A whole transition request: the SOAP envelope around the operation
/// tag wrapping the configID and DataLinkSet blocks.
pub open spec fn spec_transition_request(cfg: ECCConfigView, op_label: Seq<char>) -> Seq<char> {
    ECC_SOAP_HEADER@ + "<"@ + op_label + ">\n"@ + spec_config_body(cfg) + spec_data_link_body(cfg)
        + "</"@ + op_label + ">\n"@ + ECC_SOAP_FOOTER@
}

/// A whole status request: the SOAP envelope around an empty
/// GetStatus element.
pub open spec fn spec_status_request() -> Seq<char> {
    ECC_SOAP_HEADER@ + "<GetStatus>\n</GetStatus>\n"@ + ECC_SOAP_FOOTER@
}

impl ECCConfig {
    pub fn new(id: i32, experiment: &str) -> (config: ECCConfig)
        requires
            0 <= id < NUMBER_OF_MODULES as i32,
        ensures
            config@.id == id,
            config@.experiment == experiment@,
            config@.address == spec_module_address(id as int),
            config@.url == spec_ecc_url(spec_module_address(id as int)),
    {
        let address = if id == MUTANT_ID as i32 {
            let mut a = String::from_str(ADDRESS_START);
            a.append(".1");
            a
        } else {
            let mut a = String::from_str(ADDRESS_START);
            a.append(".");
            let octet = u32_to_string(60 + (id as u32));
            a.append(octet.as_str());
            a
        };
        let url = Self::url(address.as_str());
        ECCConfig { id, experiment: experiment.to_owned(), address, url }
    }

    /// URL of the ECC server at `address`, on the ECC port.
    pub fn url(address: &str) -> (url: String)
        ensures
            url@ == spec_ecc_url(address@),
    {
        let mut url = String::from_str("http://");
        url.append(address);
        url.append(":");
        let port = u32_to_string(ECC_URL_PORT);
        url.append(port.as_str());
        url
    }

    /// Name of this module's describe configuration.
    pub fn describe(&self) -> (name: String)
        requires
            0 <= self.id,
        ensures
            name@ == spec_describe(self@),
    {
        if self.id == MUTANT_ID as i32 {
            self.experiment.clone()
        } else {
            let mut name = String::from_str("cobo");
            let digits = u32_to_string(self.id as u32);
            name.append(digits.as_str());
            name
        }
    }

    /// Name of this module's data sender.
    pub fn source(&self) -> (name: String)
        requires
            0 <= self.id,
        ensures
            name@ == spec_source(self@),
    {
        if self.id == MUTANT_ID as i32 {
            String::from_str("Mutant[master]")
        } else {
            let mut name = String::from_str("CoBo[");
            let digits = u32_to_string(self.id as u32);
            name.append(digits.as_str());
            name.append("]");
            name
        }
    }

    /// Name of this module's data router.
    pub fn data_router(&self) -> (name: String)
        requires
            0 <= self.id,
        ensures
            name@ == spec_data_router(self@),
    {
        let mut name = String::from_str("data");
        let digits = u32_to_string(self.id as u32);
        name.append(digits.as_str());
        name
    }

    /// Compose the configID block for this module.
    pub fn compose_config_body(&self) -> (body: String)
        requires
            0 <= self.id,
        ensures
            body@ == spec_config_body(self@),
    {
        let describe = self.describe();
        let mut body = String::from_str("<configID>\n<ConfigId>\n<SubConfigId type=\"describe\">\n");
        body.append(describe.as_str());
        body.append("\n</SubConfigId>\n<SubConfigId type=\"prepare\">\n");
        body.append(self.experiment.as_str());
        body.append("\n</SubConfigId>\n<SubConfigId type=\"configure\">\n");
        body.append(self.experiment.as_str());
        body.append("\n</SubConfigId>\n</ConfigId>\n</configID>");
        body
    }

    /// Compose the DataLinkSet block for this module.
    pub fn compose_data_link_body(&self) -> (body: String)
        requires
            0 <= self.id,
        ensures
            body@ == spec_data_link_body(self@),
    {
        let source = self.source();
        let router = self.data_router();
        let port = u32_to_string(LISTENER_PORT);
        let mut body = String::from_str("<table>\n<DataLinkSet>\n<DataLink>\n<DataSender id=\"");
        body.append(source.as_str());
        body.append("\" />\n<DataRouter ipAddress=\"");
        body.append(self.address.as_str());
        body.append("\" name=\"");
        body.append(router.as_str());
        body.append("\" port=\"");
        body.append(port.as_str());
        body.append("\" type=\"");
        body.append(PROTOCOL);
        body.append("\" />\n</DataLink>\n</DataLinkSet>\n</table>");
        body
    }

    /// Compose the full SOAP request for the transition a command
    /// envelope carries; an envelope whose operation field is not an
    /// operation label is refused.
    pub fn compose_ecc_transition_request(&self, message: EmbassyMessage) -> (r: Result<
        String,
        EnvoyError,
    >)
        requires
            0 <= self.id,
        ensures
            match r {
                Ok(body) => {
                    &&& ECCOperation::spec_from_label(message@.operation) matches Some(op)
                        && body@ == spec_transition_request(self@, op.spec_label())
                },
                Err(e) => {
                    &&& ECCOperation::spec_from_label(message@.operation) is None
                    &&& e matches EnvoyError::OperationError(inner) && (inner matches
                        crate::error::ECCOperationError::BadString(s) && s@ == message@.operation)
                },
            },
    {
        let op = match ECCOperation::from_label(message.operation) {
            Ok(op) => op,
            Err(e) => {
                return Err(EnvoyError::OperationError(e));
            },
        };
        let label = op.to_label();
        let config = self.compose_config_body();
        let link = self.compose_data_link_body();
        let mut body = String::from_str(ECC_SOAP_HEADER);
        body.append("<");
        body.append(label.as_str());
        body.append(">\n");
        body.append(config.as_str());
        body.append(link.as_str());
        body.append("</");
        body.append(label.as_str());
        body.append(">\n");
        body.append(ECC_SOAP_FOOTER);
        Ok(body)
    }
}

/// Compose the SOAP body of a status query.
pub fn compose_ecc_status_request() -> (body: String)
    ensures
        body@ == spec_status_request(),
{
    let mut body = String::from_str(ECC_SOAP_HEADER);
    body.append("<GetStatus>\n</GetStatus>\n");
    body.append(ECC_SOAP_FOOTER);
    body
}

/// Content of the first element named `name` in `body`: the text
/// between the first opening tag `<name>` and the first closing tag
/// `</name>` after it, if both are present.
pub open spec fn spec_element_text(body: Seq<char>, name: Seq<char>) -> Option<Seq<char>> {
    let open_tag = "<"@ + name + ">"@;
    let close_tag = "</"@ + name + ">"@;
    match spec_find(body, open_tag, 0) {
        None => None,
        Some(i) => {
            let start = i + open_tag.len();
            match spec_find(body, close_tag, start) {
                None => None,
                Some(j) => Some(body.subrange(start, j)),
            }
        },
    }
}

/// Extract the content of the first element named `name`.
fn element_text<'a>(body: &'a str, name: &str) -> (r: Option<&'a str>)
    ensures
        match r {
            Some(t) => spec_element_text(body@, name@) == Some(t@),
            None => spec_element_text(body@, name@) is None,
        },
{
    let mut open_tag = String::from_str("<");
    open_tag.append(name);
    open_tag.append(">");
    let mut close_tag = String::from_str("</");
    close_tag.append(name);
    close_tag.append(">");
    let n = body.unicode_len();
    match find_from(body, open_tag.as_str(), 0) {
        None => None,
        Some(i) => {
            proof {
                lemma_find_some(body@, open_tag@, 0);
            }
            let start = i + open_tag.unicode_len();
            match find_from(body, close_tag.as_str(), start) {
                None => None,
                Some(j) => {
                    proof {
                        lemma_find_some(body@, close_tag@, start as int);
                    }
                    Some(body.substring_char(start, j))
                },
            }
        },
    }
}

/// The integer content of the first element named `name`: missing
/// elements and contents that are not decimal integers are errors.
pub open spec fn spec_int_field(body: Seq<char>, name: Seq<char>) -> Result<i32, EnvoyError> {
    match spec_element_text(body, name) {
        None => Err(EnvoyError::XMLConversionError),
        Some(t) => match spec_parse_i32(t) {
            None => Err(EnvoyError::StringToIntError),
            Some(v) => Ok(v),
        },
    }
}

/// The ErrorMessage content of a response body; a missing element
/// reads as the empty message.
pub open spec fn spec_message_field(body: Seq<char>) -> Seq<char> {
    match spec_element_text(body, "ErrorMessage"@) {
        None => Seq::empty(),
        Some(t) => t,
    }
}

/// The Text content of an operation response body; a missing element
/// reads as empty.
pub open spec fn spec_text_field(body: Seq<char>) -> Seq<char> {
    match spec_element_text(body, "Text"@) {
        None => Seq::empty(),
        Some(t) => t,
    }
}

fn int_field(body: &str, name: &str) -> (r: Result<i32, EnvoyError>)
    ensures
        r == spec_int_field(body@, name@),
{
    match element_text(body, name) {
        None => Err(EnvoyError::XMLConversionError),
        Some(t) => match parse_i32(t) {
            None => Err(EnvoyError::StringToIntError),
            Some(v) => Ok(v),
        },
    }
}

/// Parse the XML body an ECC server returns for a lifecycle command
/// and envelope it for module `id`. The ErrorCode element must be
/// present and numeric; ErrorMessage and Text default to empty.
pub fn parse_ecc_operation_response(text: &str, id: i32) -> (r: Result<
    EmbassyMessage,
    EnvoyError,
>)
    ensures
        ({
            let ec = spec_int_field(text@, "ErrorCode"@);
            match r {
                Ok(m) => {
                    &&& ec is Ok
                    &&& m@ == (EmbassyMessageView {
                        kind: MessageKind::ECCOperation,
                        id: id,
                        operation: "None"@,
                        payload: MessagePayloadView::EccOperation(ECCOperationResponseView {
                            error_code: ec->Ok_0,
                            error_message: spec_message_field(text@),
                            text: spec_text_field(text@),
                        }),
                    })
                },
                Err(e) => ec is Err && e == ec->Err_0,
            }
        }),
{
    let error_code = match int_field(text, "ErrorCode") {
        Ok(v) => v,
        Err(e) => {
            return Err(e);
        },
    };
    let error_message = match element_text(text, "ErrorMessage") {
        Some(t) => String::from_str(t),
        None => String::new(),
    };
    let op_text = match element_text(text, "Text") {
        Some(t) => String::from_str(t),
        None => String::new(),
    };
    let resp = ECCOperationResponse { error_code, error_message, text: op_text };
    proof {
        assert(resp@ =~= (ECCOperationResponseView {
            error_code: spec_int_field(text@, "ErrorCode"@)->Ok_0,
            error_message: spec_message_field(text@),
            text: spec_text_field(text@),
        }));
    }
    Ok(EmbassyMessage::compose_ecc_response(resp, id))
}

/// Parse the XML body an ECC server returns for a status query and
/// envelope it for module `id`. ErrorCode, State and Transition must
/// be present and numeric, and are required in that order; the
/// ErrorMessage defaults to empty.
pub fn parse_ecc_status_response(text: &str, id: i32) -> (r: Result<EmbassyMessage, EnvoyError>)
    ensures
        ({
            let ec = spec_int_field(text@, "ErrorCode"@);
            let st = spec_int_field(text@, "State"@);
            let tr = spec_int_field(text@, "Transition"@);
            match r {
                Ok(m) => {
                    &&& ec is Ok && st is Ok && tr is Ok
                    &&& m@ == (EmbassyMessageView {
                        kind: MessageKind::ECCStatus,
                        id: id,
                        operation: "None"@,
                        payload: MessagePayloadView::EccStatus(ECCStatusResponseView {
                            error_code: ec->Ok_0,
                            error_message: spec_message_field(text@),
                            state: st->Ok_0,
                            transition: tr->Ok_0,
                        }),
                    })
                },
                Err(e) => {
                    if ec is Err {
                        e == ec->Err_0
                    } else if st is Err {
                        e == st->Err_0
                    } else {
                        tr is Err && e == tr->Err_0
                    }
                },
            }
        }),
{
    let error_code = match int_field(text, "ErrorCode") {
        Ok(v) => v,
        Err(e) => {
            return Err(e);
        },
    };
    let error_message = match element_text(text, "ErrorMessage") {
        Some(t) => String::from_str(t),
        None => String::new(),
    };
    let state = match int_field(text, "State") {
        Ok(v) => v,
        Err(e) => {
            return Err(e);
        },
    };
    let transition = match int_field(text, "Transition") {
        Ok(v) => v,
        Err(e) => {
            return Err(e);
        },
    };
    let resp = ECCStatusResponse { error_code, error_message, state, transition };
    proof {
        assert(resp@ =~= (ECCStatusResponseView {
            error_code: spec_int_field(text@, "ErrorCode"@)->Ok_0,
            error_message: spec_message_field(text@),
            state: spec_int_field(text@, "State"@)->Ok_0,
            transition: spec_int_field(text@, "Transition"@)->Ok_0,
        }));
    }
    Ok(EmbassyMessage::compose_ecc_status(resp, id))
}

/// The envelope a status driver emits when its server cannot be
/// reached: a synthesized offline snapshot, so the aggregator observes
/// the outage.
pub fn offline_status_message(id: i32) -> (m: EmbassyMessage)
    ensures
        m@ == (EmbassyMessageView {
            kind: MessageKind::ECCStatus,
            id: id,
            operation: "None"@,
            payload: MessagePayloadView::EccStatus(spec_offline_status()),
        }),
{
    let resp = ECCStatusResponse {
        error_code: 0,
        error_message: String::new(),
        state: 0,
        transition: 0,
    };
    proof {
        assert(resp@ =~= spec_offline_status());
    }
    EmbassyMessage::compose_ecc_status(resp, id)
}

} // verus!
