//! Surveyor driver core: the per-CoBo endpoint configuration, the
//! status snapshot it reports, and the verified parser for the
//! plain-text body a Surveyor returns.

use vstd::prelude::*;
use vstd::string::*;
use crate::constants::{ADDRESS_START, SURVEYOR_URL_PORT};
use crate::error::EnvoyError;
use crate::message::{EmbassyMessage, EmbassyMessageView, MessageKind, MessagePayloadView};
use crate::surveyor_state::SurveyorDiskStatus;
use crate::textutil::{
    lemma_tokens_nonempty, parse_i32, parse_u64, spec_find, spec_lines, spec_nat_chars,
    spec_parse_i32, spec_parse_u64, spec_tokens, split_lines, split_whitespace, str_contains,
    u32_to_string,
};

verus! {

/// Mathematical content of a [`SurveyorResponse`].
#[verifier::ext_equal]
pub struct SurveyorResponseView {
    pub state: i32,
    pub location: Seq<char>,
    pub disk_status: SurveyorDiskStatus,
    pub percent_used: Seq<char>,
    pub disk_space: u64,
    pub files: usize,
    pub bytes_used: u64,
    pub window_bytes: u64,
}

/// One status snapshot of a Surveyor endpoint. `window_bytes` is the
/// number of bytes written during the two-second poll window that
/// produced the snapshot; the data rate in bytes per second is half of
/// it.
#[derive(Debug, Clone)]
pub struct SurveyorResponse {
    pub state: i32,
    pub location: String,
    pub disk_status: SurveyorDiskStatus,
    pub percent_used: String,
    pub disk_space: u64,
    pub files: usize,
    pub bytes_used: u64,
    pub window_bytes: u64,
}

impl View for SurveyorResponse {
    type V = SurveyorResponseView;

    open spec fn view(&self) -> SurveyorResponseView {
        SurveyorResponseView {
            state: self.state,
            location: self.location@,
            disk_status: self.disk_status,
            percent_used: self.percent_used@,
            disk_space: self.disk_space,
            files: self.files,
            bytes_used: self.bytes_used,
            window_bytes: self.window_bytes,
        }
    }
}

/// The snapshot reported when a Surveyor is offline or unreachable.
pub open spec fn spec_default_surveyor() -> SurveyorResponseView {
    SurveyorResponseView {
        state: 0,
        location: "N/A"@,
        disk_status: SurveyorDiskStatus::NA,
        percent_used: "N/A"@,
        disk_space: 0,
        files: 0,
        bytes_used: 0,
        window_bytes: 0,
    }
}

impl Default for SurveyorResponse {
    fn default() -> (r: Self)
        ensures
            r@ == spec_default_surveyor(),
    {
        let r = SurveyorResponse {
            state: 0,
            location: String::from_str("N/A"),
            disk_status: SurveyorDiskStatus::NA,
            percent_used: String::from_str("N/A"),
            disk_space: 0,
            files: 0,
            bytes_used: 0,
            window_bytes: 0,
        };
        proof {
            assert(r@ =~= spec_default_surveyor());
        }
        r
    }
}

/// Network address of the Surveyor serving CoBo `id`.
pub open spec fn spec_surveyor_address(id: int) -> Seq<char> {
    ADDRESS_START@ + "."@ + spec_nat_chars(60 + id)
}

/// URL of the Surveyor at `address`.
pub open spec fn spec_surveyor_url(address: Seq<char>) -> Seq<char> {
    "http://"@ + address + ":"@ + spec_nat_chars(SURVEYOR_URL_PORT as int)
}

/// Mathematical content of a [`SurveyorConfig`].
#[verifier::ext_equal]
pub struct SurveyorConfigView {
    pub id: i32,
    pub address: Seq<char>,
    pub url: Seq<char>,
}

/// Endpoint configuration of one Surveyor driver.
#[derive(Debug, Clone)]
pub struct SurveyorConfig {
    pub id: i32,
    pub address: String,
    pub url: String,
}

impl View for SurveyorConfig {
    type V = SurveyorConfigView;

    open spec fn view(&self) -> SurveyorConfigView {
        SurveyorConfigView { id: self.id, address: self.address@, url: self.url@ }
    }
}

impl SurveyorConfig {
    pub fn new(id: i32) -> (config: Self)
        requires
            0 <= id,
        ensures
            config@.id == id,
            config@.address == spec_surveyor_address(id as int),
            config@.url == spec_surveyor_url(spec_surveyor_address(id as int)),
    {
        let address = Self::address(&id);
        let url = Self::url(address.as_str());
        SurveyorConfig { id, address, url }
    }

    /// Address of the Surveyor serving CoBo `id`: the fleet network
    /// base with final octet `60 + id`.
    pub fn address(id: &i32) -> (address: String)
        requires
            0 <= *id,
        ensures
            address@ == spec_surveyor_address(*id as int),
    {
        let mut address = String::from_str(ADDRESS_START);
        address.append(".");
        let octet = u32_to_string(60 + (*id as u32));
        address.append(octet.as_str());
        address
    }

    /// URL of the Surveyor at `address`, on the Surveyor port.
    pub fn url(address: &str) -> (url: String)
        ensures
            url@ == spec_surveyor_url(address@),
    {
        let mut url = String::from_str("http://");
        url.append(address);
        url.append(":");
        let port = u32_to_string(SURVEYOR_URL_PORT);
        url.append(port.as_str());
        url
    }
}

/// A line of a Surveyor file listing that reports an acquisition file.
pub open spec fn spec_graw_line(l: Seq<char>) -> bool {
    spec_find(l, "graw"@, 0) is Some
}

/// Byte total and file count accumulated over a file listing, scanned
/// left to right: every line reporting an acquisition file contributes
/// its last whitespace-separated field, with the total saturating at
/// the top of `u64`. `None` marks a field that is not a number.
pub open spec fn spec_graw_scan(ls: Seq<Seq<char>>) -> Option<(u64, int)>
    decreases ls.len(),
{
    if ls.len() == 0 {
        Some((0u64, 0int))
    } else {
        match spec_graw_scan(ls.drop_last()) {
            None => None,
            Some((bytes, files)) => {
                let l = ls.last();
                if spec_graw_line(l) {
                    let toks = spec_tokens(l);
                    if toks.len() == 0 {
                        None
                    } else {
                        match spec_parse_u64(toks.last()) {
                            None => None,
                            Some(v) => {
                                let total = if bytes + v > u64::MAX {
                                    u64::MAX
                                } else {
                                    (bytes + v) as u64
                                };
                                Some((total, files + 1))
                            },
                        }
                    }
                } else {
                    Some((bytes, files))
                }
            },
        }
    }
}

/// Once the scan of a prefix of the listing has failed, the scan of
/// the whole listing fails.
pub proof fn lemma_graw_scan_none_extends(ls: Seq<Seq<char>>, j: int)
    requires
        0 <= j <= ls.len(),
        spec_graw_scan(ls.take(j)) is None,
    ensures
        spec_graw_scan(ls) is None,
    decreases ls.len() - j,
{
    if j == ls.len() {
        assert(ls.take(j) =~= ls);
    } else {
        assert(ls.take(j + 1).drop_last() =~= ls.take(j));
        lemma_graw_scan_none_extends(ls, j + 1);
    }
}

/// Disk capacity in bytes from a 512-byte block count, saturating at
/// the top of `u64`.
pub open spec fn spec_disk_space(blocks: u64) -> u64 {
    if blocks > u64::MAX as u64 / 512 {
        u64::MAX
    } else {
        (blocks * 512) as u64
    }
}

/// Everything a Surveyor body parses to: the snapshot view and the new
/// byte watermark the next poll subtracts from. An empty body, an
/// offline state, or one with too few lines or disk-report fields
/// yields the default snapshot with the watermark unchanged; a field
/// that should be a number and is not is an error.
pub open spec fn spec_parse_surveyor(text: Seq<char>, last_bytes: u64) -> Result<
    (SurveyorResponseView, u64),
    EnvoyError,
> {
    let ls = spec_lines(text);
    if ls.len() == 0 {
        Ok((spec_default_surveyor(), last_bytes))
    } else {
        match spec_parse_i32(ls[0]) {
            None => Err(EnvoyError::StringToIntError),
            Some(state) => {
                if state == 0 {
                    Ok((spec_default_surveyor(), last_bytes))
                } else if ls.len() < 4 {
                    Ok((spec_default_surveyor(), last_bytes))
                } else {
                    let toks = spec_tokens(ls[3]);
                    if toks.len() < 5 {
                        Ok((spec_default_surveyor(), last_bytes))
                    } else {
                        match spec_parse_u64(toks[1]) {
                            None => Err(EnvoyError::StringToIntError),
                            Some(blocks) => match spec_graw_scan(ls.skip(4)) {
                                None => Err(EnvoyError::StringToIntError),
                                Some((bytes, files)) => Ok(
                                    (
                                        SurveyorResponseView {
                                            state: state,
                                            location: ls[1],
                                            disk_status: if files > 0 {
                                                SurveyorDiskStatus::Filled
                                            } else {
                                                SurveyorDiskStatus::Empty
                                            },
                                            percent_used: toks[4],
                                            disk_space: spec_disk_space(blocks),
                                            files: files as usize,
                                            bytes_used: bytes,
                                            window_bytes: if bytes >= last_bytes {
                                                (bytes - last_bytes) as u64
                                            } else {
                                                0
                                            },
                                        },
                                        bytes,
                                    ),
                                ),
                            },
                        }
                    }
                }
            },
        }
    }
}

/// Rate law, one poll: when a parsed snapshot's byte total is at least
/// the previous watermark, the reported window is exactly the new
/// bytes since that watermark, and the new watermark is the new total.
pub proof fn lemma_window_is_byte_delta(text: Seq<char>, last_bytes: u64)
    requires
        spec_parse_surveyor(text, last_bytes) matches Ok(parsed) && parsed.0.bytes_used
            >= last_bytes,
    ensures
        ({
            let (v, watermark) = spec_parse_surveyor(text, last_bytes)->Ok_0;
            &&& v.window_bytes == v.bytes_used - last_bytes
            &&& watermark == v.bytes_used
        }),
{
}

/// Rate law, chained polls: over two successive successful polls whose
/// byte totals do not decrease, the second window is exactly the byte
/// difference between the two totals — so over any monotone series of
/// totals, each window is the step difference and the rate in bytes
/// per second is half of it.
pub proof fn lemma_window_chain(text1: Seq<char>, text2: Seq<char>, last0: u64)
    requires
        spec_parse_surveyor(text1, last0) matches Ok(first) && first.0.bytes_used >= last0,
        ({
            let (v1, w1) = spec_parse_surveyor(text1, last0)->Ok_0;
            spec_parse_surveyor(text2, w1) matches Ok(second) && second.0.bytes_used
                >= v1.bytes_used
        }),
    ensures
        ({
            let (v1, w1) = spec_parse_surveyor(text1, last0)->Ok_0;
            let (v2, w2) = spec_parse_surveyor(text2, w1)->Ok_0;
            v2.window_bytes == v2.bytes_used - v1.bytes_used
        }),
{
    lemma_window_is_byte_delta(text1, last0);
    let (v1, w1) = spec_parse_surveyor(text1, last0)->Ok_0;
    lemma_window_is_byte_delta(text2, w1);
}

/// The envelope carrying the default (offline) snapshot for `id`.
fn default_surveyor_message(id: i32) -> (m: EmbassyMessage)
    ensures
        m@ == (EmbassyMessageView {
            kind: MessageKind::Surveyor,
            id: id,
            operation: "None"@,
            payload: MessagePayloadView::Surveyor(spec_default_surveyor()),
        }),
{
    EmbassyMessage::compose_surveyor_response(SurveyorResponse::default(), id)
}

/// Parse the plain-text body a Surveyor returns and envelope the
/// snapshot for module `id`. `last_bytes` is the byte total of the
/// previous poll; the returned watermark replaces it. The result is
/// exactly what [`spec_parse_surveyor`] reads out of the body.
#[verifier::loop_isolation(false)]
pub fn parse_response(text: &str, id: i32, last_bytes: u64) -> (r: Result<
    (EmbassyMessage, u64),
    EnvoyError,
>)
    ensures
        match r {
            Ok((m, watermark)) => {
                &&& spec_parse_surveyor(text@, last_bytes) matches Ok((v, w))
                &&& m@ == (EmbassyMessageView {
                    kind: MessageKind::Surveyor,
                    id: id,
                    operation: "None"@,
                    payload: MessagePayloadView::Surveyor(v),
                })
                &&& watermark == w
            },
            Err(e) => spec_parse_surveyor(text@, last_bytes) matches Err(e2) && e == e2,
        },
{
    let lines = split_lines(text);
    if lines.len() == 0 {
        return Ok((default_surveyor_message(id), last_bytes));
    }
    let state = match parse_i32(lines[0]) {
        Some(v) => v,
        None => {
            return Err(EnvoyError::StringToIntError);
        },
    };
    if state == 0 {
        return Ok((default_surveyor_message(id), last_bytes));
    }
    if lines.len() < 4 {
        return Ok((default_surveyor_message(id), last_bytes));
    }
    let disk_fields = split_whitespace(lines[3]);
    if disk_fields.len() < 5 {
        return Ok((default_surveyor_message(id), last_bytes));
    }
    let blocks = match parse_u64(disk_fields[1]) {
        Some(v) => v,
        None => {
            return Err(EnvoyError::StringToIntError);
        },
    };
    let disk_space = if blocks > u64::MAX / 512 {
        u64::MAX
    } else {
        blocks * 512
    };
    let ghost ls = spec_lines(text@);
    let mut bytes: u64 = 0;
    let mut files: usize = 0;
    let mut k: usize = 4;
    while k < lines.len()
        invariant
            4 <= k <= lines@.len(),
            files <= k - 4,
            spec_graw_scan(ls.skip(4).take(k - 4)) == Some((bytes, files as int)),
        decreases lines@.len() - k,
    {
        let line = lines[k];
        proof {
            assert(ls.skip(4).take(k - 4 + 1).drop_last() =~= ls.skip(4).take(k - 4));
            assert(ls.skip(4).take(k - 4 + 1).last() == line@);
        }
        if str_contains(line, "graw") {
            proof {
                reveal_strlit("graw");
                broadcast use vstd::string::group_string_axioms;

                assert("graw"@.len() == 4);
                assert("graw"@[0] == 'g');
                crate::textutil::lemma_find_some(line@, "graw"@, 0);
                let i = spec_find(line@, "graw"@, 0)->Some_0;
                assert(line@.subrange(i, i + 4)[0] == line@[i]);
                assert(line@[i] == 'g');
                lemma_tokens_nonempty(line@, i);
            }
            let fields = split_whitespace(line);
            let last_field = fields[fields.len() - 1];
            let v = match parse_u64(last_field) {
                Some(v) => v,
                None => {
                    proof {
                        lemma_graw_scan_none_extends(ls.skip(4), k - 4 + 1);
                    }
                    return Err(EnvoyError::StringToIntError);
                },
            };
            bytes = if bytes > u64::MAX - v {
                u64::MAX
            } else {
                bytes + v
            };
            files += 1;
        }
        k += 1;
    }
    proof {
        assert(ls.skip(4).take(ls.skip(4).len() as int) =~= ls.skip(4));
    }
    let window_bytes = if bytes >= last_bytes {
        bytes - last_bytes
    } else {
        0
    };
    let resp = SurveyorResponse {
        state,
        location: String::from_str(lines[1]),
        disk_status: if files > 0 {
            SurveyorDiskStatus::Filled
        } else {
            SurveyorDiskStatus::Empty
        },
        percent_used: String::from_str(disk_fields[4]),
        disk_space,
        files,
        bytes_used: bytes,
        window_bytes,
    };
    proof {
        assert(Some((bytes, files as int)) == spec_graw_scan(ls.skip(4)));
        assert(resp@ =~= spec_parse_surveyor(text@, last_bytes)->Ok_0.0);
    }
    Ok((EmbassyMessage::compose_surveyor_response(resp, id), bytes))
}

} // verus!
