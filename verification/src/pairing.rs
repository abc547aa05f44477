//! Pairing of a device with the operating system: the state reported to
//! scripts and the decisions of the pairing and unpairing procedures.
//!
//! Each procedure first looks the device up, then reads its pairing
//! information, and may then ask the system to pair or unpair it. The
//! functions here take what each of those steps gave and decide what is
//! reported.
use vstd::prelude::*;
use crate::dictionary::{text_entry, DictValue, DictValueView, Dictionary};
use crate::text::concat2;

verus! {

/// The pairing state of a device as reported to scripts.
#[derive(Debug, PartialEq, Eq)]
pub struct PairingState {
    pub paired: bool,
    pub can_pair: bool,
    pub status: String,
}

/// The outcome of a pairing or unpairing request.
#[derive(Debug, PartialEq, Eq)]
pub struct PairingResult {
    pub success: bool,
    pub status: String,
}

/// What the lookup of a device gave: the device with its pairing
/// information (or the failure to read it), no device, or a failure.
#[derive(Debug, PartialEq, Eq)]
pub enum DeviceLookup {
    Found(Result<PairingInfo, String>),
    NotFound,
    Failed(String),
}

/// The pairing information of a device; each flag is absent when it could
/// not be read.
#[derive(Clone, Copy, Debug, PartialEq, Eq)]
pub struct PairingInfo {
    pub is_paired: Option<bool>,
    pub can_pair: Option<bool>,
}

/// What a request to the system to pair or unpair gave: a failure to start
/// it, a failure while it ran, a failure to read its status, or its status
/// (the numeric code and the text of the status value).
#[derive(Debug, PartialEq, Eq)]
pub enum SystemOutcome {
    StartFailed(String),
    RunFailed(String),
    StatusFailed(String),
    Status { code: i32, text: String },
}

/// The decision before asking the system: a final result, or go ahead.
#[derive(Debug, PartialEq, Eq)]
pub enum PairingDecision {
    Done(PairingResult),
    AskSystem,
}

/// The status code of a completed pairing (`DevicePairingResultStatus::Paired`).
pub const PAIRED_STATUS_CODE: i32 = 0;

/// The status code of a completed unpairing (`DeviceUnpairingResultStatus::Unpaired`).
pub const UNPAIRED_STATUS_CODE: i32 = 0;

/// A flag that could not be read counts as false.
pub open spec fn flag(f: Option<bool>) -> bool {
    match f {
        Some(b) => b,
        None => false,
    }
}

/// The pairing state that a lookup gives: the two flags with status
/// `"ok"`, or an unavailable state whose status says why.
pub open spec fn pairing_state_spec(lookup: DeviceLookup) -> (bool, bool, Seq<char>) {
    match lookup {
        DeviceLookup::Found(Ok(info)) => (flag(info.is_paired), flag(info.can_pair), "ok"@),
        DeviceLookup::Found(Err(e)) => (false, false, "pairing_unavailable: "@ + e@),
        DeviceLookup::NotFound => (false, false, "device_not_found"@),
        DeviceLookup::Failed(e) => (false, false, "lookup_failed: "@ + e@),
    }
}

/// The failure that ends a procedure before it reads pairing information,
/// or none when the device and its information were found.
pub open spec fn lookup_failure(lookup: DeviceLookup) -> Option<Seq<char>> {
    match lookup {
        DeviceLookup::Found(Ok(_)) => None,
        DeviceLookup::Found(Err(e)) => Some("pairing_unavailable: "@ + e@),
        DeviceLookup::NotFound => Some("device_not_found"@),
        DeviceLookup::Failed(e) => Some("lookup_failed: "@ + e@),
    }
}

/// The decision of the pairing procedure before asking the system: stop
/// on a lookup failure, succeed at once when already paired, fail when the
/// device cannot be paired, and ask the system otherwise.
pub open spec fn pair_decision_spec(lookup: DeviceLookup) -> Option<(bool, Seq<char>)> {
    match lookup {
        DeviceLookup::Found(Ok(info)) => if flag(info.is_paired) {
            Some((true, "already_paired"@))
        } else if !flag(info.can_pair) {
            Some((false, "cannot_pair"@))
        } else {
            None
        },
        _ => Some((false, lookup_failure(lookup)->0)),
    }
}

/// The decision of the unpairing procedure before asking the system: stop
/// on a lookup failure, succeed at once when not paired, and ask the system
/// otherwise.
pub open spec fn unpair_decision_spec(lookup: DeviceLookup) -> Option<(bool, Seq<char>)> {
    match lookup {
        DeviceLookup::Found(Ok(info)) => if !flag(info.is_paired) {
            Some((true, "already_unpaired"@))
        } else {
            None
        },
        _ => Some((false, lookup_failure(lookup)->0)),
    }
}

/// The result of a system request: success exactly when the status has
/// the given success code, with the status text; a failure naming the
/// step (prefixed by `op`) otherwise.
pub open spec fn system_result_spec(op: Seq<char>, success_code: i32, outcome: SystemOutcome) -> (
    bool,
    Seq<char>,
) {
    match outcome {
        SystemOutcome::StartFailed(e) => (false, op + "_start_failed: "@ + e@),
        SystemOutcome::RunFailed(e) => (false, op + "_async_failed: "@ + e@),
        SystemOutcome::StatusFailed(e) => (false, op + "_status_failed: "@ + e@),
        SystemOutcome::Status { code, text } => (code == success_code, text@),
    }
}

impl PairingState {
    /// A state for a device whose pairing information is not available:
    /// not paired, not pairable, with the given status.
    pub fn unavailable(status: &str) -> (r: PairingState)
        ensures
            !r.paired,
            !r.can_pair,
            r.status@ == status@,
    {
        PairingState { paired: false, can_pair: false, status: String::from_str(status) }
    }

    /// The dictionary form: `paired`, `can_pair` and `status`.
    pub fn to_dictionary(&self) -> (r: Dictionary)
        ensures
            r@ == seq![
                text_entry("paired"@, DictValueView::Bool(self.paired)),
                text_entry("can_pair"@, DictValueView::Bool(self.can_pair)),
                text_entry("status"@, DictValueView::Text(self.status@)),
            ],
    {
        let mut d = Dictionary::new();
        d.push_text_key("paired", DictValue::Bool(self.paired));
        d.push_text_key("can_pair", DictValue::Bool(self.can_pair));
        d.push_text_key("status", DictValue::Text(self.status.clone()));
        assert(d@ =~= seq![
            text_entry("paired"@, DictValueView::Bool(self.paired)),
            text_entry("can_pair"@, DictValueView::Bool(self.can_pair)),
            text_entry("status"@, DictValueView::Text(self.status@)),
        ]);
        d
    }

    /// The pairing state that a device lookup gives.
    pub fn from_lookup(lookup: DeviceLookup) -> (r: PairingState)
        ensures
            (r.paired, r.can_pair, r.status@) == pairing_state_spec(lookup),
    {
        match lookup {
            DeviceLookup::Found(Ok(info)) => PairingState {
                paired: unwrap_flag(info.is_paired),
                can_pair: unwrap_flag(info.can_pair),
                status: String::from_str("ok"),
            },
            DeviceLookup::Found(Err(e)) => PairingState::unavailable(
                concat2("pairing_unavailable: ", e.as_str()).as_str(),
            ),
            DeviceLookup::NotFound => PairingState::unavailable("device_not_found"),
            DeviceLookup::Failed(e) => PairingState::unavailable(
                concat2("lookup_failed: ", e.as_str()).as_str(),
            ),
        }
    }

    /// The state reported when the procedure could not be run at all.
    pub fn runtime_failed(error: &str) -> (r: PairingState)
        ensures
            !r.paired,
            !r.can_pair,
            r.status@ == "runtime_failed: "@ + error@,
    {
        PairingState::unavailable(concat2("runtime_failed: ", error).as_str())
    }

    /// The state reported on platforms without pairing support.
    pub fn unsupported_platform() -> (r: PairingState)
        ensures
            !r.paired,
            !r.can_pair,
            r.status@ == "unsupported_platform"@,
    {
        PairingState::unavailable("unsupported_platform")
    }
}

fn unwrap_flag(f: Option<bool>) -> (r: bool)
    ensures
        r == flag(f),
{
    match f {
        Some(b) => b,
        None => false,
    }
}

impl PairingResult {
    /// A failed outcome with the given status.
    pub fn failed(status: &str) -> (r: PairingResult)
        ensures
            !r.success,
            r.status@ == status@,
    {
        PairingResult { success: false, status: String::from_str(status) }
    }

    /// The outcome reported when the procedure could not be run at all.
    pub fn runtime_failed(error: &str) -> (r: PairingResult)
        ensures
            !r.success,
            r.status@ == "runtime_failed: "@ + error@,
    {
        PairingResult::failed(concat2("runtime_failed: ", error).as_str())
    }

    /// The outcome reported on platforms without pairing support.
    pub fn unsupported_platform() -> (r: PairingResult)
        ensures
            !r.success,
            r.status@ == "unsupported_platform"@,
    {
        PairingResult::failed("unsupported_platform")
    }
}

fn lookup_failure_status(lookup: &DeviceLookup) -> (r: Option<String>)
    ensures
        match r {
            Some(s) => lookup_failure(*lookup) == Some(s@),
            None => lookup_failure(*lookup) is None,
        },
{
    match lookup {
        DeviceLookup::Found(Ok(_)) => None,
        DeviceLookup::Found(Err(e)) => Some(concat2("pairing_unavailable: ", e.as_str())),
        DeviceLookup::NotFound => Some(String::from_str("device_not_found")),
        DeviceLookup::Failed(e) => Some(concat2("lookup_failed: ", e.as_str())),
    }
}

/// What the pairing procedure does before asking the system to pair.
pub fn pair_decision(lookup: &DeviceLookup) -> (r: PairingDecision)
    ensures
        match r {
            PairingDecision::Done(res) => pair_decision_spec(*lookup) == Some((res.success, res.status@)),
            PairingDecision::AskSystem => pair_decision_spec(*lookup) is None,
        },
{
    match lookup {
        DeviceLookup::Found(Ok(info)) => {
            if unwrap_flag(info.is_paired) {
                PairingDecision::Done(
                    PairingResult { success: true, status: String::from_str("already_paired") },
                )
            } else if !unwrap_flag(info.can_pair) {
                PairingDecision::Done(PairingResult::failed("cannot_pair"))
            } else {
                PairingDecision::AskSystem
            }
        },
        _ => {
            let status = lookup_failure_status(lookup);
            match status {
                Some(s) => PairingDecision::Done(PairingResult { success: false, status: s }),
                None => PairingDecision::AskSystem,
            }
        },
    }
}

/// What the unpairing procedure does before asking the system to unpair.
pub fn unpair_decision(lookup: &DeviceLookup) -> (r: PairingDecision)
    ensures
        match r {
            PairingDecision::Done(res) => unpair_decision_spec(*lookup) == Some(
                (res.success, res.status@),
            ),
            PairingDecision::AskSystem => unpair_decision_spec(*lookup) is None,
        },
{
    match lookup {
        DeviceLookup::Found(Ok(info)) => {
            if !unwrap_flag(info.is_paired) {
                PairingDecision::Done(
                    PairingResult { success: true, status: String::from_str("already_unpaired") },
                )
            } else {
                PairingDecision::AskSystem
            }
        },
        _ => {
            let status = lookup_failure_status(lookup);
            match status {
                Some(s) => PairingDecision::Done(PairingResult { success: false, status: s }),
                None => PairingDecision::AskSystem,
            }
        },
    }
}

fn system_result(op: &str, success_code: i32, outcome: SystemOutcome) -> (r: PairingResult)
    ensures
        (r.success, r.status@) == system_result_spec(op@, success_code, outcome),
{
    match outcome {
        SystemOutcome::StartFailed(e) => {
            let prefix = concat2(op, "_start_failed: ");
            PairingResult::failed(concat2(prefix.as_str(), e.as_str()).as_str())
        },
        SystemOutcome::RunFailed(e) => {
            let prefix = concat2(op, "_async_failed: ");
            PairingResult::failed(concat2(prefix.as_str(), e.as_str()).as_str())
        },
        SystemOutcome::StatusFailed(e) => {
            let prefix = concat2(op, "_status_failed: ");
            PairingResult::failed(concat2(prefix.as_str(), e.as_str()).as_str())
        },
        SystemOutcome::Status { code, text } => PairingResult { success: code == success_code, status: text },
    }
}

/// The outcome of a pairing request that the system ran.
pub fn pair_result(outcome: SystemOutcome) -> (r: PairingResult)
    ensures
        (r.success, r.status@) == system_result_spec("pair"@, PAIRED_STATUS_CODE, outcome),
{
    system_result("pair", PAIRED_STATUS_CODE, outcome)
}

/// The outcome of an unpairing request that the system ran.
pub fn unpair_result(outcome: SystemOutcome) -> (r: PairingResult)
    ensures
        (r.success, r.status@) == system_result_spec("unpair"@, UNPAIRED_STATUS_CODE, outcome),
{
    system_result("unpair", UNPAIRED_STATUS_CODE, outcome)
}

/// Pairing a device that is already paired succeeds at once, and
/// unpairing a device that is not paired succeeds at once, without asking
/// the system.
pub proof fn lemma_pairing_is_idempotent(info: PairingInfo)
    ensures
        flag(info.is_paired) ==> pair_decision_spec(DeviceLookup::Found(Ok(info))) == Some(
            (true, "already_paired"@),
        ),
        !flag(info.is_paired) ==> unpair_decision_spec(DeviceLookup::Found(Ok(info))) == Some(
            (true, "already_unpaired"@),
        ),
{
}


/// The pairing procedure, for a device that was found with its pairing
/// information: succeeds at once with `already_paired` when the device
/// reads as paired; otherwise fails with `cannot_pair` unless the device
/// reads as pairable, and only then asks the system. A flag that could not
/// be read counts as not set.
pub proof fn lemma_pairing_asks_only_for_pairable_devices(info: PairingInfo)
    ensures
        info.is_paired == Some(true) ==> pair_decision_spec(DeviceLookup::Found(Ok(info))) == Some(
            (true, "already_paired"@),
        ),
        info.is_paired != Some(true) && info.can_pair != Some(true) ==> pair_decision_spec(
            DeviceLookup::Found(Ok(info)),
        ) == Some((false, "cannot_pair"@)),
        info.is_paired != Some(true) && info.can_pair == Some(true) ==> pair_decision_spec(
            DeviceLookup::Found(Ok(info)),
        ) is None,
        info.is_paired == Some(true) ==> unpair_decision_spec(DeviceLookup::Found(Ok(info))) is None,
        info.is_paired != Some(true) ==> unpair_decision_spec(DeviceLookup::Found(Ok(info))) == Some(
            (true, "already_unpaired"@),
        ),
{
}

/// Both procedures stop before asking the system, with a failure, when the
/// device was not found, its lookup failed, or its pairing information
/// could not be read.
pub proof fn lemma_lookup_failures_stop_pairing(lookup: DeviceLookup)
    requires
        !(lookup matches DeviceLookup::Found(Ok(_))),
    ensures
        pair_decision_spec(lookup) matches Some((false, _)),
        unpair_decision_spec(lookup) matches Some((false, _)),
        lookup is NotFound ==> pair_decision_spec(lookup) == Some((false, "device_not_found"@)),
{
}

/// A status from the system means success exactly when it is the status of
/// a completed pairing (or unpairing), and the reported status is the
/// system's own text.
pub proof fn lemma_system_status_decides(code: i32, text: String)
    ensures
        system_result_spec("pair"@, PAIRED_STATUS_CODE, SystemOutcome::Status { code, text }) == (
            code == 0,
            text@,
        ),
        system_result_spec("unpair"@, UNPAIRED_STATUS_CODE, SystemOutcome::Status { code, text }) == (
            code == 0,
            text@,
        ),
{
}

} // verus!
