use gdble::dictionary::{DictKey, DictValue};
use gdble::pairing::{
    pair_decision, pair_result, unpair_decision, unpair_result, DeviceLookup, PairingDecision,
    PairingInfo, PairingResult, PairingState, SystemOutcome,
};

fn info(paired: Option<bool>, can_pair: Option<bool>) -> DeviceLookup {
    DeviceLookup::Found(Ok(PairingInfo { is_paired: paired, can_pair }))
}

#[test]
fn pairing_state_from_lookup() {
    let s = PairingState::from_lookup(info(Some(true), None));
    assert!(s.paired && !s.can_pair);
    assert_eq!(s.status, "ok");
    let s = PairingState::from_lookup(DeviceLookup::NotFound);
    assert_eq!(s, PairingState::unavailable("device_not_found"));
    let s = PairingState::from_lookup(DeviceLookup::Failed("boom".to_string()));
    assert_eq!(s.status, "lookup_failed: boom");
    let s = PairingState::from_lookup(DeviceLookup::Found(Err("no".to_string())));
    assert_eq!(s.status, "pairing_unavailable: no");
    assert!(!s.paired && !s.can_pair);
    assert_eq!(PairingState::unsupported_platform().status, "unsupported_platform");
    assert_eq!(PairingState::runtime_failed("x").status, "runtime_failed: x");
}

#[test]
fn pairing_state_dictionary() {
    let d = PairingState::unavailable("device_not_found").to_dictionary();
    assert_eq!(d.entries.len(), 3);
    assert_eq!(d.entries[0], (DictKey::Text("paired".to_string()), DictValue::Bool(false)));
    assert_eq!(d.entries[1], (DictKey::Text("can_pair".to_string()), DictValue::Bool(false)));
    assert_eq!(
        d.entries[2],
        (DictKey::Text("status".to_string()), DictValue::Text("device_not_found".to_string()))
    );
}

#[test]
fn pair_decisions() {
    assert_eq!(
        pair_decision(&info(Some(true), Some(true))),
        PairingDecision::Done(PairingResult { success: true, status: "already_paired".to_string() })
    );
    assert_eq!(
        pair_decision(&info(None, None)),
        PairingDecision::Done(PairingResult::failed("cannot_pair"))
    );
    assert_eq!(pair_decision(&info(Some(false), Some(true))), PairingDecision::AskSystem);
    assert_eq!(
        pair_decision(&DeviceLookup::NotFound),
        PairingDecision::Done(PairingResult::failed("device_not_found"))
    );
    assert_eq!(
        pair_decision(&DeviceLookup::Found(Err("e".to_string()))),
        PairingDecision::Done(PairingResult::failed("pairing_unavailable: e"))
    );
}

#[test]
fn unpair_decisions() {
    assert_eq!(
        unpair_decision(&info(Some(false), Some(true))),
        PairingDecision::Done(PairingResult { success: true, status: "already_unpaired".to_string() })
    );
    assert_eq!(unpair_decision(&info(Some(true), None)), PairingDecision::AskSystem);
    assert_eq!(
        unpair_decision(&DeviceLookup::Failed("e".to_string())),
        PairingDecision::Done(PairingResult::failed("lookup_failed: e"))
    );
}

#[test]
fn system_outcomes() {
    let ok = pair_result(SystemOutcome::Status { code: 0, text: "Paired".to_string() });
    assert!(ok.success);
    assert_eq!(ok.status, "Paired");
    let refused = pair_result(SystemOutcome::Status { code: 19, text: "Failed".to_string() });
    assert!(!refused.success);
    assert_eq!(pair_result(SystemOutcome::StartFailed("a".to_string())).status, "pair_start_failed: a");
    assert_eq!(pair_result(SystemOutcome::RunFailed("b".to_string())).status, "pair_async_failed: b");
    assert_eq!(unpair_result(SystemOutcome::StatusFailed("c".to_string())).status, "unpair_status_failed: c");
    assert!(unpair_result(SystemOutcome::Status { code: 0, text: "Unpaired".to_string() }).success);
    assert_eq!(PairingResult::unsupported_platform(), PairingResult::failed("unsupported_platform"));
    assert_eq!(PairingResult::runtime_failed("r").status, "runtime_failed: r");
}
