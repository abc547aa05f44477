//! Properties of the scan state machine that span several operations.
use vstd::prelude::*;
use crate::address::{canonical_address_spec, lemma_canonical_address_ignores_ascii_case};
use crate::scanner::{
    address_index, begin_scan_step, device_at, device_info_spec, lemma_address_index,
    post_scan_step, record_step, scan_event_step, stop_scan_step, upsert, PeripheralProperties,
    ScanEventDecision, ScanEventKind, ScannerView,
};
use crate::text::eq_ignore_ascii_case_spec;
use crate::types::{manufacturer_view, opt_text_view, service_data_view, DeviceInfoView};
use crate::dictionary::texts_view;

verus! {

/// Every device that the scanner holds has been forwarded to scripts during
/// the scan that found it (every operation keeps this).
pub proof fn lemma_stored_devices_were_forwarded(s: ScannerView, i: int)
    requires
        s.wf(),
        0 <= i < s.devices.len(),
    ensures
        s.sent.contains(s.devices[i].address),
{
}

/// A scan cannot be started while one runs: the request changes nothing.
pub proof fn lemma_no_second_scan(s: ScannerView)
    requires
        s.scanning,
    ensures
        begin_scan_step(s) == (s, false),
{
}

/// A new scan starts empty: no device, nothing forwarded, nothing counted.
pub proof fn lemma_new_scan_starts_empty(s: ScannerView)
    requires
        !s.scanning,
    ensures
        begin_scan_step(s).1,
        begin_scan_step(s).0.scanning,
        begin_scan_step(s).0.devices.len() == 0,
        begin_scan_step(s).0.sent == Set::<Seq<char>>::empty(),
        begin_scan_step(s).0.event_count == 0,
{
}

/// A scan whose start failed is over: a new scan may be started.
pub proof fn lemma_failed_start_ends_scan(s: ScannerView)
    requires
        !s.scanning,
    ensures
        begin_scan_step(ScannerView { scanning: false, ..begin_scan_step(s).0 }).1,
{
}

/// Only discoveries, updates and service advertisements are counted; other
/// adapter events leave the count as it is.
pub proof fn lemma_only_advertisements_are_counted(s: ScannerView, kind: ScanEventKind)
    requires
        !s.stop_requested,
        s.event_count < u32::MAX,
    ensures
        scan_event_step(s, kind).0.event_count == if kind is Other {
            s.event_count as int
        } else {
            s.event_count + 1
        },
{
}

/// After a stop request the scan no longer runs and the event loop ends at
/// its next event; a stop request when no scan runs changes nothing.
pub proof fn lemma_stop_ends_event_loop(s: ScannerView, kind: ScanEventKind)
    ensures
        !stop_scan_step(s).0.scanning,
        s.scanning ==> scan_event_step(stop_scan_step(s).0, kind) == (
            stop_scan_step(s).0,
            ScanEventDecision::Stop,
        ),
        !s.scanning ==> stop_scan_step(s) == (s, false),
{
}

proof fn lemma_upsert_then_lookup(devices: Seq<DeviceInfoView>, info: DeviceInfoView)
    requires
        forall|i: int, j: int|
            0 <= i < j < devices.len() ==> #[trigger] devices[i].address
                != #[trigger] devices[j].address,
    ensures
        device_at(upsert(devices, info), info.address) == Some(info),
{
    lemma_address_index(devices, info.address);
    let k = address_index(devices, info.address);
    let d = upsert(devices, info);
    let pos = if k >= 0 {
        k
    } else {
        devices.len() as int
    };
    assert(d[pos] == info);
    lemma_address_index(d, info.address);
    let m = address_index(d, info.address);
    assert(m >= 0);
    if m != pos {
        assert(d[m] == devices[m]);
        if k >= 0 {
            if m < k {
                assert(devices[m].address != devices[k].address);
            } else {
                assert(devices[k].address != devices[m].address);
            }
        }
    }
}

/// A device recorded during the scan is found under its canonical address
/// with the record that was made of it.
pub proof fn lemma_recorded_device_is_found(s: ScannerView, id: Seq<char>, p: PeripheralProperties)
    requires
        s.wf(),
    ensures
        device_at(record_step(s, id, p).0.devices, canonical_address_spec(id)) == Some(
            record_step(s, id, p).1,
        ),
{
    lemma_upsert_then_lookup(s.devices, device_info_spec(canonical_address_spec(id), p));
}

/// The final pass forwards a device at most once: once forwarded, during
/// the scan or by the pass itself, the same address (in any spelling that
/// differs only in ASCII case) is not forwarded again.
pub proof fn lemma_post_scan_forwards_once(
    s: ScannerView,
    id: Seq<char>,
    p: PeripheralProperties,
    id2: Seq<char>,
    p2: PeripheralProperties,
)
    requires
        eq_ignore_ascii_case_spec(id, id2),
    ensures
        post_scan_step(post_scan_step(s, id, p).0, id2, p2).1 is None,
        post_scan_step(record_step(s, id, p).0, id2, p2).1 is None,
{
    lemma_canonical_address_ignores_ascii_case(id, id2);
}

/// Looking a device up does not depend on the ASCII case of the address
/// asked for.
pub proof fn lemma_lookup_ignores_ascii_case(devices: Seq<DeviceInfoView>, a: Seq<char>, b: Seq<char>)
    requires
        eq_ignore_ascii_case_spec(a, b),
    ensures
        device_at(devices, canonical_address_spec(a)) == device_at(devices, canonical_address_spec(b)),
{
    lemma_canonical_address_ignores_ascii_case(a, b);
}


/// The record a scan makes of a peripheral, during the scan or in the final
/// pass, carries the canonical form of its address and exactly the name,
/// signal strength, services, manufacturer data, service data and transmit
/// power that the peripheral reported, with its pairing state not known
/// yet; that record is what is stored under the address.
pub proof fn lemma_records_keep_reported_properties(s: ScannerView, id: Seq<char>, p: PeripheralProperties)
    requires
        s.wf(),
    ensures
        ({
            let info = record_step(s, id, p).1;
            &&& info.address == canonical_address_spec(id)
            &&& info.name == opt_text_view(p.local_name)
            &&& info.rssi == p.rssi
            &&& info.services == texts_view(p.services@)
            &&& info.manufacturer_data == manufacturer_view(p.manufacturer_data@)
            &&& info.service_data == service_data_view(p.service_data@)
            &&& info.tx_power_level == p.tx_power_level
            &&& !info.paired
            &&& !info.can_pair
            &&& info.pairing_status == "unknown"@
            &&& device_at(record_step(s, id, p).0.devices, canonical_address_spec(id)) == Some(info)
            &&& device_at(post_scan_step(s, id, p).0.devices, canonical_address_spec(id)) == Some(info)
            &&& post_scan_step(s, id, p).1 matches Some(forwarded) ==> forwarded == info
        }),
{
    lemma_upsert_then_lookup(s.devices, device_info_spec(canonical_address_spec(id), p));
}

} // verus!
