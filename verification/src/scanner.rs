//! The state machine of a device scan.
//!
//! A scan starts (`begin_scan`), then consumes the adapter's discovery
//! events (`on_scan_event`, and `record_device` for each device whose
//! properties could be read), is closed (`finish_scan`), and ends with a
//! pass over every peripheral the adapter knows (`post_scan_device`). The
//! scanner keeps the devices found in the current scan, keyed by canonical
//! address, and the addresses already forwarded to scripts, so that the
//! final pass forwards each device that was not forwarded yet, once.
use vstd::prelude::*;
use crate::address::{canonical_address, canonical_address_spec, lemma_canonical_address_idempotent};
use crate::error::BleError;
use crate::string_set::StringSet;
use crate::text::{concat2, str_equal};
use crate::types::{
    distinct_ids, distinct_keys, manufacturer_view, opt_text_view, service_data_view, DeviceInfo,
    DeviceInfoView,
};
use crate::dictionary::texts_view;

verus! {

/// The properties that the platform reports for a peripheral: the
/// advertised name, signal strength, service UUIDs (in textual form),
/// manufacturer data by company identifier, service data by service UUID,
/// and transmit power.
#[derive(Debug, PartialEq, Eq)]
pub struct PeripheralProperties {
    pub local_name: Option<String>,
    pub rssi: Option<i16>,
    pub services: Vec<String>,
    pub manufacturer_data: Vec<(u16, Vec<u8>)>,
    pub service_data: Vec<(String, Vec<u8>)>,
    pub tx_power_level: Option<i16>,
}

impl PeripheralProperties {
    /// Company identifiers and service UUIDs each occur at most once, as in
    /// the maps the platform reports them in.
    pub open spec fn wf(&self) -> bool {
        &&& distinct_ids(manufacturer_view(self.manufacturer_data@))
        &&& distinct_keys(service_data_view(self.service_data@))
    }
}

/// The kind of a discovery event of the adapter.
#[derive(Clone, Copy, Debug, PartialEq, Eq)]
pub enum ScanEventKind {
    /// A peripheral was seen for the first time.
    DeviceDiscovered,
    /// A known peripheral advertised again.
    DeviceUpdated,
    /// A peripheral advertised this many service UUIDs.
    ServicesAdvertisement(usize),
    /// Any other adapter event.
    Other,
}

/// What to do with a discovery event.
#[derive(Clone, Copy, Debug, PartialEq, Eq)]
pub enum ScanEventDecision {
    /// A stop was requested: end the scan loop.
    Stop,
    /// Nothing to record.
    Ignore,
    /// Read the peripheral's properties and pass them to `record_device`.
    LookUp,
}

/// The state of the scanner.
pub struct BluetoothScanner {
    scanning: bool,
    stop_requested: bool,
    event_count: u32,
    devices: Vec<DeviceInfo>,
    sent: StringSet,
}

/// The mathematical form of the scanner's state.
pub struct ScannerView {
    pub scanning: bool,
    pub stop_requested: bool,
    /// Adapter events seen in the current or last scan.
    pub event_count: u32,
    /// The devices of the current or last scan, at most one per address.
    pub devices: Seq<DeviceInfoView>,
    /// The addresses forwarded to scripts during the current or last scan.
    pub sent: Set<Seq<char>>,
}

/// The views of a list of device records.
pub open spec fn infos_view(v: Seq<DeviceInfo>) -> Seq<DeviceInfoView> {
    v.map_values(|d: DeviceInfo| d@)
}

impl View for BluetoothScanner {
    type V = ScannerView;

    closed spec fn view(&self) -> ScannerView {
        ScannerView {
            scanning: self.scanning,
            stop_requested: self.stop_requested,
            event_count: self.event_count,
            devices: infos_view(self.devices@),
            sent: self.sent@,
        }
    }
}

/// Company identifiers and service UUIDs of a record each occur once.
pub open spec fn info_wf(d: DeviceInfoView) -> bool {
    &&& distinct_ids(d.manufacturer_data)
    &&& distinct_keys(d.service_data)
}

/// The position of the device with the given address, or -1.
pub open spec fn address_index(devices: Seq<DeviceInfoView>, address: Seq<char>) -> int
    decreases devices.len(),
{
    if devices.len() == 0 {
        -1
    } else if devices.last().address == address {
        devices.len() - 1
    } else {
        address_index(devices.drop_last(), address)
    }
}

/// The devices with `info` stored under its address: replacing the record
/// already stored there, or added at the end.
pub open spec fn upsert(devices: Seq<DeviceInfoView>, info: DeviceInfoView) -> Seq<DeviceInfoView> {
    let i = address_index(devices, info.address);
    if i >= 0 {
        devices.update(i, info)
    } else {
        devices.push(info)
    }
}

/// The record stored under the address, if any.
pub open spec fn device_at(devices: Seq<DeviceInfoView>, address: Seq<char>) -> Option<DeviceInfoView> {
    let i = address_index(devices, address);
    if i >= 0 {
        Some(devices[i])
    } else {
        None
    }
}

impl ScannerView {
    /// Addresses are distinct and canonical, every stored record is well
    /// formed, and every stored device has been forwarded to scripts.
    pub open spec fn wf(self) -> bool {
        &&& forall|i: int|
            0 <= i < self.devices.len() ==> canonical_address_spec(#[trigger] self.devices[i].address)
                == self.devices[i].address
        &&& forall|i: int, j: int|
            0 <= i < j < self.devices.len() ==> #[trigger] self.devices[i].address
                != #[trigger] self.devices[j].address
        &&& forall|i: int| 0 <= i < self.devices.len() ==> info_wf(#[trigger] self.devices[i])
        &&& forall|i: int|
            0 <= i < self.devices.len() ==> self.sent.contains(#[trigger] self.devices[i].address)
    }
}

/// The record that a scan makes of a peripheral: its canonical address and
/// reported properties, with the pairing state not known yet.
pub open spec fn device_info_spec(address: Seq<char>, p: PeripheralProperties) -> DeviceInfoView {
    DeviceInfoView {
        address,
        name: opt_text_view(p.local_name),
        rssi: p.rssi,
        services: texts_view(p.services@),
        manufacturer_data: manufacturer_view(p.manufacturer_data@),
        service_data: service_data_view(p.service_data@),
        tx_power_level: p.tx_power_level,
        paired: false,
        can_pair: false,
        pairing_status: "unknown"@,
    }
}

/// What starting a scan does: refused while a scan runs; otherwise the
/// results of the previous scan are forgotten.
pub open spec fn begin_scan_step(s: ScannerView) -> (ScannerView, bool) {
    if s.scanning {
        (s, false)
    } else {
        (
            ScannerView {
                scanning: true,
                stop_requested: false,
                event_count: 0,
                devices: Seq::empty(),
                sent: Set::empty(),
            },
            true,
        )
    }
}

/// Whether an event is one that the scan counts: a discovery, an update or
/// a service advertisement.
pub open spec fn counted_kind(kind: ScanEventKind) -> bool {
    !(kind is Other)
}

/// What a discovery event does: after a stop request, the loop ends;
/// otherwise discoveries, updates and service advertisements are counted,
/// and discovered and updated peripherals, and advertisements of at least
/// one service, are looked up.
pub open spec fn scan_event_step(s: ScannerView, kind: ScanEventKind) -> (ScannerView, ScanEventDecision) {
    if s.stop_requested {
        (s, ScanEventDecision::Stop)
    } else {
        let counted = if counted_kind(kind) {
            ScannerView { event_count: (s.event_count + 1) as u32, ..s }
        } else {
            s
        };
        let decision = match kind {
            ScanEventKind::DeviceDiscovered => ScanEventDecision::LookUp,
            ScanEventKind::DeviceUpdated => ScanEventDecision::LookUp,
            ScanEventKind::ServicesAdvertisement(n) => if n > 0 {
                ScanEventDecision::LookUp
            } else {
                ScanEventDecision::Ignore
            },
            ScanEventKind::Other => ScanEventDecision::Ignore,
        };
        (counted, decision)
    }
}

/// What recording a looked-up peripheral during the scan does: its record
/// is stored under its canonical address and it counts as forwarded.
pub open spec fn record_step(s: ScannerView, id: Seq<char>, p: PeripheralProperties) -> (
    ScannerView,
    DeviceInfoView,
) {
    let info = device_info_spec(canonical_address_spec(id), p);
    (
        ScannerView {
            devices: upsert(s.devices, info),
            sent: s.sent.insert(info.address),
            ..s
        },
        info,
    )
}

/// What the final pass does with one peripheral: its record is stored, and
/// it is forwarded only if it was not forwarded during the scan.
pub open spec fn post_scan_step(s: ScannerView, id: Seq<char>, p: PeripheralProperties) -> (
    ScannerView,
    Option<DeviceInfoView>,
) {
    let info = device_info_spec(canonical_address_spec(id), p);
    let stored = upsert(s.devices, info);
    if s.sent.contains(info.address) {
        (ScannerView { devices: stored, ..s }, None)
    } else {
        (ScannerView { devices: stored, sent: s.sent.insert(info.address), ..s }, Some(info))
    }
}

/// What a stop request does: nothing when no scan runs; otherwise the scan
/// counts as stopped and the event loop is asked to end.
pub open spec fn stop_scan_step(s: ScannerView) -> (ScannerView, bool) {
    if !s.scanning {
        (s, false)
    } else {
        (ScannerView { scanning: false, stop_requested: true, ..s }, true)
    }
}

/// Where `address_index` points: at a record with the address, or -1 when
/// no record has it.
pub proof fn lemma_address_index(devices: Seq<DeviceInfoView>, address: Seq<char>)
    ensures
        -1 <= address_index(devices, address) < devices.len(),
        address_index(devices, address) >= 0 ==> devices[address_index(devices, address)].address
            == address,
        address_index(devices, address) < 0 ==> forall|i: int|
            0 <= i < devices.len() ==> #[trigger] devices[i].address != address,
    decreases devices.len(),
{
    if devices.len() > 0 && devices.last().address != address {
        lemma_address_index(devices.drop_last(), address);
        let init = devices.drop_last();
        assert forall|i: int| 0 <= i < devices.len() - 1 implies #[trigger] devices[i] == init[i] by {}
    }
}

proof fn lemma_upsert_wf(s: ScannerView, info: DeviceInfoView)
    requires
        s.wf(),
        info_wf(info),
        canonical_address_spec(info.address) == info.address,
    ensures
        (ScannerView { devices: upsert(s.devices, info), sent: s.sent.insert(info.address), ..s }).wf(),
{
    lemma_address_index(s.devices, info.address);
    let d = upsert(s.devices, info);
    let k = address_index(s.devices, info.address);
    assert forall|i: int, j: int| 0 <= i < j < d.len() implies #[trigger] d[i].address
        != #[trigger] d[j].address by {
        if k < 0 && j == s.devices.len() {
            assert(d[i] == s.devices[i]);
        } else if i == k {
            assert(d[j] == s.devices[j]);
        } else if j == k {
            assert(d[i] == s.devices[i]);
        } else {
            assert(d[i] == s.devices[i]);
            assert(d[j] == s.devices[j]);
        }
    }
    assert forall|i: int| 0 <= i < d.len() implies canonical_address_spec(#[trigger] d[i].address)
        == d[i].address by {
        if !(i == k || (k < 0 && i == s.devices.len())) {
            assert(d[i] == s.devices[i]);
        }
    }
    assert forall|i: int| 0 <= i < d.len() implies info_wf(#[trigger] d[i]) by {
        if !(i == k || (k < 0 && i == s.devices.len())) {
            assert(d[i] == s.devices[i]);
        }
    }
    assert forall|i: int| 0 <= i < d.len() implies s.sent.insert(info.address).contains(
        #[trigger] d[i].address,
    ) by {
        if !(i == k || (k < 0 && i == s.devices.len())) {
            assert(d[i] == s.devices[i]);
        }
    }
}

impl BluetoothScanner {
    /// Whether the scanner's state is consistent (see `ScannerView::wf`).
    pub open spec fn wf(&self) -> bool {
        self@.wf()
    }

    /// A scanner that is not scanning and knows no device.
    pub fn new() -> (r: BluetoothScanner)
        ensures
            r.wf(),
            r@ == (ScannerView {
                scanning: false,
                stop_requested: false,
                event_count: 0,
                devices: Seq::empty(),
                sent: Set::empty(),
            }),
    {
        let r = BluetoothScanner {
            scanning: false,
            stop_requested: false,
            event_count: 0,
            devices: Vec::new(),
            sent: StringSet::new(),
        };
        assert(infos_view(r.devices@) =~= Seq::<DeviceInfoView>::empty());
        r
    }

    /// Starts a scan: refused with `ScanFailed("Already scanning")` while a
    /// scan runs; otherwise forgets the previous scan's devices, forwarded
    /// addresses, event count and stop request.
    pub fn begin_scan(&mut self) -> (r: Result<(), BleError>)
        requires
            old(self).wf(),
        ensures
            final(self).wf(),
            final(self)@ == begin_scan_step(old(self)@).0,
            r is Ok <==> begin_scan_step(old(self)@).1,
            r matches Err(e) ==> e matches BleError::ScanFailed(detail) && detail@
                == "Already scanning"@,
    {
        if self.scanning {
            return Err(BleError::ScanFailed(String::from_str("Already scanning")));
        }
        self.scanning = true;
        self.stop_requested = false;
        self.event_count = 0;
        self.devices = Vec::new();
        self.sent.clear();
        assert(infos_view(self.devices@) =~= Seq::<DeviceInfoView>::empty());
        Ok(())
    }

    /// Ends a scan whose adapter event stream could not be opened, and gives
    /// the error to report.
    pub fn events_unavailable(&mut self, error: &str) -> (r: BleError)
        requires
            old(self).wf(),
        ensures
            final(self).wf(),
            final(self)@ == (ScannerView { scanning: false, ..old(self)@ }),
            r matches BleError::ScanFailed(detail) && detail@ == "Failed to get events: "@ + error@,
    {
        self.scanning = false;
        BleError::ScanFailed(concat2("Failed to get events: ", error))
    }

    /// Ends a scan that the adapter refused to start, and gives the error to
    /// report.
    pub fn adapter_start_failed(&mut self, error: String) -> (r: BleError)
        requires
            old(self).wf(),
        ensures
            final(self).wf(),
            final(self)@ == (ScannerView { scanning: false, ..old(self)@ }),
            r matches BleError::ScanFailed(detail) && detail@ == error@,
    {
        self.scanning = false;
        BleError::ScanFailed(error)
    }

    /// Decides what to do with an adapter event.
    pub fn on_scan_event(&mut self, kind: ScanEventKind) -> (r: ScanEventDecision)
        requires
            old(self).wf(),
            counted_kind(kind) ==> old(self)@.event_count < u32::MAX,
        ensures
            final(self).wf(),
            (final(self)@, r) == scan_event_step(old(self)@, kind),
    {
        if self.stop_requested {
            return ScanEventDecision::Stop;
        }
        match kind {
            ScanEventKind::Other => {},
            _ => {
                self.event_count = self.event_count + 1;
            },
        }
        match kind {
            ScanEventKind::DeviceDiscovered => ScanEventDecision::LookUp,
            ScanEventKind::DeviceUpdated => ScanEventDecision::LookUp,
            ScanEventKind::ServicesAdvertisement(n) => if n > 0 {
                ScanEventDecision::LookUp
            } else {
                ScanEventDecision::Ignore
            },
            ScanEventKind::Other => ScanEventDecision::Ignore,
        }
    }

    /// The record of a peripheral with the given canonical address and
    /// properties, its pairing state not known yet.
    pub fn create_device_info(address: String, properties: PeripheralProperties) -> (r: DeviceInfo)
        requires
            properties.wf(),
        ensures
            r.wf(),
            r@ == device_info_spec(address@, properties),
    {
        DeviceInfo::with_unknown_pairing(
            address,
            properties.local_name,
            properties.rssi,
            properties.services,
            properties.manufacturer_data,
            properties.service_data,
            properties.tx_power_level,
        )
    }

    fn store(&mut self, info: DeviceInfo)
        requires
            old(self).wf(),
            info.wf(),
            canonical_address_spec(info@.address) == info@.address,
        ensures
            final(self).wf(),
            final(self)@ == (ScannerView {
                devices: upsert(old(self)@.devices, info@),
                sent: old(self)@.sent.insert(info@.address),
                ..old(self)@
            }),
    {
        proof {
            lemma_address_index(self@.devices, info@.address);
            lemma_upsert_wf(self@, info@);
        }
        let ghost before = self.devices@;
        let key = info.address.clone();
        match self.lookup(key.as_str()) {
            Some(i) => {
                self.devices.set(i, info);
                assert(infos_view(self.devices@) =~= upsert(infos_view(before), info@));
            },
            None => {
                self.devices.push(info);
                assert(infos_view(self.devices@) =~= upsert(infos_view(before), infos_view(
                    self.devices@,
                ).last()));
            },
        }
        self.sent.insert(key);
    }

    /// Records a peripheral looked up during the scan: stores its record
    /// under its canonical address, counts it as forwarded, and gives the
    /// record to forward.
    pub fn record_device(&mut self, id: &str, properties: PeripheralProperties) -> (r: DeviceInfo)
        requires
            old(self).wf(),
            properties.wf(),
        ensures
            final(self).wf(),
            r.wf(),
            (final(self)@, r@) == record_step(old(self)@, id@, properties),
    {
        let address = canonical_address(id);
        proof {
            lemma_canonical_address_idempotent(id@);
        }
        let info = Self::create_device_info(address, properties);
        let out = info.duplicate();
        self.store(info);
        out
    }

    /// Closes the scan: it no longer counts as running. Gives the failure to
    /// report when stopping the adapter failed.
    pub fn finish_scan(&mut self, stop_error: Option<String>) -> (r: Result<(), BleError>)
        requires
            old(self).wf(),
        ensures
            final(self).wf(),
            final(self)@ == (ScannerView { scanning: false, ..old(self)@ }),
            match stop_error {
                None => r is Ok,
                Some(e) => r matches Err(BleError::ScanFailed(detail)) && detail@
                    == "Failed to stop scan: "@ + e@,
            },
    {
        self.scanning = false;
        match stop_error {
            None => Ok(()),
            Some(e) => Err(BleError::ScanFailed(concat2("Failed to stop scan: ", e.as_str()))),
        }
    }

    /// Records a peripheral in the final pass over the adapter's
    /// peripherals: stores its record, and gives it to forward only when it
    /// was not forwarded during the scan.
    pub fn post_scan_device(&mut self, id: &str, properties: PeripheralProperties) -> (r: Option<
        DeviceInfo,
    >)
        requires
            old(self).wf(),
            properties.wf(),
        ensures
            final(self).wf(),
            final(self)@ == post_scan_step(old(self)@, id@, properties).0,
            match r {
                Some(info) => post_scan_step(old(self)@, id@, properties).1 == Some(info@),
                None => post_scan_step(old(self)@, id@, properties).1 is None,
            },
    {
        let address = canonical_address(id);
        proof {
            lemma_canonical_address_idempotent(id@);
        }
        let already_sent = self.sent.contains(address.as_str());
        let info = Self::create_device_info(address, properties);
        let out = info.duplicate();
        let ghost old_sent = self@.sent;
        self.store(info);
        if already_sent {
            assert(old_sent.insert(out@.address) =~= old_sent);
            None
        } else {
            Some(out)
        }
    }

    /// The result of the scan once the event loop ended: success when the
    /// loop was cut off by the scan's time limit (`None`) or ended on its
    /// own, and the loop's own failure otherwise.
    pub fn scan_outcome(collected: Option<Result<(), BleError>>) -> (r: Result<(), BleError>)
        ensures
            match collected {
                Some(Err(e)) => r == Err::<(), BleError>(e),
                _ => r is Ok,
            },
    {
        match collected {
            Some(Err(e)) => Err(e),
            _ => Ok(()),
        }
    }

    /// Requests that a running scan stop; gives whether the adapter must be
    /// told to stop scanning.
    pub fn stop_scan(&mut self) -> (r: bool)
        requires
            old(self).wf(),
        ensures
            final(self).wf(),
            (final(self)@, r) == stop_scan_step(old(self)@),
    {
        if !self.scanning {
            return false;
        }
        self.scanning = false;
        self.stop_requested = true;
        true
    }

    /// The records of the devices found by the current or last scan.
    pub fn get_devices(&self) -> (r: Vec<DeviceInfo>)
        requires
            self.wf(),
        ensures
            infos_view(r@) == self@.devices,
            forall|i: int| 0 <= i < r@.len() ==> (#[trigger] r@[i]).wf(),
            forall|i: int, j: int|
                0 <= i < j < r@.len() ==> #[trigger] r@[i]@.address != #[trigger] r@[j]@.address,
            forall|i: int|
                0 <= i < r@.len() ==> canonical_address_spec(#[trigger] r@[i]@.address)
                    == r@[i]@.address,
    {
        let mut out: Vec<DeviceInfo> = Vec::new();
        let mut i: usize = 0;
        while i < self.devices.len()
            invariant
                self.wf(),
                i <= self.devices.len(),
                infos_view(out@) =~= self@.devices.take(i as int),
                forall|j: int| 0 <= j < out@.len() ==> (#[trigger] out@[j]).wf(),
            decreases self.devices.len() - i,
        {
            let d = self.devices[i].duplicate();
            let ghost before = out@;
            out.push(d);
            assert(infos_view(out@) =~= infos_view(before).push(d@));
            assert(self@.devices.take(i as int + 1) =~= self@.devices.take(i as int).push(d@));
            assert(self@.devices[i as int] == self.devices@[i as int]@);
            assert(info_wf(self@.devices[i as int]));
            i = i + 1;
        }
        assert(self@.devices.take(i as int) =~= self@.devices);
        assert forall|a: int, b: int| 0 <= a < b < out@.len() implies #[trigger] out@[a]@.address
            != #[trigger] out@[b]@.address by {
            assert(infos_view(out@)[a] == out@[a]@);
            assert(infos_view(out@)[b] == out@[b]@);
        }
        assert forall|a: int| 0 <= a < out@.len() implies canonical_address_spec(
            #[trigger] out@[a]@.address,
        ) == out@[a]@.address by {
            assert(infos_view(out@)[a] == out@[a]@);
        }
        out
    }

    fn lookup(&self, key: &str) -> (r: Option<usize>)
        requires
            self.wf(),
        ensures
            match r {
                Some(i) => i < self.devices@.len() && address_index(self@.devices, key@) == i,
                None => address_index(self@.devices, key@) < 0,
            },
    {
        let mut i: usize = self.devices.len();
        assert(self@.devices.take(i as int) =~= self@.devices);
        while i > 0
            invariant
                i <= self.devices.len(),
                address_index(self@.devices, key@) == address_index(
                    self@.devices.take(i as int),
                    key@,
                ),
            decreases i,
        {
            assert(self@.devices.take(i as int).last() == self.devices@[i - 1]@);
            if str_equal(self.devices[i - 1].address.as_str(), key) {
                return Some(i - 1);
            }
            assert(self@.devices.take(i as int).drop_last() =~= self@.devices.take(i as int - 1));
            i = i - 1;
        }
        None
    }

    /// The canonical address and record of a device found by the current or
    /// last scan, looked up by any spelling of its address.
    pub fn get_cached_peripheral(&self, address: &str) -> (r: Option<(String, DeviceInfo)>)
        requires
            self.wf(),
        ensures
            match r {
                Some((key, info)) => key@ == canonical_address_spec(address@) && device_at(
                    self@.devices,
                    key@,
                ) == Some(info@) && info.wf(),
                None => device_at(self@.devices, canonical_address_spec(address@)) is None,
            },
    {
        let key = canonical_address(address);
        match self.lookup(key.as_str()) {
            Some(i) => {
                assert(self@.devices[i as int] == self.devices@[i as int]@);
                assert(info_wf(self@.devices[i as int]));
                Some((key, self.devices[i].duplicate()))
            },
            None => None,
        }
    }

    /// Whether a device with this address (in any spelling) was found by the
    /// current or last scan.
    pub fn is_device_cached(&self, address: &str) -> (r: bool)
        requires
            self.wf(),
        ensures
            r == device_at(self@.devices, canonical_address_spec(address@)) is Some,
    {
        let key = canonical_address(address);
        self.lookup(key.as_str()).is_some()
    }

    /// Whether a scan is running.
    pub fn is_scanning(&self) -> (r: bool)
        ensures
            r == self@.scanning,
    {
        self.scanning
    }

    /// The number of adapter events seen in the current or last scan.
    pub fn raw_advertisements(&self) -> (r: u32)
        ensures
            r == self@.event_count,
    {
        self.event_count
    }

    /// The number of distinct devices found by the current or last scan,
    /// truncated to 32 bits.
    pub fn unique_devices(&self) -> (r: u32)
        ensures
            r == self@.devices.len() as u32,
    {
        #[verifier::truncate]
        (self.devices.len() as u32)
    }
}

/// Whether extended advertisements were requested: the setting holds
/// exactly `"1"`.
pub fn extended_advertisements_requested(setting: Option<&str>) -> (r: bool)
    ensures
        r == (setting matches Some(v) && v@ == "1"@),
{
    match setting {
        Some(v) => str_equal(v, "1"),
        None => false,
    }
}

} // verus!
