//! Pairing transports: the abstraction over BLE, QR-code and NFC
//! discovery and pairing channels, the mock transports used for testing,
//! and the manager that holds the available transports.
use vstd::prelude::*;
use vstd::string::*;

use crate::device::identity::{DeviceId, device_id_eq};
use crate::text::{clone_strings, strings_view};

verus! {

/// Transport error.
#[derive(Debug, Clone, PartialEq, Eq)]
pub enum TransportError {
    /// Transport not available on this hardware.
    NotAvailable,
    /// Transport is powered off.
    PoweredOff,
    /// No devices found.
    NoDevicesFound,
    /// Connection failed.
    ConnectionFailed(String),
    /// Data transfer failed.
    TransferFailed(String),
    /// Timeout waiting for a device.
    Timeout,
    /// Pairing was rejected by the remote device.
    Rejected,
    /// Invalid data received.
    InvalidData(String),
    /// I/O error.
    IoError(String),
}

/// `TransportError` with its strings as character sequences.
pub enum TransportErrorView {
    NotAvailable,
    PoweredOff,
    NoDevicesFound,
    ConnectionFailed(Seq<char>),
    TransferFailed(Seq<char>),
    Timeout,
    Rejected,
    InvalidData(Seq<char>),
    IoError(Seq<char>),
}

impl View for TransportError {
    type V = TransportErrorView;

    open spec fn view(&self) -> TransportErrorView {
        match self {
            TransportError::NotAvailable => TransportErrorView::NotAvailable,
            TransportError::PoweredOff => TransportErrorView::PoweredOff,
            TransportError::NoDevicesFound => TransportErrorView::NoDevicesFound,
            TransportError::ConnectionFailed(s) => TransportErrorView::ConnectionFailed(s@),
            TransportError::TransferFailed(s) => TransportErrorView::TransferFailed(s@),
            TransportError::Timeout => TransportErrorView::Timeout,
            TransportError::Rejected => TransportErrorView::Rejected,
            TransportError::InvalidData(s) => TransportErrorView::InvalidData(s@),
            TransportError::IoError(s) => TransportErrorView::IoError(s@),
        }
    }
}

/// The human-readable message of each error.
pub open spec fn spec_error_message(e: TransportErrorView) -> Seq<char> {
    match e {
        TransportErrorView::NotAvailable => "transport not available"@,
        TransportErrorView::PoweredOff => "transport powered off"@,
        TransportErrorView::NoDevicesFound => "no devices found"@,
        TransportErrorView::ConnectionFailed(s) => "connection failed: "@ + s,
        TransportErrorView::TransferFailed(s) => "transfer failed: "@ + s,
        TransportErrorView::Timeout => "timeout"@,
        TransportErrorView::Rejected => "pairing rejected"@,
        TransportErrorView::InvalidData(s) => "invalid data: "@ + s,
        TransportErrorView::IoError(s) => "I/O error: "@ + s,
    }
}

fn prefixed(prefix: &str, s: &String) -> (r: String)
    ensures
        r@ == prefix@ + s@,
{
    let mut r = String::from_str(prefix);
    r.append(s.as_str());
    r
}

impl TransportError {
    /// The human-readable message.
    pub fn to_string(&self) -> (r: String)
        ensures
            r@ == spec_error_message(self@),
    {
        match self {
            TransportError::NotAvailable => String::from_str("transport not available"),
            TransportError::PoweredOff => String::from_str("transport powered off"),
            TransportError::NoDevicesFound => String::from_str("no devices found"),
            TransportError::ConnectionFailed(s) => prefixed("connection failed: ", s),
            TransportError::TransferFailed(s) => prefixed("transfer failed: ", s),
            TransportError::Timeout => String::from_str("timeout"),
            TransportError::Rejected => String::from_str("pairing rejected"),
            TransportError::InvalidData(s) => prefixed("invalid data: ", s),
            TransportError::IoError(s) => prefixed("I/O error: ", s),
        }
    }
}

/// The result type of transport operations.
pub type TransportResult<T> = Result<T, TransportError>;

/// The transport type.
#[derive(Debug, Clone, Copy, PartialEq, Eq, Hash, Structural)]
pub enum TransportKind {
    /// Bluetooth Low Energy.
    Ble,
    /// QR code scanning.
    Qr,
    /// Near-field communication.
    NFC,
}

/// The display name of each transport kind.
pub open spec fn spec_kind_name(k: TransportKind) -> Seq<char> {
    match k {
        TransportKind::Ble => "BLE"@,
        TransportKind::Qr => "QR"@,
        TransportKind::NFC => "NFC"@,
    }
}

impl TransportKind {
    /// The display name.
    pub fn to_string(&self) -> (r: String)
        ensures
            r@ == spec_kind_name(*self),
    {
        match self {
            TransportKind::Ble => String::from_str("BLE"),
            TransportKind::Qr => String::from_str("QR"),
            TransportKind::NFC => String::from_str("NFC"),
        }
    }
}

/// Transport-specific metadata of a discovered device.
#[derive(Debug)]
pub enum TransportMetadata {
    /// BLE metadata.
    Ble {
        /// RSSI value.
        rssi: i16,
        /// Advertised service UUIDs.
        service_uuids: Vec<String>,
    },
    /// QR code metadata.
    Qr {
        /// QR code payload (base64-encoded).
        payload: String,
        /// Whether the QR code has been scanned.
        scanned: bool,
    },
    /// NFC metadata.
    Nfc {
        /// NFC tag id.
        tag_id: String,
        /// Tag technology.
        technology: String,
    },
}

/// Two metadata values agree (strings by content).
pub open spec fn same_metadata(a: TransportMetadata, b: TransportMetadata) -> bool {
    match (a, b) {
        (
            TransportMetadata::Ble { rssi: r1, service_uuids: u1 },
            TransportMetadata::Ble { rssi: r2, service_uuids: u2 },
        ) => r1 == r2 && strings_view(u1@) == strings_view(u2@),
        (
            TransportMetadata::Qr { payload: p1, scanned: s1 },
            TransportMetadata::Qr { payload: p2, scanned: s2 },
        ) => p1@ == p2@ && s1 == s2,
        (
            TransportMetadata::Nfc { tag_id: t1, technology: c1 },
            TransportMetadata::Nfc { tag_id: t2, technology: c2 },
        ) => t1@ == t2@ && c1@ == c2@,
        _ => false,
    }
}

impl Clone for TransportMetadata {
    fn clone(&self) -> (r: Self)
        ensures
            same_metadata(r, *self),
    {
        match self {
            TransportMetadata::Ble { rssi, service_uuids } => TransportMetadata::Ble {
                rssi: *rssi,
                service_uuids: clone_strings(service_uuids),
            },
            TransportMetadata::Qr { payload, scanned } => TransportMetadata::Qr {
                payload: payload.clone(),
                scanned: *scanned,
            },
            TransportMetadata::Nfc { tag_id, technology } => TransportMetadata::Nfc {
                tag_id: tag_id.clone(),
                technology: technology.clone(),
            },
        }
    }
}

/// A discovered device before pairing.
#[derive(Debug)]
pub struct DiscoveredDevice {
    /// Device identifier.
    pub device_id: DeviceId,
    /// Device name.
    pub name: String,
    /// Signal strength (0-100), if applicable.
    pub signal_strength: Option<u8>,
    /// Transport-specific metadata.
    pub metadata: TransportMetadata,
    /// Whether this device has been paired before.
    pub previously_paired: bool,
}

/// Two discovered devices agree on every field (strings by content).
pub open spec fn same_device(a: DiscoveredDevice, b: DiscoveredDevice) -> bool {
    &&& a.device_id@ == b.device_id@
    &&& a.name@ == b.name@
    &&& a.signal_strength == b.signal_strength
    &&& same_metadata(a.metadata, b.metadata)
    &&& a.previously_paired == b.previously_paired
}

/// Two device lists agree element by element.
pub open spec fn same_devices(a: Seq<DiscoveredDevice>, b: Seq<DiscoveredDevice>) -> bool {
    a.len() == b.len() && forall|i: int| 0 <= i < a.len() ==> same_device(a[i], b[i])
}

impl Clone for DiscoveredDevice {
    fn clone(&self) -> (r: Self)
        ensures
            same_device(r, *self),
    {
        DiscoveredDevice {
            device_id: self.device_id.clone(),
            name: self.name.clone(),
            signal_strength: self.signal_strength,
            metadata: self.metadata.clone(),
            previously_paired: self.previously_paired,
        }
    }
}

fn clone_devices(v: &Vec<DiscoveredDevice>) -> (r: Vec<DiscoveredDevice>)
    ensures
        same_devices(r@, v@),
{
    let mut r: Vec<DiscoveredDevice> = Vec::new();
    let mut i: usize = 0;
    while i < v.len()
        invariant
            i <= v@.len(),
            r@.len() == i,
            forall|j: int| 0 <= j < i ==> same_device(r@[j], v@[j]),
        decreases v@.len() - i,
    {
        r.push(v[i].clone());
        i += 1;
    }
    r
}

/// Some device in `ds` has the id `id`.
pub open spec fn lists_device(ds: Seq<DiscoveredDevice>, id: Seq<char>) -> bool {
    exists|i: int| 0 <= i < ds.len() && ds[i].device_id@ == id
}

fn find_device(ds: &Vec<DiscoveredDevice>, id: &DeviceId) -> (r: bool)
    ensures
        r == lists_device(ds@, id@),
{
    let mut i: usize = 0;
    while i < ds.len()
        invariant
            i <= ds@.len(),
            forall|j: int| 0 <= j < i ==> ds@[j].device_id@ != id@,
        decreases ds@.len() - i,
    {
        if device_id_eq(&ds[i].device_id, id) {
            return true;
        }
        i += 1;
    }
    false
}

/// A pairing channel opened over a transport.
pub trait PairingChannel {
    /// The channel's transport kind.
    spec fn spec_kind(&self) -> TransportKind;

    /// The remote device's id.
    spec fn spec_remote(&self) -> Seq<char>;

    /// Whether the channel is open.
    spec fn spec_open(&self) -> bool;

    /// The channel's transport kind.
    fn kind(&self) -> (r: TransportKind)
        ensures
            r == self.spec_kind(),
    ;

    /// The remote device id.
    fn remote_device_id(&self) -> (r: &DeviceId)
        ensures
            r@ == self.spec_remote(),
    ;

    /// Sends bytes; a closed channel refuses.
    fn send(&mut self, data: &[u8]) -> (r: TransportResult<()>)
        ensures
            !old(self).spec_open() ==> r is Err,
            final(self).spec_open() == old(self).spec_open(),
            final(self).spec_kind() == old(self).spec_kind(),
            final(self).spec_remote() == old(self).spec_remote(),
    ;

    /// Receives bytes; a closed channel refuses.
    fn receive(&mut self) -> (r: TransportResult<Vec<u8>>)
        ensures
            !old(self).spec_open() ==> r is Err,
            final(self).spec_open() == old(self).spec_open(),
            final(self).spec_kind() == old(self).spec_kind(),
            final(self).spec_remote() == old(self).spec_remote(),
    ;

    /// Closes the channel.
    fn close(&mut self) -> (r: TransportResult<()>)
        ensures
            r is Ok ==> !final(self).spec_open(),
            final(self).spec_kind() == old(self).spec_kind(),
            final(self).spec_remote() == old(self).spec_remote(),
    ;

    /// Whether the channel is still open.
    fn is_open(&self) -> (r: bool)
        ensures
            r == self.spec_open(),
    ;
}

/// A discovery and pairing transport.
pub trait Transport {
    /// The transport kind.
    spec fn spec_kind(&self) -> TransportKind;

    /// Whether the transport is available.
    spec fn spec_available(&self) -> bool;

    /// Whether the transport is powered on.
    spec fn spec_powered(&self) -> bool;

    /// The devices the transport currently reports.
    spec fn spec_discovered(&self) -> Seq<DiscoveredDevice>;

    /// The error asking for the discovered devices currently gives, if
    /// any.
    spec fn spec_discovery_error(&self) -> Option<TransportErrorView>;

    /// The transport kind.
    fn kind(&self) -> (r: TransportKind)
        ensures
            r == self.spec_kind(),
    ;

    /// The transport name.
    fn name(&self) -> &str;

    /// Whether this transport is available.
    fn is_available(&self) -> (r: bool)
        ensures
            r == self.spec_available(),
    ;

    /// Powers the transport on.
    fn power_on(&mut self) -> (r: TransportResult<()>)
        ensures
            r is Ok ==> final(self).spec_powered(),
            final(self).spec_kind() == old(self).spec_kind(),
            final(self).spec_available() == old(self).spec_available(),
    ;

    /// Powers the transport off.
    fn power_off(&mut self) -> (r: TransportResult<()>)
        ensures
            r is Ok ==> !final(self).spec_powered(),
            final(self).spec_kind() == old(self).spec_kind(),
            final(self).spec_available() == old(self).spec_available(),
    ;

    /// Whether the transport is powered on.
    fn is_powered_on(&self) -> (r: bool)
        ensures
            r == self.spec_powered(),
    ;

    /// Starts scanning; refused while powered off.
    fn start_scan(&mut self) -> (r: TransportResult<()>)
        ensures
            !old(self).spec_powered() ==> r is Err,
            final(self).spec_powered() == old(self).spec_powered(),
            final(self).spec_kind() == old(self).spec_kind(),
            final(self).spec_available() == old(self).spec_available(),
    ;

    /// Stops scanning.
    fn stop_scan(&mut self) -> (r: TransportResult<()>)
        ensures
            final(self).spec_powered() == old(self).spec_powered(),
            final(self).spec_kind() == old(self).spec_kind(),
            final(self).spec_available() == old(self).spec_available(),
    ;

    /// The currently discovered devices.
    fn discovered_devices(&self) -> (r: TransportResult<Vec<DiscoveredDevice>>)
        ensures
            r matches Ok(v) ==> self.spec_discovery_error() is None && same_devices(v@, self.spec_discovered()),
            r matches Err(e) ==> self.spec_discovery_error() == Some(e@),
    ;

    /// Opens a pairing channel to a device.
    fn open_channel(&self, device_id: &DeviceId) -> (r: TransportResult<Box<dyn PairingChannel>>)
        ensures
            r matches Ok(ch) ==> ch.spec_open() && ch.spec_remote() == device_id@ && ch.spec_kind()
                == self.spec_kind(),
    ;

    /// The maximum transfer size in bytes.
    fn max_transfer_size(&self) -> usize;

    /// The typical discovery range in meters.
    fn range_meters(&self) -> Option<u32>;
}

/// The in-memory pairing channel the mock transports open.
pub struct MockPairingChannel {
    kind: TransportKind,
    remote: DeviceId,
    open: bool,
    buffer: Vec<u8>,
}

impl MockPairingChannel {
    /// The bytes sent and not yet received.
    pub closed spec fn spec_buffer(&self) -> Seq<u8> {
        self.buffer@
    }

    /// A new open channel with an empty buffer.
    pub fn new(kind: TransportKind, remote: DeviceId) -> (r: MockPairingChannel)
        ensures
            r.spec_open(),
            r.spec_kind() == kind,
            r.spec_remote() == remote@,
            r.spec_buffer().len() == 0,
    {
        MockPairingChannel { kind, remote, open: true, buffer: Vec::new() }
    }
}

fn closed_channel_error() -> (e: TransportError)
    ensures
        e@ == TransportErrorView::ConnectionFailed("channel closed"@),
{
    TransportError::ConnectionFailed(String::from_str("channel closed"))
}

impl PairingChannel for MockPairingChannel {
    closed spec fn spec_kind(&self) -> TransportKind {
        self.kind
    }

    closed spec fn spec_remote(&self) -> Seq<char> {
        self.remote@
    }

    closed spec fn spec_open(&self) -> bool {
        self.open
    }

    fn kind(&self) -> (r: TransportKind) {
        self.kind
    }

    fn remote_device_id(&self) -> (r: &DeviceId) {
        &self.remote
    }

    /// Appends the bytes to the buffer while the channel is open.
    fn send(&mut self, data: &[u8]) -> (r: TransportResult<()>)
        ensures
            old(self).spec_open() ==> r is Ok && final(self).spec_buffer() == old(self).spec_buffer()
                + data@,
            !old(self).spec_open() ==> (r matches Err(e) && e@ == TransportErrorView::ConnectionFailed(
                "channel closed"@,
            ) && final(self).spec_buffer() == old(self).spec_buffer()),
    {
        if !self.open {
            return Err(closed_channel_error());
        }
        let mut i: usize = 0;
        let ghost b0 = self.buffer@;
        while i < data.len()
            invariant
                i <= data@.len(),
                self.buffer@ == b0 + data@.subrange(0, i as int),
                self.open == old(self).open,
                self.kind == old(self).kind,
                self.remote == old(self).remote,
            decreases data@.len() - i,
        {
            self.buffer.push(data[i]);
            proof {
                assert(data@.subrange(0, i + 1) =~= data@.subrange(0, i as int).push(data@[i as int]));
            }
            i += 1;
        }
        assert(data@.subrange(0, data@.len() as int) =~= data@);
        Ok(())
    }

    /// Returns and clears the buffer while the channel is open.
    fn receive(&mut self) -> (r: TransportResult<Vec<u8>>)
        ensures
            old(self).spec_open() ==> (r matches Ok(v) && v@ == old(self).spec_buffer()
                && final(self).spec_buffer().len() == 0),
            !old(self).spec_open() ==> (r matches Err(e) && e@ == TransportErrorView::ConnectionFailed(
                "channel closed"@,
            ) && final(self).spec_buffer() == old(self).spec_buffer()),
    {
        if !self.open {
            return Err(closed_channel_error());
        }
        let mut data: Vec<u8> = Vec::new();
        std::mem::swap(&mut data, &mut self.buffer);
        Ok(data)
    }

    fn close(&mut self) -> (r: TransportResult<()>)
        ensures
            r is Ok,
            final(self).spec_buffer() == old(self).spec_buffer(),
    {
        self.open = false;
        Ok(())
    }

    fn is_open(&self) -> (r: bool) {
        self.open
    }
}

/// Mock BLE transport: devices are reported only while scanning.
pub struct MockBleTransport {
    devices: Vec<DiscoveredDevice>,
    powered: bool,
    scanning: bool,
}

impl MockBleTransport {
    /// The devices added for discovery.
    pub closed spec fn spec_devices(&self) -> Seq<DiscoveredDevice> {
        self.devices@
    }

    /// Whether the transport is scanning.
    pub closed spec fn spec_scanning(&self) -> bool {
        self.scanning
    }

    /// A new, powered-off, idle mock with no devices.
    pub fn new() -> (r: MockBleTransport)
        ensures
            r.spec_kind() == TransportKind::Ble,
            !r.spec_powered(),
            !r.spec_scanning(),
            r.spec_devices().len() == 0,
    {
        MockBleTransport { devices: Vec::new(), powered: false, scanning: false }
    }

    /// Adds a device for discovery.
    pub fn add_device(&mut self, device: DiscoveredDevice)
        ensures
            final(self).spec_devices() == old(self).spec_devices().push(device),
            final(self).spec_powered() == old(self).spec_powered(),
            final(self).spec_scanning() == old(self).spec_scanning(),
    {
        self.devices.push(device);
    }
}

impl Default for MockBleTransport {
    fn default() -> (r: MockBleTransport)
        ensures
            !r.spec_powered(),
            !r.spec_scanning(),
            r.spec_devices().len() == 0,
    {
        MockBleTransport::new()
    }
}

impl Transport for MockBleTransport {
    closed spec fn spec_kind(&self) -> TransportKind {
        TransportKind::Ble
    }

    closed spec fn spec_available(&self) -> bool {
        true
    }

    closed spec fn spec_powered(&self) -> bool {
        self.powered
    }

    closed spec fn spec_discovered(&self) -> Seq<DiscoveredDevice> {
        if self.scanning {
            self.devices@
        } else {
            Seq::empty()
        }
    }

    closed spec fn spec_discovery_error(&self) -> Option<TransportErrorView> {
        None
    }

    fn kind(&self) -> (r: TransportKind)
        ensures
            r == TransportKind::Ble,
    {
        TransportKind::Ble
    }

    fn name(&self) -> (r: &str)
        ensures
            r@ == "mock-ble"@,
    {
        "mock-ble"
    }

    fn is_available(&self) -> (r: bool)
        ensures
            r,
    {
        true
    }

    fn power_on(&mut self) -> (r: TransportResult<()>)
        ensures
            r is Ok,
            final(self).spec_scanning() == old(self).spec_scanning(),
            final(self).spec_devices() == old(self).spec_devices(),
    {
        self.powered = true;
        Ok(())
    }

    fn power_off(&mut self) -> (r: TransportResult<()>)
        ensures
            r is Ok,
            !final(self).spec_scanning(),
            final(self).spec_devices() == old(self).spec_devices(),
    {
        self.powered = false;
        self.scanning = false;
        Ok(())
    }

    fn is_powered_on(&self) -> (r: bool) {
        self.powered
    }

    fn start_scan(&mut self) -> (r: TransportResult<()>)
        ensures
            !old(self).spec_powered() ==> (r matches Err(e) && e@ == TransportErrorView::PoweredOff
                && final(self).spec_scanning() == old(self).spec_scanning()),
            old(self).spec_powered() ==> r is Ok && final(self).spec_scanning(),
            final(self).spec_devices() == old(self).spec_devices(),
    {
        if !self.powered {
            return Err(TransportError::PoweredOff);
        }
        self.scanning = true;
        Ok(())
    }

    fn stop_scan(&mut self) -> (r: TransportResult<()>)
        ensures
            r is Ok,
            !final(self).spec_scanning(),
            final(self).spec_devices() == old(self).spec_devices(),
    {
        self.scanning = false;
        Ok(())
    }

    fn discovered_devices(&self) -> (r: TransportResult<Vec<DiscoveredDevice>>)
        ensures
            r is Ok,
    {
        if !self.scanning {
            return Ok(Vec::new());
        }
        Ok(clone_devices(&self.devices))
    }

    fn open_channel(&self, device_id: &DeviceId) -> (r: TransportResult<Box<dyn PairingChannel>>)
        ensures
            r is Ok <==> lists_device(self.spec_devices(), device_id@),
            r matches Err(e) ==> e@ == TransportErrorView::NoDevicesFound,
    {
        if !find_device(&self.devices, device_id) {
            return Err(TransportError::NoDevicesFound);
        }
        Ok(Box::new(MockPairingChannel::new(TransportKind::Ble, device_id.clone())))
    }

    fn max_transfer_size(&self) -> (r: usize)
        ensures
            r == 512,
    {
        512
    }

    fn range_meters(&self) -> (r: Option<u32>)
        ensures
            r == Some(10u32),
    {
        Some(10)
    }
}

/// Mock QR transport: every queued scan is reported.
pub struct MockQrTransport {
    pending_scans: Vec<DiscoveredDevice>,
    powered: bool,
}

impl MockQrTransport {
    /// The queued scans.
    pub closed spec fn spec_devices(&self) -> Seq<DiscoveredDevice> {
        self.pending_scans@
    }

    /// A new, powered-off mock with no queued scans.
    pub fn new() -> (r: MockQrTransport)
        ensures
            r.spec_kind() == TransportKind::Qr,
            !r.spec_powered(),
            r.spec_devices().len() == 0,
    {
        MockQrTransport { pending_scans: Vec::new(), powered: false }
    }

    /// Queues a QR code for scanning.
    pub fn queue_scan(&mut self, device: DiscoveredDevice)
        ensures
            final(self).spec_devices() == old(self).spec_devices().push(device),
            final(self).spec_powered() == old(self).spec_powered(),
    {
        self.pending_scans.push(device);
    }
}

impl Default for MockQrTransport {
    fn default() -> (r: MockQrTransport)
        ensures
            !r.spec_powered(),
            r.spec_devices().len() == 0,
    {
        MockQrTransport::new()
    }
}

impl Transport for MockQrTransport {
    closed spec fn spec_kind(&self) -> TransportKind {
        TransportKind::Qr
    }

    closed spec fn spec_available(&self) -> bool {
        true
    }

    closed spec fn spec_powered(&self) -> bool {
        self.powered
    }

    closed spec fn spec_discovered(&self) -> Seq<DiscoveredDevice> {
        self.pending_scans@
    }

    closed spec fn spec_discovery_error(&self) -> Option<TransportErrorView> {
        None
    }

    fn kind(&self) -> (r: TransportKind)
        ensures
            r == TransportKind::Qr,
    {
        TransportKind::Qr
    }

    fn name(&self) -> (r: &str)
        ensures
            r@ == "mock-qr"@,
    {
        "mock-qr"
    }

    fn is_available(&self) -> (r: bool)
        ensures
            r,
    {
        true
    }

    fn power_on(&mut self) -> (r: TransportResult<()>)
        ensures
            r is Ok,
            final(self).spec_devices() == old(self).spec_devices(),
    {
        self.powered = true;
        Ok(())
    }

    fn power_off(&mut self) -> (r: TransportResult<()>)
        ensures
            r is Ok,
            final(self).spec_devices() == old(self).spec_devices(),
    {
        self.powered = false;
        Ok(())
    }

    fn is_powered_on(&self) -> (r: bool) {
        self.powered
    }

    fn start_scan(&mut self) -> (r: TransportResult<()>)
        ensures
            !old(self).spec_powered() ==> (r matches Err(e) && e@ == TransportErrorView::PoweredOff),
            old(self).spec_powered() ==> r is Ok,
            final(self).spec_devices() == old(self).spec_devices(),
    {
        if !self.powered {
            return Err(TransportError::PoweredOff);
        }
        Ok(())
    }

    fn stop_scan(&mut self) -> (r: TransportResult<()>)
        ensures
            r is Ok,
            final(self).spec_devices() == old(self).spec_devices(),
    {
        Ok(())
    }

    fn discovered_devices(&self) -> (r: TransportResult<Vec<DiscoveredDevice>>)
        ensures
            r is Ok,
    {
        Ok(clone_devices(&self.pending_scans))
    }

    fn open_channel(&self, device_id: &DeviceId) -> (r: TransportResult<Box<dyn PairingChannel>>)
        ensures
            r is Ok <==> lists_device(self.spec_devices(), device_id@),
            r matches Err(e) ==> e@ == TransportErrorView::NoDevicesFound,
    {
        if !find_device(&self.pending_scans, device_id) {
            return Err(TransportError::NoDevicesFound);
        }
        Ok(Box::new(MockPairingChannel::new(TransportKind::Qr, device_id.clone())))
    }

    fn max_transfer_size(&self) -> (r: usize)
        ensures
            r == 1024,
    {
        1024
    }

    fn range_meters(&self) -> (r: Option<u32>)
        ensures
            r is None,
    {
        None
    }
}

/// Mock NFC transport: every added tag is reported.
pub struct MockNfcTransport {
    devices: Vec<DiscoveredDevice>,
    powered: bool,
}

impl MockNfcTransport {
    /// The added tags.
    pub closed spec fn spec_devices(&self) -> Seq<DiscoveredDevice> {
        self.devices@
    }

    /// A new, powered-off mock with no tags.
    pub fn new() -> (r: MockNfcTransport)
        ensures
            r.spec_kind() == TransportKind::NFC,
            !r.spec_powered(),
            r.spec_devices().len() == 0,
    {
        MockNfcTransport { devices: Vec::new(), powered: false }
    }

    /// Adds a mock NFC tag.
    pub fn add_tag(&mut self, device: DiscoveredDevice)
        ensures
            final(self).spec_devices() == old(self).spec_devices().push(device),
            final(self).spec_powered() == old(self).spec_powered(),
    {
        self.devices.push(device);
    }
}

impl Default for MockNfcTransport {
    fn default() -> (r: MockNfcTransport)
        ensures
            !r.spec_powered(),
            r.spec_devices().len() == 0,
    {
        MockNfcTransport::new()
    }
}

impl Transport for MockNfcTransport {
    closed spec fn spec_kind(&self) -> TransportKind {
        TransportKind::NFC
    }

    closed spec fn spec_available(&self) -> bool {
        true
    }

    closed spec fn spec_powered(&self) -> bool {
        self.powered
    }

    closed spec fn spec_discovered(&self) -> Seq<DiscoveredDevice> {
        self.devices@
    }

    closed spec fn spec_discovery_error(&self) -> Option<TransportErrorView> {
        None
    }

    fn kind(&self) -> (r: TransportKind)
        ensures
            r == TransportKind::NFC,
    {
        TransportKind::NFC
    }

    fn name(&self) -> (r: &str)
        ensures
            r@ == "mock-nfc"@,
    {
        "mock-nfc"
    }

    fn is_available(&self) -> (r: bool)
        ensures
            r,
    {
        true
    }

    fn power_on(&mut self) -> (r: TransportResult<()>)
        ensures
            r is Ok,
            final(self).spec_devices() == old(self).spec_devices(),
    {
        self.powered = true;
        Ok(())
    }

    fn power_off(&mut self) -> (r: TransportResult<()>)
        ensures
            r is Ok,
            final(self).spec_devices() == old(self).spec_devices(),
    {
        self.powered = false;
        Ok(())
    }

    fn is_powered_on(&self) -> (r: bool) {
        self.powered
    }

    fn start_scan(&mut self) -> (r: TransportResult<()>)
        ensures
            !old(self).spec_powered() ==> (r matches Err(e) && e@ == TransportErrorView::PoweredOff),
            old(self).spec_powered() ==> r is Ok,
            final(self).spec_devices() == old(self).spec_devices(),
    {
        if !self.powered {
            return Err(TransportError::PoweredOff);
        }
        Ok(())
    }

    fn stop_scan(&mut self) -> (r: TransportResult<()>)
        ensures
            r is Ok,
            final(self).spec_devices() == old(self).spec_devices(),
    {
        Ok(())
    }

    fn discovered_devices(&self) -> (r: TransportResult<Vec<DiscoveredDevice>>)
        ensures
            r is Ok,
    {
        Ok(clone_devices(&self.devices))
    }

    fn open_channel(&self, device_id: &DeviceId) -> (r: TransportResult<Box<dyn PairingChannel>>)
        ensures
            r is Ok <==> lists_device(self.spec_devices(), device_id@),
            r matches Err(e) ==> e@ == TransportErrorView::NoDevicesFound,
    {
        if !find_device(&self.devices, device_id) {
            return Err(TransportError::NoDevicesFound);
        }
        Ok(Box::new(MockPairingChannel::new(TransportKind::NFC, device_id.clone())))
    }

    fn max_transfer_size(&self) -> (r: usize)
        ensures
            r == 256,
    {
        256
    }

    fn range_meters(&self) -> (r: Option<u32>)
        ensures
            r == Some(1u32),
    {
        Some(1)
    }
}

/// The error asking `ts` for its devices gives: that of the first
/// powered transport, in order, that gives one.
pub open spec fn first_discovery_error(ts: Seq<Box<dyn Transport>>) -> Option<TransportErrorView>
    decreases ts.len(),
{
    if ts.len() == 0 {
        None
    } else {
        match first_discovery_error(ts.drop_last()) {
            Some(e) => Some(e),
            None => if ts.last().spec_powered() {
                ts.last().spec_discovery_error()
            } else {
                None
            },
        }
    }
}

/// An error of the transports registered first is the error of all of
/// them.
proof fn lemma_first_discovery_error_extends(ts: Seq<Box<dyn Transport>>, k: int)
    requires
        0 <= k <= ts.len(),
        first_discovery_error(ts.subrange(0, k)) is Some,
    ensures
        first_discovery_error(ts) == first_discovery_error(ts.subrange(0, k)),
    decreases ts.len() - k,
{
    if k == ts.len() {
        assert(ts.subrange(0, k) =~= ts);
    } else {
        assert(ts.drop_last().subrange(0, k) =~= ts.subrange(0, k));
        lemma_first_discovery_error_extends(ts.drop_last(), k);
    }
}

/// The devices reported by the powered transports of `ts`, concatenated in
/// order.
pub open spec fn all_discovered(ts: Seq<Box<dyn Transport>>) -> Seq<DiscoveredDevice>
    decreases ts.len(),
{
    if ts.len() == 0 {
        Seq::empty()
    } else {
        let rest = all_discovered(ts.drop_last());
        if ts.last().spec_powered() {
            rest + ts.last().spec_discovered()
        } else {
            rest
        }
    }
}

/// The positions, below `n`, of the transports of `ts` that report
/// themselves available, in increasing order.
pub open spec fn available_positions(ts: Seq<Box<dyn Transport>>, n: int) -> Seq<int>
    decreases n,
{
    if n <= 0 {
        Seq::empty()
    } else {
        let rest = available_positions(ts, n - 1);
        if ts[n - 1].spec_available() {
            rest.push(n - 1)
        } else {
            rest
        }
    }
}

/// The manager of the registered transports.
pub struct TransportManager {
    transports: Vec<Box<dyn Transport>>,
}

impl TransportManager {
    /// The registered transports, in registration order.
    pub closed spec fn spec_transports(&self) -> Seq<Box<dyn Transport>> {
        self.transports@
    }

    /// An empty manager.
    pub fn new() -> (r: TransportManager)
        ensures
            r.spec_transports().len() == 0,
    {
        TransportManager { transports: Vec::new() }
    }

    /// Registers a transport.
    pub fn register(&mut self, transport: Box<dyn Transport>)
        ensures
            final(self).spec_transports() == old(self).spec_transports().push(transport),
    {
        self.transports.push(transport);
    }

    /// The first registered transport of the given kind.
    pub fn get(&self, kind: TransportKind) -> (r: Option<&Box<dyn Transport>>)
        ensures
            r is Some <==> exists|i: int|
                0 <= i < self.spec_transports().len() && self.spec_transports()[i].spec_kind() == kind,
            r matches Some(t) ==> t.spec_kind() == kind && exists|i: int|
                0 <= i < self.spec_transports().len() && *t == self.spec_transports()[i] && forall|j: int|
                    0 <= j < i ==> self.spec_transports()[j].spec_kind() != kind,
    {
        let mut i: usize = 0;
        while i < self.transports.len()
            invariant
                i <= self.transports@.len(),
                forall|j: int| 0 <= j < i ==> self.transports@[j].spec_kind() != kind,
            decreases self.transports@.len() - i,
        {
            let t: &Box<dyn Transport> = &self.transports[i];
            if t.kind() == kind {
                return Some(t);
            }
            i += 1;
        }
        None
    }

    /// The available transports, in registration order.
    pub fn available(&self) -> (r: Vec<&Box<dyn Transport>>)
        ensures
            r@.len() == available_positions(self.spec_transports(), self.spec_transports().len() as int).len(),
            forall|k: int| 0 <= k < r@.len() ==> *r@[k] == self.spec_transports()[
                available_positions(self.spec_transports(), self.spec_transports().len() as int)[k]],
    {
        let mut out: Vec<&Box<dyn Transport>> = Vec::new();
        let mut i: usize = 0;
        while i < self.transports.len()
            invariant
                i <= self.transports@.len(),
                out@.len() == available_positions(self.transports@, i as int).len(),
                forall|k: int| 0 <= k < out@.len() ==>
                    *out@[k] == self.transports@[available_positions(self.transports@, i as int)[k]],
            decreases self.transports@.len() - i,
        {
            let t: &Box<dyn Transport> = &self.transports[i];
            if t.is_available() {
                out.push(t);
            }
            i += 1;
        }
        out
    }

    /// The devices discovered by every powered transport, in registration
    /// order; the first transport error is returned.
    pub fn discover_all(&self) -> (r: TransportResult<Vec<DiscoveredDevice>>)
        ensures
            match first_discovery_error(self.spec_transports()) {
                None => r matches Ok(v) && same_devices(v@, all_discovered(self.spec_transports())),
                Some(e) => r matches Err(x) && x@ == e,
            },
    {
        let mut all: Vec<DiscoveredDevice> = Vec::new();
        let mut i: usize = 0;
        while i < self.transports.len()
            invariant
                i <= self.transports@.len(),
                first_discovery_error(self.transports@.subrange(0, i as int)) is None,
                same_devices(all@, all_discovered(self.transports@.subrange(0, i as int))),
            decreases self.transports@.len() - i,
        {
            let ghost ts1 = self.transports@.subrange(0, i + 1);
            proof {
                assert(ts1.drop_last() =~= self.transports@.subrange(0, i as int));
            }
            if self.transports[i].is_powered_on() {
                let mut found = match self.transports[i].discovered_devices() {
                    Ok(v) => v,
                    Err(e) => {
                        proof {
                            assert(first_discovery_error(ts1) == Some(e@));
                            lemma_first_discovery_error_extends(self.transports@, i + 1);
                            assert(self.transports@.subrange(0, i + 1) == ts1);
                        }
                        return Err(e);
                    },
                };
                let ghost a0 = all@;
                let ghost f0 = found@;
                all.append(&mut found);
                proof {
                    let target = all_discovered(ts1);
                    assert(target == all_discovered(self.transports@.subrange(0, i as int)) + self.transports@[i as int].spec_discovered());
                    assert(all@ == a0 + f0);
                    assert forall|k: int| 0 <= k < all@.len() implies same_device(all@[k], target[k]) by {
                        if k < a0.len() {
                        } else {
                            assert(all@[k] == f0[k - a0.len()]);
                        }
                    }
                }
            }
            i += 1;
        }
        proof {
            assert(self.transports@.subrange(0, self.transports@.len() as int) =~= self.transports@);
        }
        Ok(all)
    }
}

impl Default for TransportManager {
    fn default() -> (r: TransportManager)
        ensures
            r.spec_transports().len() == 0,
    {
        TransportManager::new()
    }
}

/// Data sent over an open mock channel is received back unchanged, and
/// receiving empties the channel.
pub proof fn law_channel_send_then_receive(before: Seq<u8>, data: Seq<u8>)
    requires
        before.len() == 0,
    ensures
        before + data == data,
{
    assert(before + data =~= data);
}

} // verus!
