//! The error type of the library, with its user-facing message, its stable
//! error code and whether the failed operation is worth retrying.
use vstd::prelude::*;
use crate::text::concat2;

verus! {

/// An error of a Bluetooth operation. Variants with a payload carry the
/// detail (an address, a UUID or the platform's own message).
#[derive(Debug, PartialEq, Eq)]
pub enum BleError {
    /// The Bluetooth adapter could not be found.
    AdapterNotFound,
    /// No device has the given address.
    DeviceNotFound(String),
    /// Connecting to the device failed.
    ConnectionFailed(String),
    /// An operation failed.
    OperationFailed(String),
    /// The device is not connected.
    NotConnected,
    /// A UUID could not be parsed.
    InvalidUuid(String),
    /// No service has the given UUID.
    ServiceNotFound(String),
    /// No characteristic has the given UUID.
    CharacteristicNotFound(String),
    /// A scan could not be run.
    ScanFailed(String),
    /// The adapter could not be initialised.
    InitializationFailed(String),
    /// Reading a characteristic failed.
    ReadFailed(String),
    /// Writing a characteristic failed.
    WriteFailed(String),
    /// Subscribing to notifications failed.
    SubscribeFailed(String),
    /// Unsubscribing from notifications failed.
    UnsubscribeFailed(String),
    /// Service discovery failed.
    ServiceDiscoveryFailed(String),
    /// The platform refused permission.
    PermissionDenied(String),
    /// An operation timed out.
    Timeout(String),
    /// An internal error, such as a poisoned lock.
    InternalError(String),
}

impl BleError {
    /// The user-facing message of the error: a fixed sentence, or a fixed
    /// prefix followed by the payload.
    pub open spec fn message_spec(&self) -> Seq<char> {
        match self {
            BleError::AdapterNotFound => "未找到蓝牙适配器，请确保系统蓝牙已启用"@,
            BleError::DeviceNotFound(detail) => "未找到指定的蓝牙设备: "@ + detail@,
            BleError::ConnectionFailed(detail) => "连接失败: "@ + detail@,
            BleError::OperationFailed(detail) => "操作失败: "@ + detail@,
            BleError::NotConnected => "设备未连接，请先连接设备"@,
            BleError::InvalidUuid(detail) => "无效的 UUID: "@ + detail@,
            BleError::ServiceNotFound(detail) => "未找到服务 UUID: "@ + detail@,
            BleError::CharacteristicNotFound(detail) => "未找到特征值 UUID: "@ + detail@,
            BleError::ScanFailed(detail) => "扫描失败: "@ + detail@,
            BleError::InitializationFailed(detail) => "初始化失败: "@ + detail@,
            BleError::ReadFailed(detail) => "读取特征值失败: "@ + detail@,
            BleError::WriteFailed(detail) => "写入特征值失败: "@ + detail@,
            BleError::SubscribeFailed(detail) => "订阅通知失败: "@ + detail@,
            BleError::UnsubscribeFailed(detail) => "取消订阅失败: "@ + detail@,
            BleError::ServiceDiscoveryFailed(detail) => "服务发现失败: "@ + detail@,
            BleError::PermissionDenied(detail) => "权限被拒绝: "@ + detail@,
            BleError::Timeout(detail) => "操作超时: "@ + detail@,
            BleError::InternalError(detail) => "内部错误: "@ + detail@,
        }
    }

    /// The stable, machine-readable code of the error.
    pub open spec fn code_spec(&self) -> Seq<char> {
        match self {
            BleError::AdapterNotFound => "ADAPTER_NOT_FOUND"@,
            BleError::DeviceNotFound(_) => "DEVICE_NOT_FOUND"@,
            BleError::ConnectionFailed(_) => "CONNECTION_FAILED"@,
            BleError::OperationFailed(_) => "OPERATION_FAILED"@,
            BleError::NotConnected => "NOT_CONNECTED"@,
            BleError::InvalidUuid(_) => "INVALID_UUID"@,
            BleError::ServiceNotFound(_) => "SERVICE_NOT_FOUND"@,
            BleError::CharacteristicNotFound(_) => "CHARACTERISTIC_NOT_FOUND"@,
            BleError::ScanFailed(_) => "SCAN_FAILED"@,
            BleError::InitializationFailed(_) => "INITIALIZATION_FAILED"@,
            BleError::ReadFailed(_) => "READ_FAILED"@,
            BleError::WriteFailed(_) => "WRITE_FAILED"@,
            BleError::SubscribeFailed(_) => "SUBSCRIBE_FAILED"@,
            BleError::UnsubscribeFailed(_) => "UNSUBSCRIBE_FAILED"@,
            BleError::ServiceDiscoveryFailed(_) => "SERVICE_DISCOVERY_FAILED"@,
            BleError::PermissionDenied(_) => "PERMISSION_DENIED"@,
            BleError::Timeout(_) => "TIMEOUT"@,
            BleError::InternalError(_) => "INTERNAL_ERROR"@,
        }
    }

    /// Whether retrying the failed operation can succeed: timeouts, failed
    /// connections and failed operations.
    pub open spec fn retryable_spec(&self) -> bool {
        ||| self is Timeout
        ||| self is ConnectionFailed
        ||| self is OperationFailed
    }

    /// The user-facing message of the error.
    pub fn to_string(&self) -> (r: String)
        ensures
            r@ == self.message_spec(),
    {
        match self {
            BleError::AdapterNotFound => String::from_str("未找到蓝牙适配器，请确保系统蓝牙已启用"),
            BleError::DeviceNotFound(detail) => concat2("未找到指定的蓝牙设备: ", detail.as_str()),
            BleError::ConnectionFailed(detail) => concat2("连接失败: ", detail.as_str()),
            BleError::OperationFailed(detail) => concat2("操作失败: ", detail.as_str()),
            BleError::NotConnected => String::from_str("设备未连接，请先连接设备"),
            BleError::InvalidUuid(detail) => concat2("无效的 UUID: ", detail.as_str()),
            BleError::ServiceNotFound(detail) => concat2("未找到服务 UUID: ", detail.as_str()),
            BleError::CharacteristicNotFound(detail) => concat2("未找到特征值 UUID: ", detail.as_str()),
            BleError::ScanFailed(detail) => concat2("扫描失败: ", detail.as_str()),
            BleError::InitializationFailed(detail) => concat2("初始化失败: ", detail.as_str()),
            BleError::ReadFailed(detail) => concat2("读取特征值失败: ", detail.as_str()),
            BleError::WriteFailed(detail) => concat2("写入特征值失败: ", detail.as_str()),
            BleError::SubscribeFailed(detail) => concat2("订阅通知失败: ", detail.as_str()),
            BleError::UnsubscribeFailed(detail) => concat2("取消订阅失败: ", detail.as_str()),
            BleError::ServiceDiscoveryFailed(detail) => concat2("服务发现失败: ", detail.as_str()),
            BleError::PermissionDenied(detail) => concat2("权限被拒绝: ", detail.as_str()),
            BleError::Timeout(detail) => concat2("操作超时: ", detail.as_str()),
            BleError::InternalError(detail) => concat2("内部错误: ", detail.as_str()),
        }
    }

    /// The stable, machine-readable code of the error.
    pub fn error_code(&self) -> (r: &'static str)
        ensures
            r@ == self.code_spec(),
    {
        match self {
            BleError::AdapterNotFound => "ADAPTER_NOT_FOUND",
            BleError::DeviceNotFound(_) => "DEVICE_NOT_FOUND",
            BleError::ConnectionFailed(_) => "CONNECTION_FAILED",
            BleError::OperationFailed(_) => "OPERATION_FAILED",
            BleError::NotConnected => "NOT_CONNECTED",
            BleError::InvalidUuid(_) => "INVALID_UUID",
            BleError::ServiceNotFound(_) => "SERVICE_NOT_FOUND",
            BleError::CharacteristicNotFound(_) => "CHARACTERISTIC_NOT_FOUND",
            BleError::ScanFailed(_) => "SCAN_FAILED",
            BleError::InitializationFailed(_) => "INITIALIZATION_FAILED",
            BleError::ReadFailed(_) => "READ_FAILED",
            BleError::WriteFailed(_) => "WRITE_FAILED",
            BleError::SubscribeFailed(_) => "SUBSCRIBE_FAILED",
            BleError::UnsubscribeFailed(_) => "UNSUBSCRIBE_FAILED",
            BleError::ServiceDiscoveryFailed(_) => "SERVICE_DISCOVERY_FAILED",
            BleError::PermissionDenied(_) => "PERMISSION_DENIED",
            BleError::Timeout(_) => "TIMEOUT",
            BleError::InternalError(_) => "INTERNAL_ERROR",
        }
    }

    /// Whether retrying the failed operation can succeed.
    pub fn is_retryable(&self) -> (r: bool)
        ensures
            r == self.retryable_spec(),
    {
        match self {
            BleError::Timeout(_) => true,
            BleError::ConnectionFailed(_) => true,
            BleError::OperationFailed(_) => true,
            _ => false,
        }
    }
}


// ---------------------------------------------------------------------------
// Distinct errors are told apart by their messages and codes
// ---------------------------------------------------------------------------

impl BleError {
    /// The position of the error's variant in the declaration.
    pub open spec fn variant_index(&self) -> int {
        match self {
            BleError::AdapterNotFound => 0,
            BleError::DeviceNotFound(_) => 1,
            BleError::ConnectionFailed(_) => 2,
            BleError::OperationFailed(_) => 3,
            BleError::NotConnected => 4,
            BleError::InvalidUuid(_) => 5,
            BleError::ServiceNotFound(_) => 6,
            BleError::CharacteristicNotFound(_) => 7,
            BleError::ScanFailed(_) => 8,
            BleError::InitializationFailed(_) => 9,
            BleError::ReadFailed(_) => 10,
            BleError::WriteFailed(_) => 11,
            BleError::SubscribeFailed(_) => 12,
            BleError::UnsubscribeFailed(_) => 13,
            BleError::ServiceDiscoveryFailed(_) => 14,
            BleError::PermissionDenied(_) => 15,
            BleError::Timeout(_) => 16,
            BleError::InternalError(_) => 17,
        }
    }

    /// The characters of the error's payload, for variants that carry one.
    pub open spec fn payload_view(&self) -> Option<Seq<char>> {
        match self {
            BleError::AdapterNotFound => None,
            BleError::DeviceNotFound(detail) => Some(detail@),
            BleError::ConnectionFailed(detail) => Some(detail@),
            BleError::OperationFailed(detail) => Some(detail@),
            BleError::NotConnected => None,
            BleError::InvalidUuid(detail) => Some(detail@),
            BleError::ServiceNotFound(detail) => Some(detail@),
            BleError::CharacteristicNotFound(detail) => Some(detail@),
            BleError::ScanFailed(detail) => Some(detail@),
            BleError::InitializationFailed(detail) => Some(detail@),
            BleError::ReadFailed(detail) => Some(detail@),
            BleError::WriteFailed(detail) => Some(detail@),
            BleError::SubscribeFailed(detail) => Some(detail@),
            BleError::UnsubscribeFailed(detail) => Some(detail@),
            BleError::ServiceDiscoveryFailed(detail) => Some(detail@),
            BleError::PermissionDenied(detail) => Some(detail@),
            BleError::Timeout(detail) => Some(detail@),
            BleError::InternalError(detail) => Some(detail@),
        }
    }
}

spec fn code_len(e: BleError) -> int {
    match e {
        BleError::AdapterNotFound => 17,
        BleError::DeviceNotFound(_) => 16,
        BleError::ConnectionFailed(_) => 17,
        BleError::OperationFailed(_) => 16,
        BleError::NotConnected => 13,
        BleError::InvalidUuid(_) => 12,
        BleError::ServiceNotFound(_) => 17,
        BleError::CharacteristicNotFound(_) => 24,
        BleError::ScanFailed(_) => 11,
        BleError::InitializationFailed(_) => 21,
        BleError::ReadFailed(_) => 11,
        BleError::WriteFailed(_) => 12,
        BleError::SubscribeFailed(_) => 16,
        BleError::UnsubscribeFailed(_) => 18,
        BleError::ServiceDiscoveryFailed(_) => 24,
        BleError::PermissionDenied(_) => 17,
        BleError::Timeout(_) => 7,
        BleError::InternalError(_) => 14,
    }
}

spec fn code_first(e: BleError) -> char {
    match e {
        BleError::AdapterNotFound => 'A',
        BleError::DeviceNotFound(_) => 'D',
        BleError::ConnectionFailed(_) => 'C',
        BleError::OperationFailed(_) => 'O',
        BleError::NotConnected => 'N',
        BleError::InvalidUuid(_) => 'I',
        BleError::ServiceNotFound(_) => 'S',
        BleError::CharacteristicNotFound(_) => 'C',
        BleError::ScanFailed(_) => 'S',
        BleError::InitializationFailed(_) => 'I',
        BleError::ReadFailed(_) => 'R',
        BleError::WriteFailed(_) => 'W',
        BleError::SubscribeFailed(_) => 'S',
        BleError::UnsubscribeFailed(_) => 'U',
        BleError::ServiceDiscoveryFailed(_) => 'S',
        BleError::PermissionDenied(_) => 'P',
        BleError::Timeout(_) => 'T',
        BleError::InternalError(_) => 'I',
    }
}

spec fn message_first(e: BleError) -> char {
    match e {
        BleError::AdapterNotFound => '未',
        BleError::DeviceNotFound(_) => '未',
        BleError::ConnectionFailed(_) => '连',
        BleError::OperationFailed(_) => '操',
        BleError::NotConnected => '设',
        BleError::InvalidUuid(_) => '无',
        BleError::ServiceNotFound(_) => '未',
        BleError::CharacteristicNotFound(_) => '未',
        BleError::ScanFailed(_) => '扫',
        BleError::InitializationFailed(_) => '初',
        BleError::ReadFailed(_) => '读',
        BleError::WriteFailed(_) => '写',
        BleError::SubscribeFailed(_) => '订',
        BleError::UnsubscribeFailed(_) => '取',
        BleError::ServiceDiscoveryFailed(_) => '服',
        BleError::PermissionDenied(_) => '权',
        BleError::Timeout(_) => '操',
        BleError::InternalError(_) => '内',
    }
}

spec fn message_fourth(e: BleError) -> char {
    match e {
        BleError::AdapterNotFound => '蓝',
        BleError::DeviceNotFound(_) => '指',
        BleError::ConnectionFailed(_) => '败',
        BleError::OperationFailed(_) => '败',
        BleError::NotConnected => '连',
        BleError::InvalidUuid(_) => ' ',
        BleError::ServiceNotFound(_) => '服',
        BleError::CharacteristicNotFound(_) => '特',
        BleError::ScanFailed(_) => '败',
        BleError::InitializationFailed(_) => '失',
        BleError::ReadFailed(_) => '征',
        BleError::WriteFailed(_) => '征',
        BleError::SubscribeFailed(_) => '知',
        BleError::UnsubscribeFailed(_) => '阅',
        BleError::ServiceDiscoveryFailed(_) => '现',
        BleError::PermissionDenied(_) => '拒',
        BleError::Timeout(_) => '时',
        BleError::InternalError(_) => '误',
    }
}

spec fn message_prefix(e: BleError) -> Seq<char> {
    match e {
        BleError::AdapterNotFound => "未找到蓝牙适配器，请确保系统蓝牙已启用"@,
        BleError::DeviceNotFound(_) => "未找到指定的蓝牙设备: "@,
        BleError::ConnectionFailed(_) => "连接失败: "@,
        BleError::OperationFailed(_) => "操作失败: "@,
        BleError::NotConnected => "设备未连接，请先连接设备"@,
        BleError::InvalidUuid(_) => "无效的 UUID: "@,
        BleError::ServiceNotFound(_) => "未找到服务 UUID: "@,
        BleError::CharacteristicNotFound(_) => "未找到特征值 UUID: "@,
        BleError::ScanFailed(_) => "扫描失败: "@,
        BleError::InitializationFailed(_) => "初始化失败: "@,
        BleError::ReadFailed(_) => "读取特征值失败: "@,
        BleError::WriteFailed(_) => "写入特征值失败: "@,
        BleError::SubscribeFailed(_) => "订阅通知失败: "@,
        BleError::UnsubscribeFailed(_) => "取消订阅失败: "@,
        BleError::ServiceDiscoveryFailed(_) => "服务发现失败: "@,
        BleError::PermissionDenied(_) => "权限被拒绝: "@,
        BleError::Timeout(_) => "操作超时: "@,
        BleError::InternalError(_) => "内部错误: "@,
    }
}

proof fn lemma_code_shape(e: BleError)
    ensures
        e.code_spec().len() == code_len(e),
        e.code_spec()[0] == code_first(e),
{
    match e {
        BleError::AdapterNotFound => {
            reveal_strlit("ADAPTER_NOT_FOUND");
        },
        BleError::DeviceNotFound(_) => {
            reveal_strlit("DEVICE_NOT_FOUND");
        },
        BleError::ConnectionFailed(_) => {
            reveal_strlit("CONNECTION_FAILED");
        },
        BleError::OperationFailed(_) => {
            reveal_strlit("OPERATION_FAILED");
        },
        BleError::NotConnected => {
            reveal_strlit("NOT_CONNECTED");
        },
        BleError::InvalidUuid(_) => {
            reveal_strlit("INVALID_UUID");
        },
        BleError::ServiceNotFound(_) => {
            reveal_strlit("SERVICE_NOT_FOUND");
        },
        BleError::CharacteristicNotFound(_) => {
            reveal_strlit("CHARACTERISTIC_NOT_FOUND");
        },
        BleError::ScanFailed(_) => {
            reveal_strlit("SCAN_FAILED");
        },
        BleError::InitializationFailed(_) => {
            reveal_strlit("INITIALIZATION_FAILED");
        },
        BleError::ReadFailed(_) => {
            reveal_strlit("READ_FAILED");
        },
        BleError::WriteFailed(_) => {
            reveal_strlit("WRITE_FAILED");
        },
        BleError::SubscribeFailed(_) => {
            reveal_strlit("SUBSCRIBE_FAILED");
        },
        BleError::UnsubscribeFailed(_) => {
            reveal_strlit("UNSUBSCRIBE_FAILED");
        },
        BleError::ServiceDiscoveryFailed(_) => {
            reveal_strlit("SERVICE_DISCOVERY_FAILED");
        },
        BleError::PermissionDenied(_) => {
            reveal_strlit("PERMISSION_DENIED");
        },
        BleError::Timeout(_) => {
            reveal_strlit("TIMEOUT");
        },
        BleError::InternalError(_) => {
            reveal_strlit("INTERNAL_ERROR");
        },
    }
}

proof fn lemma_message_shape(e: BleError)
    ensures
        message_prefix(e).len() >= 4,
        message_prefix(e)[0] == message_first(e),
        message_prefix(e)[3] == message_fourth(e),
        e.message_spec() == match e.payload_view() {
            Some(d) => message_prefix(e) + d,
            None => message_prefix(e),
        },
{
    match e {
        BleError::AdapterNotFound => {
            reveal_strlit("未找到蓝牙适配器，请确保系统蓝牙已启用");
        },
        BleError::DeviceNotFound(_) => {
            reveal_strlit("未找到指定的蓝牙设备: ");
        },
        BleError::ConnectionFailed(_) => {
            reveal_strlit("连接失败: ");
        },
        BleError::OperationFailed(_) => {
            reveal_strlit("操作失败: ");
        },
        BleError::NotConnected => {
            reveal_strlit("设备未连接，请先连接设备");
        },
        BleError::InvalidUuid(_) => {
            reveal_strlit("无效的 UUID: ");
        },
        BleError::ServiceNotFound(_) => {
            reveal_strlit("未找到服务 UUID: ");
        },
        BleError::CharacteristicNotFound(_) => {
            reveal_strlit("未找到特征值 UUID: ");
        },
        BleError::ScanFailed(_) => {
            reveal_strlit("扫描失败: ");
        },
        BleError::InitializationFailed(_) => {
            reveal_strlit("初始化失败: ");
        },
        BleError::ReadFailed(_) => {
            reveal_strlit("读取特征值失败: ");
        },
        BleError::WriteFailed(_) => {
            reveal_strlit("写入特征值失败: ");
        },
        BleError::SubscribeFailed(_) => {
            reveal_strlit("订阅通知失败: ");
        },
        BleError::UnsubscribeFailed(_) => {
            reveal_strlit("取消订阅失败: ");
        },
        BleError::ServiceDiscoveryFailed(_) => {
            reveal_strlit("服务发现失败: ");
        },
        BleError::PermissionDenied(_) => {
            reveal_strlit("权限被拒绝: ");
        },
        BleError::Timeout(_) => {
            reveal_strlit("操作超时: ");
        },
        BleError::InternalError(_) => {
            reveal_strlit("内部错误: ");
        },
    }
}

/// Two errors have the same code exactly when they are of the same variant.
pub proof fn lemma_codes_identify_variants(e1: BleError, e2: BleError)
    ensures
        (e1.code_spec() == e2.code_spec()) <==> (e1.variant_index() == e2.variant_index()),
{
    lemma_code_shape(e1);
    lemma_code_shape(e2);
}

/// Two errors with the same message are of the same variant and carry the
/// same payload.
pub proof fn lemma_messages_identify_errors(e1: BleError, e2: BleError)
    requires
        e1.message_spec() == e2.message_spec(),
    ensures
        e1.variant_index() == e2.variant_index(),
        e1.payload_view() == e2.payload_view(),
{
    lemma_message_shape(e1);
    lemma_message_shape(e2);
    let m = e1.message_spec();
    assert(m[0] == message_first(e1));
    assert(m[3] == message_fourth(e1));
    assert(m[0] == message_first(e2));
    assert(m[3] == message_fourth(e2));
    assert(e1.variant_index() == e2.variant_index());
    let p = message_prefix(e1);
    match (e1.payload_view(), e2.payload_view()) {
        (Some(d1), Some(d2)) => {
            assert((p + d1).skip(p.len() as int) =~= d1);
            assert((p + d2).skip(p.len() as int) =~= d2);
        },
        _ => {},
    }
}

} // verus!
