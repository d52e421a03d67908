use vstd::prelude::*;

use crate::devices::{
    BATTERY_CHARACTERISTIC, PROP_INDICATE, PROP_NOTIFY, PROP_WRITE, PROP_WRITE_WITHOUT_RESPONSE,
    REPORT_CHARACTERISTIC,
};
use crate::report::INPUT_REPORT_LEN;

verus! {

/// A discovered GATT characteristic: its UUID, its service's UUID and its
/// property bits.
#[derive(Debug, Clone, Copy, PartialEq, Eq, Structural)]
pub struct GattCharacteristic {
    pub uuid: u128,
    pub service_uuid: u128,
    pub properties: u8,
}

/// Whether a characteristic is an input Report: the Report UUID with Notify or Indicate.
pub open spec fn is_input_report(c: GattCharacteristic) -> bool {
    c.uuid == REPORT_CHARACTERISTIC && c.properties & (PROP_NOTIFY | PROP_INDICATE) != 0
}

/// Whether a characteristic has `uuid` and, unless `mask` is zero, one of the
/// property bits in `mask`.
pub open spec fn has_uuid_and_props(c: GattCharacteristic, uuid: u128, mask: u8) -> bool {
    c.uuid == uuid && (mask == 0 || c.properties & mask != 0)
}

/// The indices of all input Report characteristics, in order.
pub fn input_reports(chars: &Vec<GattCharacteristic>) -> (r: Vec<usize>)
    ensures
        forall|k: int| 0 <= k < r@.len() ==> r@[k] < chars@.len() && is_input_report(
            chars@[#[trigger] r@[k] as int],
        ),
        forall|k1: int, k2: int| 0 <= k1 < k2 < r@.len() ==> r@[k1] < r@[k2],
        forall|j: int|
            0 <= j < chars@.len() && #[trigger] is_input_report(chars@[j]) ==> r@.contains(
                j as usize,
            ),
{
    let mut r: Vec<usize> = Vec::new();
    let mut i: usize = 0;
    while i < chars.len()
        invariant
            0 <= i <= chars@.len(),
            forall|k: int| 0 <= k < r@.len() ==> r@[k] < i && is_input_report(
                chars@[#[trigger] r@[k] as int],
            ),
            forall|k1: int, k2: int| 0 <= k1 < k2 < r@.len() ==> r@[k1] < r@[k2],
            forall|j: int|
                0 <= j < i && #[trigger] is_input_report(chars@[j]) ==> r@.contains(j as usize),
        decreases chars@.len() - i,
    {
        let c = chars[i];
        if c.uuid == REPORT_CHARACTERISTIC && c.properties & (PROP_NOTIFY | PROP_INDICATE) != 0 {
            let ghost before = r@;
            r.push(i);
            assert(r@[r@.len() - 1] == i);
            assert forall|j: int|
                0 <= j <= i && #[trigger] is_input_report(chars@[j]) implies r@.contains(
                j as usize,
            ) by {
                if j < i {
                    let k = choose|k: int| 0 <= k < before.len() && before[k] == j as usize;
                    assert(r@[k] == j as usize);
                } else {
                    assert(r@[r@.len() - 1] == j as usize);
                }
            }
        }
        i = i + 1;
    }
    r
}

/// The index of the first characteristic with `uuid` and (unless `mask` is
/// zero) one of the property bits in `mask`.
pub fn first_with(chars: &Vec<GattCharacteristic>, uuid: u128, mask: u8) -> (r: Option<usize>)
    ensures
        match r {
            Some(i) => i < chars@.len() && has_uuid_and_props(chars@[i as int], uuid, mask)
                && forall|j: int| 0 <= j < i ==> !#[trigger] has_uuid_and_props(chars@[j], uuid, mask),
            None => forall|j: int|
                0 <= j < chars@.len() ==> !#[trigger] has_uuid_and_props(chars@[j], uuid, mask),
        },
{
    let mut i: usize = 0;
    while i < chars.len()
        invariant
            0 <= i <= chars@.len(),
            forall|j: int| 0 <= j < i ==> !#[trigger] has_uuid_and_props(chars@[j], uuid, mask),
        decreases chars@.len() - i,
    {
        let c = chars[i];
        if c.uuid == uuid && (mask == 0 || c.properties & mask != 0) {
            return Some(i);
        }
        i = i + 1;
    }
    None
}

/// The index of the output Report: the first Report characteristic that
/// allows Write or Write Without Response.
pub fn output_report(chars: &Vec<GattCharacteristic>) -> (r: Option<usize>)
    ensures
        match r {
            Some(i) => i < chars@.len() && has_uuid_and_props(
                chars@[i as int],
                REPORT_CHARACTERISTIC,
                PROP_WRITE | PROP_WRITE_WITHOUT_RESPONSE,
            ) && forall|j: int|
                0 <= j < i ==> !#[trigger] has_uuid_and_props(
                    chars@[j],
                    REPORT_CHARACTERISTIC,
                    PROP_WRITE | PROP_WRITE_WITHOUT_RESPONSE,
                ),
            None => forall|j: int|
                0 <= j < chars@.len() ==> !#[trigger] has_uuid_and_props(
                    chars@[j],
                    REPORT_CHARACTERISTIC,
                    PROP_WRITE | PROP_WRITE_WITHOUT_RESPONSE,
                ),
        },
{
    first_with(chars, REPORT_CHARACTERISTIC, PROP_WRITE | PROP_WRITE_WITHOUT_RESPONSE)
}

/// Where a notification goes.
#[derive(Debug, Clone, Copy, PartialEq, Eq, Structural)]
pub enum NotificationRoute {
    /// A battery level update.
    Battery(u8),
    /// An input report to parse.
    Report,
    /// Nothing to do.
    Ignore,
}

/// Routing of notifications: battery updates carry their first byte; other
/// notifications are reports only from a subscribed input characteristic and
/// only when they hold a complete input report.
pub open spec fn route_of(
    uuid: u128,
    service_uuid: u128,
    value: Seq<u8>,
    subscribed: Seq<(u128, u128)>,
) -> NotificationRoute {
    if uuid == BATTERY_CHARACTERISTIC {
        if value.len() > 0 {
            NotificationRoute::Battery(value[0])
        } else {
            NotificationRoute::Ignore
        }
    } else if subscribed.contains((uuid, service_uuid)) && value.len() >= INPUT_REPORT_LEN {
        NotificationRoute::Report
    } else {
        NotificationRoute::Ignore
    }
}

/// Decides where a notification goes.
pub fn route_notification(
    uuid: u128,
    service_uuid: u128,
    value: &[u8],
    subscribed: &Vec<(u128, u128)>,
) -> (r: NotificationRoute)
    ensures
        r == route_of(uuid, service_uuid, value@, subscribed@),
{
    if uuid == BATTERY_CHARACTERISTIC {
        if value.len() > 0 {
            return NotificationRoute::Battery(value[0]);
        }
        return NotificationRoute::Ignore;
    }
    let mut found = false;
    let mut i: usize = 0;
    while i < subscribed.len()
        invariant
            0 <= i <= subscribed@.len(),
            found == exists|j: int| 0 <= j < i && subscribed@[j] == (uuid, service_uuid),
        decreases subscribed@.len() - i,
    {
        let (u, s) = subscribed[i];
        if u == uuid && s == service_uuid {
            found = true;
        }
        i = i + 1;
    }
    if found && value.len() >= INPUT_REPORT_LEN {
        NotificationRoute::Report
    } else {
        NotificationRoute::Ignore
    }
}

/// How the vibration test reaches the controller.
#[derive(Debug, Clone, Copy, PartialEq, Eq, Structural)]
pub enum VibrationRoute {
    /// Write the rumble report to the BLE output Report, without response
    /// when the characteristic allows it.
    Ble { without_response: bool },
    /// Play a force-feedback rumble on the Linux input device.
    ForceFeedback,
    /// No way to vibrate.
    Unavailable,
}

/// The BLE output Report is preferred; the Linux force-feedback device is the fallback.
pub open spec fn vibration_route_of(output_properties: Option<u8>, has_input_device: bool) -> VibrationRoute {
    match output_properties {
        Some(p) => VibrationRoute::Ble { without_response: p & PROP_WRITE_WITHOUT_RESPONSE != 0 },
        None => if has_input_device {
            VibrationRoute::ForceFeedback
        } else {
            VibrationRoute::Unavailable
        },
    }
}

/// Chooses how to vibrate: `output_properties` are those of the connected
/// controller's output Report, if there is one.
pub fn vibration_route(output_properties: Option<u8>, has_input_device: bool) -> (r: VibrationRoute)
    ensures
        r == vibration_route_of(output_properties, has_input_device),
{
    match output_properties {
        Some(p) => VibrationRoute::Ble { without_response: p & PROP_WRITE_WITHOUT_RESPONSE != 0 },
        None => if has_input_device {
            VibrationRoute::ForceFeedback
        } else {
            VibrationRoute::Unavailable
        },
    }
}

/// Notifications of the Battery Level characteristic (UUID 0x2A19) carry
/// their first byte as the level, or nothing when empty; any other
/// notification is parsed as a report exactly when it comes from a subscribed
/// input characteristic and holds at least 16 bytes.
pub proof fn lemma_notification_routes(
    uuid: u128,
    service_uuid: u128,
    value: Seq<u8>,
    subscribed: Seq<(u128, u128)>,
)
    ensures
        uuid == 0x00002a19_0000_1000_8000_00805f9b34fb && value.len() > 0 ==> route_of(
            uuid,
            service_uuid,
            value,
            subscribed,
        ) == NotificationRoute::Battery(value[0]),
        uuid == 0x00002a19_0000_1000_8000_00805f9b34fb && value.len() == 0 ==> route_of(
            uuid,
            service_uuid,
            value,
            subscribed,
        ) == NotificationRoute::Ignore,
        uuid != 0x00002a19_0000_1000_8000_00805f9b34fb ==> ((route_of(
            uuid,
            service_uuid,
            value,
            subscribed,
        ) == NotificationRoute::Report) <==> (subscribed.contains((uuid, service_uuid))
            && value.len() >= 16)),
        uuid != 0x00002a19_0000_1000_8000_00805f9b34fb ==> !(route_of(
            uuid,
            service_uuid,
            value,
            subscribed,
        ) is Battery),
{
}

/// Vibration goes over BLE whenever the controller has an output Report,
/// without response exactly when that characteristic allows Write Without
/// Response (property bit 0x04); only without one does it fall back to the
/// Linux force-feedback device, and with neither it is unavailable.
pub proof fn lemma_vibration_routes(output_properties: Option<u8>, has_input_device: bool)
    ensures
        output_properties matches Some(p) ==> vibration_route_of(output_properties, has_input_device)
            == (VibrationRoute::Ble { without_response: p & 0x04 != 0 }),
        output_properties is None ==> (vibration_route_of(output_properties, has_input_device)
            == VibrationRoute::ForceFeedback <==> has_input_device),
        output_properties is None && !has_input_device ==> vibration_route_of(
            output_properties,
            has_input_device,
        ) == VibrationRoute::Unavailable,
{
}

/// The controller's Report characteristics (UUID 0x2A4D) are told apart by
/// their properties: an input Report notifies or indicates (bit 0x10 or
/// 0x20); the output Report used for rumble allows Write or Write Without
/// Response (bit 0x08 or 0x04).
pub proof fn lemma_report_characteristics(c: GattCharacteristic)
    ensures
        is_input_report(c) <==> (c.uuid == 0x00002a4d_0000_1000_8000_00805f9b34fb && (c.properties
            & 0x10 != 0 || c.properties & 0x20 != 0)),
        has_uuid_and_props(c, REPORT_CHARACTERISTIC, PROP_WRITE | PROP_WRITE_WITHOUT_RESPONSE) <==> (
        c.uuid == 0x00002a4d_0000_1000_8000_00805f9b34fb && (c.properties & 0x08 != 0
            || c.properties & 0x04 != 0)),
{
    let p = c.properties;
    assert(p & (0x10u8 | 0x20u8) != 0 <==> (p & 0x10 != 0 || p & 0x20 != 0)) by (bit_vector);
    assert(p & (0x08u8 | 0x04u8) != 0 <==> (p & 0x08 != 0 || p & 0x04 != 0)) by (bit_vector);
    assert((0x08u8 | 0x04u8) != 0) by (bit_vector);
}

} // verus!
