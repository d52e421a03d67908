use vstd::prelude::*;

use crate::device_list::Device;
use crate::devices::DeviceState;

verus! {

/// Whether the vibration test is offered: there is a BLE output Report, or
/// the Linux input device supports rumble.
pub fn can_vibrate(has_output_report: bool, input_device_rumbles: bool) -> (b: bool)
    ensures
        b == (has_output_report || input_device_rumbles),
{
    has_output_report || input_device_rumbles
}

/// Whether, after connecting, the inspector still waits for Linux to expose
/// the controller's input device: no input device was found and no BLE input
/// Report is readable either.
pub fn waiting_for_linux_input(has_input_device: bool, has_input_reports: bool) -> (b: bool)
    ensures
        b == (!has_input_device && !has_input_reports),
{
    !has_input_device && !has_input_reports
}

/// Whether a scan request starts a scan: only when none is running, so
/// repeated requests are harmless.
pub fn scan_start_needed(scanning: bool) -> (b: bool)
    ensures
        b == !scanning,
{
    !scanning
}

/// Whether a stop request stops a scan: only when one is running.
pub fn scan_stop_needed(scanning: bool) -> (b: bool)
    ensures
        b == scanning,
{
    scanning
}

/// Whether disconnecting the device `id` ends the active session: it is the
/// connected controller. Only then is the session state cleared.
pub fn disconnect_ends_session(connected_id: Option<String>, id: &String) -> (b: bool)
    ensures
        b == (connected_id matches Some(c) && c@ == id@),
{
    match connected_id {
        Some(c) => c.eq(id),
        None => false,
    }
}

/// The devices other than `id`, in order.
pub open spec fn without_device(s: Seq<Device>, id: Seq<char>) -> Seq<Device>
    decreases s.len(),
{
    if s.len() == 0 {
        s
    } else if s.last().id@ == id {
        without_device(s.drop_last(), id)
    } else {
        without_device(s.drop_last(), id).push(s.last())
    }
}

/// The index of the first device listed under `id`, if any.
pub open spec fn first_listed(s: Seq<Device>, id: Seq<char>, i: int) -> bool {
    0 <= i < s.len() && s[i].id@ == id && forall|j: int| 0 <= j < i ==> #[trigger] s[j].id@ != id
}

/// The device list after a click on a device's action button: "Forget" on a
/// disconnected device removes it from the list; "Disconnect" on a connected
/// device shows it as disconnected at once; "Connect" changes nothing.
pub open spec fn list_after_action(s: Seq<Device>, id: Seq<char>, state: DeviceState) -> Seq<
    Device,
> {
    match state {
        DeviceState::Disconnected => without_device(s, id),
        DeviceState::Connected => if exists|i: int| #[trigger] first_listed(s, id, i) {
            let i = choose|i: int| #[trigger] first_listed(s, id, i);
            s.update(i, Device { state: DeviceState::Disconnected, ..s[i] })
        } else {
            s
        },
        DeviceState::NotSetUp => s,
    }
}

/// The selection after a click on a device's action button: the clicked
/// device, unless it was forgotten.
pub fn selection_after_action(id: String, state: DeviceState) -> (r: Option<String>)
    ensures
        match state {
            DeviceState::Disconnected => r is None,
            _ => r matches Some(s) && s@ == id@,
        },
{
    match state {
        DeviceState::Disconnected => None,
        _ => Some(id),
    }
}

/// Updates the device list for a click on device `id`'s action button while
/// it is listed in `state`.
pub fn apply_device_action(devices: Vec<Device>, id: &String, state: DeviceState) -> (r: Vec<
    Device,
>)
    ensures
        r@ == list_after_action(devices@, id@, state),
{
    match state {
        DeviceState::Disconnected => {
            let ghost input = devices@;
            let mut rest = devices;
            let mut kept: Vec<Device> = Vec::new();
            let ghost mut k: int = 0;
            while rest.len() > 0
                invariant
                    0 <= k <= input.len(),
                    rest@ == input.skip(k),
                    kept@ == without_device(input.take(k), id@),
                decreases rest@.len(),
            {
                let d = rest.remove(0);
                proof {
                    assert(d == input[k]);
                    assert(input.take(k + 1).drop_last() =~= input.take(k));
                    assert(input.take(k + 1).last() == d);
                }
                if !d.id.eq(id) {
                    kept.push(d);
                }
                proof {
                    assert(rest@ =~= input.skip(k + 1));
                    k = k + 1;
                }
            }
            assert(input.take(input.len() as int) =~= input);
            kept
        },
        DeviceState::Connected => {
            let mut i: usize = 0;
            while i < devices.len()
                invariant
                    0 <= i <= devices@.len(),
                    state == DeviceState::Connected,
                    forall|j: int| 0 <= j < i ==> #[trigger] devices@[j].id@ != id@,
                decreases devices@.len() - i,
            {
                if devices[i].id.eq(id) {
                    let ghost before = devices@;
                    assert(first_listed(before, id@, i as int));
                    let mut devices = devices;
                    let d = devices.remove(i);
                    let shown = Device { state: DeviceState::Disconnected, ..d };
                    devices.insert(i, shown);
                    proof {
                        let c = choose|c: int| #[trigger] first_listed(before, id@, c);
                        assert(c == i) by {
                            if c < i {
                                assert(before[c].id@ != id@);
                            } else if c > i {
                                assert(before[i as int].id@ != id@);
                            }
                        }
                        assert(devices@ =~= before.update(
                            i as int,
                            Device { state: DeviceState::Disconnected, ..before[i as int] },
                        ));
                    }
                    return devices;
                }
                i = i + 1;
            }
            assert forall|c: int| !#[trigger] first_listed(devices@, id@, c) by {
                if first_listed(devices@, id@, c) {
                    assert(devices@[c].id@ != id@);
                }
            }
            devices
        },
        DeviceState::NotSetUp => devices,
    }
}

} // verus!
