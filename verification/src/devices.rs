use vstd::prelude::*;

use std::collections::HashMap;

use crate::text::{
    ascii_lower, contains_bytes, contains_exact, contains_folded, contains_ignore_ascii_case,
    lower_bytes,
};
use vstd::utf8::encode_utf8;

verus! {

broadcast use vstd::std_specs::hash::group_hash_axioms;

/// Bluetooth SIG company identifier of Microsoft, found in Xbox
/// controllers' manufacturer-specific advertising data.
pub const MICROSOFT_COMPANY_ID: u16 = 0x045e;

/// GATT HID Report characteristic (0x2A4D) as a 128-bit UUID.
pub const REPORT_CHARACTERISTIC: u128 = 0x00002a4d_0000_1000_8000_00805f9b34fb;

/// GATT Firmware Revision String characteristic (0x2A26).
pub const FIRMWARE_CHARACTERISTIC: u128 = 0x00002a26_0000_1000_8000_00805f9b34fb;

/// GATT Battery Level characteristic (0x2A19).
pub const BATTERY_CHARACTERISTIC: u128 = 0x00002a19_0000_1000_8000_00805f9b34fb;

/// Characteristic property bit: Read.
pub const PROP_READ: u8 = 0x02;
/// Characteristic property bit: Write Without Response.
pub const PROP_WRITE_WITHOUT_RESPONSE: u8 = 0x04;
/// Characteristic property bit: Write.
pub const PROP_WRITE: u8 = 0x08;
/// Characteristic property bit: Notify.
pub const PROP_NOTIFY: u8 = 0x10;
/// Characteristic property bit: Indicate.
pub const PROP_INDICATE: u8 = 0x20;

/// Force-feedback rumble length for the vibration test, in milliseconds.
pub const RUMBLE_LENGTH_MS: u16 = 200;

/// Force-feedback rumble magnitude for both motors: half of full power.
pub const RUMBLE_MAGNITUDE: u16 = 0x7fff;

/// The bytes of a text value.
pub open spec fn text_bytes(s: Seq<char>) -> Seq<u8> {
    encode_utf8(s)
}

/// `"xbox"`.
pub open spec fn xbox_word() -> Seq<u8> {
    seq![0x78u8, 0x62, 0x6f, 0x78]
}

/// `"x-box"`.
pub open spec fn x_dash_box_word() -> Seq<u8> {
    seq![0x78u8, 0x2d, 0x62, 0x6f, 0x78]
}

/// Whether a name mentions "xbox" in any ASCII case.
pub open spec fn name_mentions_xbox(name: Seq<char>) -> bool {
    contains_folded(text_bytes(name), xbox_word())
}

/// Whether a name mentions "xbox".
pub fn mentions_xbox(name: &str) -> (b: bool)
    ensures
        b == name_mentions_xbox(name@),
{
    let word: [u8; 4] = [0x78, 0x62, 0x6f, 0x78];
    assert(word@ == xbox_word());
    contains_ignore_ascii_case(name.as_bytes(), &word)
}

/// Whether a device is likely an Xbox controller: its name mentions "xbox",
/// or its advertisement carries Microsoft manufacturer data.
pub fn is_likely_xbox(name: &str, manufacturer_data: &HashMap<u16, Vec<u8>>) -> (b: bool)
    ensures
        b == (name_mentions_xbox(name@) || manufacturer_data@.contains_key(MICROSOFT_COMPANY_ID)),
{
    mentions_xbox(name) || manufacturer_data.contains_key(&MICROSOFT_COMPANY_ID)
}

/// `"Xbox"`.
pub open spec fn xbox_title_word() -> Seq<u8> {
    seq![0x58u8, 0x62, 0x6f, 0x78]
}

/// Whether a device may be paired automatically: its advertised name
/// contains "Xbox".
pub open spec fn pairing_allowed(advertised_name: Seq<char>) -> bool {
    contains_exact(text_bytes(advertised_name), xbox_title_word())
}

/// Whether a device may be paired automatically: only when its advertised
/// name contains "Xbox".
pub fn identifies_xbox(advertised_name: &str) -> (b: bool)
    ensures
        b == pairing_allowed(advertised_name@),
{
    let word: [u8; 4] = [0x58, 0x62, 0x6f, 0x78];
    assert(word@ == xbox_title_word());
    contains_bytes(advertised_name.as_bytes(), &word)
}

/// Pairing and connection status of a listed device, in display order.
#[derive(Clone, Copy, Debug, PartialEq, Eq, PartialOrd, Ord, Hash, Structural)]
pub enum DeviceState {
    Connected,
    Disconnected,
    NotSetUp,
}

/// Connected devices are listed as connected, paired ones as disconnected,
/// and all others as not set up.
pub open spec fn state_of(connected: bool, paired: bool) -> DeviceState {
    if connected {
        DeviceState::Connected
    } else if paired {
        DeviceState::Disconnected
    } else {
        DeviceState::NotSetUp
    }
}

/// Classifies a device by its connection and pairing status.
pub fn device_state(connected: bool, paired: bool) -> (s: DeviceState)
    ensures
        s == state_of(connected, paired),
{
    if connected {
        DeviceState::Connected
    } else if paired {
        DeviceState::Disconnected
    } else {
        DeviceState::NotSetUp
    }
}

/// The text of an optional string.
pub open spec fn opt_text(o: Option<String>) -> Option<Seq<char>> {
    match o {
        Some(s) => Some(s@),
        None => None,
    }
}

/// Whether a name is worth showing: not empty and not just the address.
pub open spec fn name_usable(name: Seq<char>, address: Seq<char>) -> bool {
    name.len() > 0 && name != address
}

/// The name shown for a device: a usable BlueZ alias, else BlueZ's device
/// name; else a usable advertised (local, then advertisement) name; else
/// "Unknown device".
pub open spec fn chosen_name(
    bluez_alias: Option<Seq<char>>,
    bluez_name: Option<Seq<char>>,
    local_name: Option<Seq<char>>,
    advertisement_name: Option<Seq<char>>,
    address: Seq<char>,
) -> Seq<char> {
    let advertised = match local_name {
        Some(n) => Some(n),
        None => advertisement_name,
    };
    let advertised = match advertised {
        Some(n) => if name_usable(n, address) {
            Some(n)
        } else {
            None
        },
        None => None,
    };
    let bluez = match bluez_alias {
        Some(n) => if name_usable(n, address) {
            Some(n)
        } else {
            bluez_name
        },
        None => bluez_name,
    };
    match bluez {
        Some(n) => n,
        None => match advertised {
            Some(n) => n,
            None => "Unknown device"@,
        },
    }
}

fn usable(name: &String, address: &String) -> (b: bool)
    ensures
        b == name_usable(name@, address@),
{
    !name.as_str().is_empty() && !name.eq(address)
}

/// Chooses the name shown for a device.
pub fn display_name(
    bluez_alias: Option<String>,
    bluez_name: Option<String>,
    local_name: Option<String>,
    advertisement_name: Option<String>,
    address: &String,
) -> (name: String)
    ensures
        name@ == chosen_name(
            opt_text(bluez_alias),
            opt_text(bluez_name),
            opt_text(local_name),
            opt_text(advertisement_name),
            address@,
        ),
{
    let advertised = match local_name {
        Some(n) => Some(n),
        None => advertisement_name,
    };
    let advertised = match advertised {
        Some(n) => if usable(&n, address) {
            Some(n)
        } else {
            None
        },
        None => None,
    };
    let bluez = match bluez_alias {
        Some(n) => if usable(&n, address) {
            Some(n)
        } else {
            bluez_name
        },
        None => bluez_name,
    };
    match bluez {
        Some(n) => n,
        None => match advertised {
            Some(n) => n,
            None => "Unknown device".to_owned(),
        },
    }
}

/// The battery level shown, capped at 100%.
pub fn battery_percent(level: u8) -> (p: u8)
    ensures
        p == if level > 100 {
            100
        } else {
            level
        },
{
    if level > 100 {
        100
    } else {
        level
    }
}

/// A device is listed as connected exactly when it is connected, as
/// disconnected exactly when it is paired but not connected, and as not set
/// up otherwise.
pub proof fn lemma_device_states(connected: bool, paired: bool)
    ensures
        (state_of(connected, paired) == DeviceState::Connected) <==> connected,
        (state_of(connected, paired) == DeviceState::Disconnected) <==> (!connected && paired),
        (state_of(connected, paired) == DeviceState::NotSetUp) <==> (!connected && !paired),
{
}

/// Automatic pairing is allowed exactly when the advertised name holds the
/// bytes `X`, `b`, `o`, `x` (0x58 0x62 0x6f 0x78) in a row, capital X
/// included; a name only mentions Xbox when it holds those four letters in
/// a row in any ASCII case.
pub proof fn lemma_xbox_name_rules(name: Seq<char>)
    ensures
        pairing_allowed(name) <==> exists|i: int|
            0 <= i && i + 4 <= text_bytes(name).len() && #[trigger] text_bytes(name)[i] == 0x58u8
                && text_bytes(name)[i + 1] == 0x62u8 && text_bytes(name)[i + 2] == 0x6fu8
                && text_bytes(name)[i + 3] == 0x78u8,
        name_mentions_xbox(name) <==> exists|i: int|
            0 <= i && i + 4 <= text_bytes(name).len() && (#[trigger] text_bytes(name)[i] == 0x78u8
                || text_bytes(name)[i] == 0x58u8) && (text_bytes(name)[i + 1] == 0x62u8
                || text_bytes(name)[i + 1] == 0x42u8) && (text_bytes(name)[i + 2] == 0x6fu8
                || text_bytes(name)[i + 2] == 0x4fu8) && (text_bytes(name)[i + 3] == 0x78u8
                || text_bytes(name)[i + 3] == 0x58u8),
{
    let b = text_bytes(name);
    if pairing_allowed(name) {
        let i = choose|i: int|
            0 <= i && i + xbox_title_word().len() <= b.len() && #[trigger] b.subrange(
                i,
                i + xbox_title_word().len(),
            ) == xbox_title_word();
        assert(b.subrange(i, i + 4)[0] == b[i]);
        assert(b.subrange(i, i + 4)[1] == b[i + 1]);
        assert(b.subrange(i, i + 4)[2] == b[i + 2]);
        assert(b.subrange(i, i + 4)[3] == b[i + 3]);
    }
    if exists|i: int|
        0 <= i && i + 4 <= b.len() && #[trigger] b[i] == 0x58u8 && b[i + 1] == 0x62u8 && b[i + 2]
            == 0x6fu8 && b[i + 3] == 0x78u8 {
        let i = choose|i: int|
            0 <= i && i + 4 <= b.len() && #[trigger] b[i] == 0x58u8 && b[i + 1] == 0x62u8 && b[i
                + 2] == 0x6fu8 && b[i + 3] == 0x78u8;
        assert(b.subrange(i, i + 4) =~= xbox_title_word());
    }
    if name_mentions_xbox(name) {
        let i = choose|i: int|
            0 <= i && i + xbox_word().len() <= b.len() && #[trigger] lower_bytes(
                b.subrange(i, i + xbox_word().len()),
            ) == xbox_word();
        let w = lower_bytes(b.subrange(i, i + 4));
        assert(w[0] == ascii_lower(b[i]));
        assert(w[1] == ascii_lower(b[i + 1]));
        assert(w[2] == ascii_lower(b[i + 2]));
        assert(w[3] == ascii_lower(b[i + 3]));
    }
    if exists|i: int|
        0 <= i && i + 4 <= b.len() && (#[trigger] b[i] == 0x78u8 || b[i] == 0x58u8) && (b[i + 1]
            == 0x62u8 || b[i + 1] == 0x42u8) && (b[i + 2] == 0x6fu8 || b[i + 2] == 0x4fu8) && (b[i
            + 3] == 0x78u8 || b[i + 3] == 0x58u8) {
        let i = choose|i: int|
            0 <= i && i + 4 <= b.len() && (#[trigger] b[i] == 0x78u8 || b[i] == 0x58u8) && (b[i
                + 1] == 0x62u8 || b[i + 1] == 0x42u8) && (b[i + 2] == 0x6fu8 || b[i + 2] == 0x4fu8)
                && (b[i + 3] == 0x78u8 || b[i + 3] == 0x58u8);
        assert(lower_bytes(b.subrange(i, i + 4)) =~= xbox_word());
    }
}

} // verus!
