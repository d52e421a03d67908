use vstd::prelude::*;

use crate::devices::{text_bytes, x_dash_box_word, xbox_word};
use crate::text::{
    bytes_equal, contains_folded, contains_ignore_ascii_case, eq_ignore_ascii_case, lower_bytes,
    normalize_address, without_colons,
};

verus! {

/// A Linux input device that might be the connected controller.
pub struct GamepadCandidate {
    /// The device's unique name (for Bluetooth devices, its address), or empty.
    pub unique_name: String,
    /// The device's name, or empty.
    pub name: String,
    /// Whether the device reports `BTN_SOUTH`, i.e. is a gamepad.
    pub has_south_button: bool,
}

/// The normalized form of an address: colons removed, ASCII lowercased.
pub open spec fn normalized(s: Seq<char>) -> Seq<u8> {
    lower_bytes(without_colons(text_bytes(s)))
}

/// Whether a gamepad's unique name is the controller's address.
pub open spec fn unique_name_matches(c: GamepadCandidate, address: Seq<char>) -> bool {
    c.has_south_button && normalized(c.unique_name@) == normalized(address)
}

/// Whether a gamepad's name could be the controller's: it mentions "xbox" or
/// "x-box", or equals the Bluetooth name (when that is not empty), ignoring case.
pub open spec fn name_could_match(c: GamepadCandidate, bluetooth_name: Seq<char>) -> bool {
    let name = text_bytes(c.name@);
    let wanted = lower_bytes(text_bytes(bluetooth_name));
    c.has_south_button && (contains_folded(name, xbox_word()) || contains_folded(
        name,
        x_dash_box_word(),
    ) || (wanted.len() > 0 && lower_bytes(name) == wanted))
}

/// The only candidate whose name could match, if exactly one could.
pub open spec fn sole_name_match(
    cands: Seq<GamepadCandidate>,
    bluetooth_name: Seq<char>,
    i: int,
) -> bool {
    &&& 0 <= i < cands.len()
    &&& name_could_match(cands[i], bluetooth_name)
    &&& forall|j: int|
        0 <= j < cands.len() && j != i ==> !#[trigger] name_could_match(cands[j], bluetooth_name)
}

/// The selection rule: the first gamepad whose unique name is the address;
/// otherwise, since controllers usually share a name, a name match only when
/// it identifies exactly one gamepad.
pub open spec fn selection(
    cands: Seq<GamepadCandidate>,
    address: Seq<char>,
    bluetooth_name: Seq<char>,
    r: Option<usize>,
) -> bool {
    if exists|i: int| 0 <= i < cands.len() && #[trigger] unique_name_matches(cands[i], address) {
        r matches Some(i) && i < cands.len() && unique_name_matches(cands[i as int], address)
            && forall|j: int| 0 <= j < i ==> !#[trigger] unique_name_matches(cands[j], address)
    } else {
        match r {
            Some(i) => sole_name_match(cands, bluetooth_name, i as int),
            None => !exists|i: int| #[trigger] sole_name_match(cands, bluetooth_name, i),
        }
    }
}

fn name_matches(c: &GamepadCandidate, bluetooth_name: &str) -> (b: bool)
    ensures
        b == name_could_match(*c, bluetooth_name@),
{
    if !c.has_south_button {
        return false;
    }
    let name = c.name.as_str().as_bytes();
    let xbox: [u8; 4] = [0x78, 0x62, 0x6f, 0x78];
    let x_box: [u8; 5] = [0x78, 0x2d, 0x62, 0x6f, 0x78];
    assert(xbox@ == xbox_word());
    assert(x_box@ == x_dash_box_word());
    let wanted = bluetooth_name.as_bytes();
    contains_ignore_ascii_case(name, &xbox) || contains_ignore_ascii_case(name, &x_box) || (
    wanted.len() > 0 && eq_ignore_ascii_case(name, wanted))
}

/// Picks the input device of the connected controller among `candidates`:
/// the first gamepad whose unique name is `address` (ignoring colons and
/// case), else the only gamepad whose name mentions "xbox"/"x-box" or equals
/// `bluetooth_name`.
pub fn select_gamepad(candidates: &Vec<GamepadCandidate>, address: &str, bluetooth_name: &str) -> (r:
    Option<usize>)
    ensures
        selection(candidates@, address@, bluetooth_name@, r),
{
    let normalized_address = normalize_address(address.as_bytes());
    let mut i: usize = 0;
    while i < candidates.len()
        invariant
            0 <= i <= candidates@.len(),
            normalized_address@ == normalized(address@),
            forall|j: int| 0 <= j < i ==> !#[trigger] unique_name_matches(candidates@[j], address@),
        decreases candidates@.len() - i,
    {
        let c = &candidates[i];
        if c.has_south_button {
            let unique = normalize_address(c.unique_name.as_str().as_bytes());
            if bytes_equal(&unique, &normalized_address) {
                assert(unique_name_matches(candidates@[i as int], address@));
                return Some(i);
            }
        }
        i = i + 1;
    }
    let mut first: usize = 0;
    let mut count: usize = 0;
    let mut k: usize = 0;
    while k < candidates.len()
        invariant
            0 <= k <= candidates@.len(),
            count <= 2,
            forall|j: int| 0 <= j < candidates@.len() ==> !#[trigger] unique_name_matches(candidates@[j], address@),
            count == 0 ==> forall|j: int|
                0 <= j < k ==> !#[trigger] name_could_match(candidates@[j], bluetooth_name@),
            count >= 1 ==> first < k && name_could_match(candidates@[first as int], bluetooth_name@),
            count == 1 ==> forall|j: int|
                0 <= j < k && j != first ==> !#[trigger] name_could_match(candidates@[j], bluetooth_name@),
            count == 2 ==> exists|g: int|
                0 <= g < k && g != first && #[trigger] name_could_match(candidates@[g], bluetooth_name@),
        decreases candidates@.len() - k,
    {
        if name_matches(&candidates[k], bluetooth_name) {
            if count == 0 {
                first = k;
                count = 1;
            } else {
                assert(name_could_match(candidates@[k as int], bluetooth_name@));
                count = 2;
            }
        }
        k = k + 1;
    }
    if count == 1 {
        assert(sole_name_match(candidates@, bluetooth_name@, first as int));
        Some(first)
    } else {
        if count == 2 {
            let ghost g = choose|g: int|
                0 <= g < candidates@.len() && g != first && #[trigger] name_could_match(candidates@[g], bluetooth_name@);
            assert forall|i: int| !#[trigger] sole_name_match(candidates@, bluetooth_name@, i) by {
                if sole_name_match(candidates@, bluetooth_name@, i) {
                    if i == first {
                        assert(name_could_match(candidates@[g], bluetooth_name@));
                    } else {
                        assert(name_could_match(candidates@[first as int], bluetooth_name@));
                    }
                }
            }
        } else {
            assert forall|i: int| !#[trigger] sole_name_match(candidates@, bluetooth_name@, i) by {
                if sole_name_match(candidates@, bluetooth_name@, i) {
                    assert(name_could_match(candidates@[i], bluetooth_name@));
                }
            }
        }
        None
    }
}

/// Whether another input device of the controller should be read for the
/// Share button: it exposes `KEY_RECORD` or `KEY_F12`, and its unique name is
/// the controller's normalized address.
pub fn share_reader_wanted(
    exposes_share: bool,
    unique_name: &str,
    normalized_address: &[u8],
) -> (b: bool)
    ensures
        b == (exposes_share && normalized(unique_name@).len() > 0 && normalized(unique_name@)
            == normalized_address@),
{
    let unique = normalize_address(unique_name.as_bytes());
    exposes_share && unique.len() > 0 && bytes_equal(&unique, normalized_address)
}

} // verus!
