use vstd::prelude::*;

use trouble_host::advertise::AdStructure;

verus! {

/// Which compatible controller the BLE scan should select.
///
/// `AnyXbox` selects the first compatible advertisement. `Address` restricts
/// selection to one controller; its bytes are written in the same
/// left-to-right order as the usual `AA:BB:CC:DD:EE:FF` notation.
#[derive(Debug, Clone, Copy, PartialEq, Eq)]
pub enum ControllerSelector {
    AnyXbox,
    Address([u8; 6]),
}

/// One advertising-data structure, reduced to what controller discovery reads.
#[derive(Debug)]
pub enum AdField {
    /// Complete Local Name (AD type 0x09).
    CompleteLocalName(Vec<u8>),
    /// Shortened Local Name (AD type 0x08).
    ShortenedLocalName(Vec<u8>),
    /// Incomplete list of 16-bit service UUIDs (AD type 0x02), little endian.
    IncompleteServiceUuids16(Vec<[u8; 2]>),
    /// Complete list of 16-bit service UUIDs (AD type 0x03), little endian.
    CompleteServiceUuids16(Vec<[u8; 2]>),
    /// Any other well-formed structure.
    Other,
    /// A structure that could not be decoded.
    Malformed,
}

/// The mathematical value of an [`AdField`].
pub enum AdFieldView {
    CompleteLocalName(Seq<u8>),
    ShortenedLocalName(Seq<u8>),
    IncompleteServiceUuids16(Seq<[u8; 2]>),
    CompleteServiceUuids16(Seq<[u8; 2]>),
    Other,
    Malformed,
}

impl View for AdField {
    type V = AdFieldView;

    open spec fn view(&self) -> AdFieldView {
        match self {
            AdField::CompleteLocalName(n) => AdFieldView::CompleteLocalName(n@),
            AdField::ShortenedLocalName(n) => AdFieldView::ShortenedLocalName(n@),
            AdField::IncompleteServiceUuids16(u) => AdFieldView::IncompleteServiceUuids16(u@),
            AdField::CompleteServiceUuids16(u) => AdFieldView::CompleteServiceUuids16(u@),
            AdField::Other => AdFieldView::Other,
            AdField::Malformed => AdFieldView::Malformed,
        }
    }
}

/// The structures that TrouBLE's advertising-data decoder yields for `data`,
/// in order.
pub uninterp spec fn decoded_ad_fields(data: Seq<u8>) -> Seq<AdFieldView>;

/// Decodes advertising data with `trouble_host::advertise::AdStructure::decode`,
/// keeping local names and 16-bit service UUID lists. Trusted: the result is
/// the decoder's sequence of structures for `data`, each converted one for one.
#[verifier::external_body]
fn decode_ad_fields(data: &[u8]) -> (fields: Vec<AdField>)
    ensures
        fields@.map_values(|f: AdField| f@) == decoded_ad_fields(data@),
{
    AdStructure::decode(data).map(|item| match item {
        Ok(AdStructure::CompleteLocalName(n)) => AdField::CompleteLocalName(n.to_vec()),
        Ok(AdStructure::ShortenedLocalName(n)) => AdField::ShortenedLocalName(n.to_vec()),
        Ok(AdStructure::IncompleteServiceUuids16(u)) => AdField::IncompleteServiceUuids16(u.to_vec()),
        Ok(AdStructure::CompleteServiceUuids16(u)) => AdField::CompleteServiceUuids16(u.to_vec()),
        Ok(_) => AdField::Other,
        Err(_) => AdField::Malformed,
    }).collect()
}

/// The advertised name of Xbox Wireless Controllers, `"Xbox Wireless Controller"`.
pub open spec fn xbox_name() -> Seq<u8> {
    seq![
        0x58u8, 0x62, 0x6f, 0x78, 0x20, 0x57, 0x69, 0x72, 0x65, 0x6c, 0x65, 0x73, 0x73, 0x20,
        0x43, 0x6f, 0x6e, 0x74, 0x72, 0x6f, 0x6c, 0x6c, 0x65, 0x72,
    ]
}

/// Whether a 16-bit UUID list holds the HID service 0x1812 (little endian).
pub open spec fn lists_hid_service(uuids: Seq<[u8; 2]>) -> bool {
    exists|i: int| 0 <= i < uuids.len() && #[trigger] uuids[i][0] == 0x12 && uuids[i][1] == 0x18
}

/// Whether one advertising structure identifies an Xbox controller: the Xbox
/// name, or the HID service among its 16-bit UUIDs.
pub open spec fn field_identifies_xbox(field: AdFieldView) -> bool {
    match field {
        AdFieldView::CompleteLocalName(n) => n == xbox_name(),
        AdFieldView::ShortenedLocalName(n) => n == xbox_name(),
        AdFieldView::IncompleteServiceUuids16(u) => lists_hid_service(u),
        AdFieldView::CompleteServiceUuids16(u) => lists_hid_service(u),
        _ => false,
    }
}

/// Whether any decoded structure identifies an Xbox controller.
pub open spec fn fields_identify_xbox(fields: Seq<AdFieldView>) -> bool {
    exists|i: int| 0 <= i < fields.len() && #[trigger] field_identifies_xbox(fields[i])
}

fn name_is_xbox(name: &Vec<u8>) -> (b: bool)
    ensures
        b == (name@ == xbox_name()),
{
    let expected: [u8; 24] = [
        0x58, 0x62, 0x6f, 0x78, 0x20, 0x57, 0x69, 0x72, 0x65, 0x6c, 0x65, 0x73, 0x73, 0x20,
        0x43, 0x6f, 0x6e, 0x74, 0x72, 0x6f, 0x6c, 0x6c, 0x65, 0x72,
    ];
    assert(expected@ == xbox_name());
    if name.len() != 24 {
        return false;
    }
    let mut i: usize = 0;
    while i < 24
        invariant
            0 <= i <= 24,
            name@.len() == 24,
            expected@ == xbox_name(),
            forall|j: int| 0 <= j < i ==> name@[j] == xbox_name()[j],
        decreases 24 - i,
    {
        if name[i] != expected[i] {
            return false;
        }
        i = i + 1;
    }
    assert(name@ =~= xbox_name());
    true
}

fn uuids_list_hid(uuids: &Vec<[u8; 2]>) -> (b: bool)
    ensures
        b == lists_hid_service(uuids@),
{
    let mut i: usize = 0;
    while i < uuids.len()
        invariant
            0 <= i <= uuids@.len(),
            forall|j: int| 0 <= j < i ==> !(#[trigger] uuids@[j][0] == 0x12 && uuids@[j][1] == 0x18),
        decreases uuids@.len() - i,
    {
        let uuid = uuids[i];
        if uuid[0] == 0x12 && uuid[1] == 0x18 {
            assert(uuids@[i as int][0] == 0x12);
            return true;
        }
        i = i + 1;
    }
    false
}

fn field_is_xbox(field: &AdField) -> (b: bool)
    ensures
        b == field_identifies_xbox(field@),
{
    match field {
        AdField::CompleteLocalName(name) => name_is_xbox(name),
        AdField::ShortenedLocalName(name) => name_is_xbox(name),
        AdField::IncompleteServiceUuids16(uuids) => uuids_list_hid(uuids),
        AdField::CompleteServiceUuids16(uuids) => uuids_list_hid(uuids),
        _ => false,
    }
}

/// Whether decoded advertising data identifies an Xbox controller.
pub fn ad_fields_identify_xbox(fields: &Vec<AdField>) -> (b: bool)
    ensures
        b == fields_identify_xbox(fields@.map_values(|f: AdField| f@)),
{
    let ghost views = fields@.map_values(|f: AdField| f@);
    let mut i: usize = 0;
    while i < fields.len()
        invariant
            0 <= i <= fields@.len(),
            views == fields@.map_values(|f: AdField| f@),
            forall|j: int| 0 <= j < i ==> !#[trigger] field_identifies_xbox(views[j]),
        decreases fields@.len() - i,
    {
        if field_is_xbox(&fields[i]) {
            assert(field_identifies_xbox(views[i as int]));
            return true;
        }
        i = i + 1;
    }
    false
}

/// Whether raw advertising data identifies an Xbox controller.
pub fn advertisement_is_xbox(data: &[u8]) -> (b: bool)
    ensures
        b == fields_identify_xbox(decoded_ad_fields(data@)),
{
    let fields = decode_ad_fields(data);
    ad_fields_identify_xbox(&fields)
}

/// Whether a raw (little-endian) device address matches the displayed
/// address `expected`, which lists the same bytes in reverse.
pub open spec fn address_matches(expected: [u8; 6], raw_address: [u8; 6]) -> bool {
    forall|k: int| 0 <= k < 6 ==> #[trigger] expected[k] == raw_address[5 - k]
}

/// Whether the selector admits an advertiser with this raw address.
pub open spec fn selector_admits(selector: ControllerSelector, raw_address: [u8; 6]) -> bool {
    match selector {
        ControllerSelector::AnyXbox => true,
        ControllerSelector::Address(expected) => address_matches(expected, raw_address),
    }
}

/// Whether `selector` admits the advertiser with `raw_address`.
pub fn selector_matches(selector: ControllerSelector, raw_address: [u8; 6]) -> (b: bool)
    ensures
        b == selector_admits(selector, raw_address),
{
    match selector {
        ControllerSelector::AnyXbox => true,
        ControllerSelector::Address(expected) => {
            let mut k: usize = 0;
            while k < 6
                invariant
                    0 <= k <= 6,
                    selector == ControllerSelector::Address(expected),
                    forall|j: int| 0 <= j < k ==> #[trigger] expected[j] == raw_address[5 - j],
                decreases 6 - k,
            {
                if expected[k] != raw_address[5 - k] {
                    assert(expected[k as int] != raw_address[5 - k as int]);
                    return false;
                }
                k = k + 1;
            }
            true
        },
    }
}

/// Whether an advertising report should be taken as the controller to connect:
/// it must identify an Xbox controller and be admitted by the selector.
pub fn report_selects_controller(
    selector: ControllerSelector,
    data: &[u8],
    raw_address: [u8; 6],
) -> (b: bool)
    ensures
        b == advertisement_selects(selector, data@, raw_address),
{
    advertisement_is_xbox(data) && selector_matches(selector, raw_address)
}

/// Whether an advertisement with `data` from `raw_address` selects the
/// controller: it identifies an Xbox controller and the selector admits it.
pub open spec fn advertisement_selects(
    selector: ControllerSelector,
    data: Seq<u8>,
    raw_address: [u8; 6],
) -> bool {
    fields_identify_xbox(decoded_ad_fields(data)) && selector_admits(selector, raw_address)
}

/// Whether some advertisement in `seen` came from `raw_address` and selects
/// the controller.
pub open spec fn selected_among(
    selector: ControllerSelector,
    seen: Seq<(Seq<u8>, [u8; 6])>,
    raw_address: [u8; 6],
) -> bool {
    exists|i: int|
        0 <= i < seen.len() && seen[i].1 == raw_address && #[trigger] advertisement_selects(
            selector,
            seen[i].0,
            seen[i].1,
        )
}

/// The controller discovery of one scan: advertisements are offered as they
/// arrive, and the latest one that selects the controller is kept until it is
/// taken. `K` is the address kind that goes with a found address.
pub struct Discovery<K> {
    selector: ControllerSelector,
    found: Option<(K, [u8; 6])>,
    seen: Ghost<Seq<(Seq<u8>, [u8; 6])>>,
}

impl<K> Discovery<K> {
    /// A found address was offered since the last reset, in an advertisement
    /// that selects the controller.
    #[verifier::type_invariant]
    spec fn found_was_selected(self) -> bool {
        self.found matches Some(f) ==> selected_among(self.selector, self.seen@, f.1)
    }

    /// The selector that advertisements are held to.
    pub closed spec fn spec_selector(self) -> ControllerSelector {
        self.selector
    }

    /// The address waiting to be taken, with its kind.
    pub closed spec fn spec_found(self) -> Option<(K, [u8; 6])> {
        self.found
    }

    /// The advertisements offered since the last reset, as data and raw
    /// address, in arrival order.
    pub closed spec fn spec_seen(self) -> Seq<(Seq<u8>, [u8; 6])> {
        self.seen@
    }

    /// A discovery for `selector` with nothing offered yet.
    pub fn new(selector: ControllerSelector) -> (d: Self)
        ensures
            d.spec_selector() == selector,
            d.spec_found() is None,
            d.spec_seen() == Seq::<(Seq<u8>, [u8; 6])>::empty(),
    {
        Discovery { selector, found: None, seen: Ghost(Seq::empty()) }
    }

    /// Starts a new scan: forgets what was offered and found before, so that a
    /// late advertisement of an earlier scan is not taken.
    pub fn reset(&mut self)
        ensures
            final(self).spec_selector() == old(self).spec_selector(),
            final(self).spec_found() is None,
            final(self).spec_seen() == Seq::<(Seq<u8>, [u8; 6])>::empty(),
    {
        self.found = None;
        self.seen = Ghost(Seq::empty());
    }

    /// Offers an advertisement with `data` from `raw_address`, of address kind
    /// `kind`; keeps it as found when it selects the controller, and says so.
    pub fn on_advertisement(&mut self, kind: K, data: &[u8], raw_address: [u8; 6]) -> (selected:
        bool)
        ensures
            selected == advertisement_selects(old(self).spec_selector(), data@, raw_address),
            final(self).spec_selector() == old(self).spec_selector(),
            final(self).spec_seen() == old(self).spec_seen().push((data@, raw_address)),
            selected ==> final(self).spec_found() == Some((kind, raw_address)),
            !selected ==> final(self).spec_found() == old(self).spec_found(),
    {
        proof {
            use_type_invariant(&*self);
        }
        let selected = report_selects_controller(self.selector, data, raw_address);
        let ghost before = self.seen@;
        let ghost after = before.push((data@, raw_address));
        proof {
            if self.found is Some {
                let a = (self.found->0).1;
                let i = choose|i: int|
                    0 <= i < before.len() && before[i].1 == a && #[trigger] advertisement_selects(
                        self.selector,
                        before[i].0,
                        before[i].1,
                    );
                assert(after[i] == before[i]);
                assert(selected_among(self.selector, after, a));
            }
        }
        self.seen = Ghost(after);
        if selected {
            proof {
                let last = self.seen@.len() - 1;
                assert(self.seen@[last] == (data@, raw_address));
                assert(advertisement_selects(self.selector, self.seen@[last].0, self.seen@[last].1));
            }
            self.found = Some((kind, raw_address));
        }
        selected
    }

    /// Takes the found address, if any: it was offered since the last reset
    /// in an advertisement that identifies an Xbox controller and that the
    /// selector admits.
    pub fn take(&mut self) -> (found: Option<(K, [u8; 6])>)
        ensures
            found == old(self).spec_found(),
            found matches Some(f) ==> selected_among(old(self).spec_selector(), old(self).spec_seen(), f.1),
            final(self).spec_found() is None,
            final(self).spec_selector() == old(self).spec_selector(),
            final(self).spec_seen() == old(self).spec_seen(),
    {
        proof {
            use_type_invariant(&*self);
        }
        let selector = self.selector;
        let ghost seen = self.seen@;
        let mut previous = Discovery { selector, found: None, seen: Ghost(seen) };
        std::mem::swap(self, &mut previous);
        previous.found
    }
}

/// Discovery never picks an address out of thin air: whatever a scan takes
/// after its reset was announced, during that scan, by an advertisement that
/// identifies an Xbox controller (by name or HID service) and that the
/// selector admits; an address match alone never suffices.
pub proof fn lemma_taken_address_was_selected(
    selector: ControllerSelector,
    seen: Seq<(Seq<u8>, [u8; 6])>,
    raw_address: [u8; 6],
)
    requires
        selected_among(selector, seen, raw_address),
    ensures
        exists|i: int|
            0 <= i < seen.len() && seen[i].1 == raw_address && #[trigger] fields_identify_xbox(
                decoded_ad_fields(seen[i].0),
            ) && selector_admits(selector, raw_address),
{
    let i = choose|i: int|
        0 <= i < seen.len() && seen[i].1 == raw_address && #[trigger] advertisement_selects(
            selector,
            seen[i].0,
            seen[i].1,
        );
    assert(fields_identify_xbox(decoded_ad_fields(seen[i].0)));
}

/// A selector by address admits exactly one raw address: the six displayed
/// bytes in reverse order. Any address that differs in any byte is refused;
/// `AnyXbox` admits every address.
pub proof fn lemma_selector_admits_exactly_its_address(expected: [u8; 6], raw_address: [u8; 6])
    ensures
        selector_admits(ControllerSelector::Address(expected), raw_address) <==> (raw_address[0]
            == expected[5] && raw_address[1] == expected[4] && raw_address[2] == expected[3]
            && raw_address[3] == expected[2] && raw_address[4] == expected[1] && raw_address[5]
            == expected[0]),
        selector_admits(ControllerSelector::AnyXbox, raw_address),
{
    if raw_address[0] == expected[5] && raw_address[1] == expected[4] && raw_address[2]
        == expected[3] && raw_address[3] == expected[2] && raw_address[4] == expected[1]
        && raw_address[5] == expected[0] {
        assert forall|k: int| 0 <= k < 6 implies #[trigger] expected[k] == raw_address[5 - k] by {
            if k == 0 {
            } else if k == 1 {
            } else if k == 2 {
            } else if k == 3 {
            } else if k == 4 {
            } else {
            }
        }
    }
    if selector_admits(ControllerSelector::Address(expected), raw_address) {
        assert(expected[0] == raw_address[5 - 0]);
        assert(expected[1] == raw_address[5 - 1]);
        assert(expected[2] == raw_address[5 - 2]);
        assert(expected[3] == raw_address[5 - 3]);
        assert(expected[4] == raw_address[5 - 4]);
        assert(expected[5] == raw_address[5 - 5]);
    }
}

/// What identifies an Xbox controller in one advertising structure: a
/// complete or shortened local name that is exactly "Xbox Wireless
/// Controller", or a 16-bit service UUID list (complete or not) that holds the
/// HID service 0x1812 (little-endian bytes 0x12, 0x18); nothing else does.
pub proof fn lemma_xbox_identification(name: Seq<u8>, uuids: Seq<[u8; 2]>)
    ensures
        field_identifies_xbox(AdFieldView::CompleteLocalName(name)) <==> name == seq![0x58u8, 0x62, 0x6f, 0x78, 0x20, 0x57, 0x69, 0x72, 0x65, 0x6c, 0x65, 0x73, 0x73, 0x20, 0x43, 0x6f, 0x6e, 0x74, 0x72, 0x6f, 0x6c, 0x6c, 0x65, 0x72],
        field_identifies_xbox(AdFieldView::ShortenedLocalName(name)) <==> name == seq![0x58u8, 0x62, 0x6f, 0x78, 0x20, 0x57, 0x69, 0x72, 0x65, 0x6c, 0x65, 0x73, 0x73, 0x20, 0x43, 0x6f, 0x6e, 0x74, 0x72, 0x6f, 0x6c, 0x6c, 0x65, 0x72],
        field_identifies_xbox(AdFieldView::CompleteServiceUuids16(uuids)) <==> exists|i: int|
            0 <= i < uuids.len() && #[trigger] uuids[i] == [0x12u8, 0x18u8],
        field_identifies_xbox(AdFieldView::IncompleteServiceUuids16(uuids)) <==> exists|i: int|
            0 <= i < uuids.len() && #[trigger] uuids[i] == [0x12u8, 0x18u8],
        !field_identifies_xbox(AdFieldView::Other),
        !field_identifies_xbox(AdFieldView::Malformed),
{
    assert(xbox_name() =~= seq![0x58u8, 0x62, 0x6f, 0x78, 0x20, 0x57, 0x69, 0x72, 0x65, 0x6c, 0x65, 0x73, 0x73, 0x20, 0x43, 0x6f, 0x6e, 0x74, 0x72, 0x6f, 0x6c, 0x6c, 0x65, 0x72]);
    if lists_hid_service(uuids) {
        let i = choose|i: int| 0 <= i < uuids.len() && #[trigger] uuids[i][0] == 0x12 && uuids[i][1] == 0x18;
        assert(uuids[i] =~= [0x12u8, 0x18u8]);
    }
    if exists|i: int| 0 <= i < uuids.len() && #[trigger] uuids[i] == [0x12u8, 0x18u8] {
        let i = choose|i: int| 0 <= i < uuids.len() && #[trigger] uuids[i] == [0x12u8, 0x18u8];
        assert(uuids[i][0] == 0x12 && uuids[i][1] == 0x18);
    }
}

} // verus!
