use vstd::prelude::*;

verus! {

/// ASCII lowercase of one byte; other bytes are unchanged.
pub open spec fn ascii_lower(b: u8) -> u8 {
    if 0x41 <= b <= 0x5a {
        (b + 0x20) as u8
    } else {
        b
    }
}

/// ASCII lowercase of a byte string.
pub open spec fn lower_bytes(s: Seq<u8>) -> Seq<u8> {
    s.map_values(|b: u8| ascii_lower(b))
}

/// Whether `needle` occurs in `haystack`, ignoring ASCII case in `haystack`.
pub open spec fn contains_folded(haystack: Seq<u8>, needle: Seq<u8>) -> bool {
    exists|i: int|
        0 <= i && i + needle.len() <= haystack.len() && #[trigger] lower_bytes(
            haystack.subrange(i, i + needle.len()),
        ) == needle
}

/// `s` with every `':'` removed.
pub open spec fn without_colons(s: Seq<u8>) -> Seq<u8>
    decreases s.len(),
{
    if s.len() == 0 {
        s
    } else if s.last() == 0x3a {
        without_colons(s.drop_last())
    } else {
        without_colons(s.drop_last()).push(s.last())
    }
}

/// Lowercases one byte.
pub fn to_ascii_lower(b: u8) -> (r: u8)
    ensures
        r == ascii_lower(b),
{
    if 0x41 <= b && b <= 0x5a {
        b + 0x20
    } else {
        b
    }
}

/// Whether the window of `haystack` at `start` equals `needle` after lowercasing.
fn window_matches(haystack: &[u8], start: usize, needle: &[u8]) -> (b: bool)
    requires
        start + needle@.len() <= haystack.len(),
    ensures
        b == (lower_bytes(haystack@.subrange(start as int, start + needle@.len())) == needle@),
{
    let ghost window = haystack@.subrange(start as int, start + needle@.len());
    let mut k: usize = 0;
    while k < needle.len()
        invariant
            0 <= k <= needle@.len(),
            start + needle@.len() <= haystack.len(),
            window == haystack@.subrange(start as int, start + needle@.len()),
            forall|j: int| 0 <= j < k ==> ascii_lower(#[trigger] window[j]) == needle@[j],
        decreases needle@.len() - k,
    {
        if to_ascii_lower(haystack[start + k]) != needle[k] {
            assert(lower_bytes(window)[k as int] != needle@[k as int]);
            return false;
        }
        k = k + 1;
    }
    assert(lower_bytes(window) =~= needle@);
    true
}

/// Whether `needle` occurs in `haystack` after ASCII-lowercasing `haystack`.
pub fn contains_ignore_ascii_case(haystack: &[u8], needle: &[u8]) -> (b: bool)
    ensures
        b == contains_folded(haystack@, needle@),
{
    if needle.len() > haystack.len() {
        return false;
    }
    let last = haystack.len() - needle.len();
    let mut i: usize = 0;
    loop
        invariant_except_break
            0 <= i <= last,
            last + needle@.len() == haystack.len(),
            forall|j: int|
                0 <= j < i ==> #[trigger] lower_bytes(haystack@.subrange(j, j + needle@.len()))
                    != needle@,
        ensures
            last + needle@.len() == haystack.len(),
            forall|j: int|
                0 <= j <= last ==> #[trigger] lower_bytes(haystack@.subrange(j, j + needle@.len()))
                    != needle@,
        decreases last - i,
    {
        if window_matches(haystack, i, needle) {
            return true;
        }
        if i == last {
            break;
        }
        i = i + 1;
    }
    assert forall|j: int|
        0 <= j && j + needle@.len() <= haystack@.len() implies #[trigger] lower_bytes(
        haystack@.subrange(j, j + needle@.len()),
    ) != needle@ by {
        assert(j <= last);
    }
    false
}

/// Whether two byte strings are equal ignoring ASCII case.
pub fn eq_ignore_ascii_case(a: &[u8], b: &[u8]) -> (r: bool)
    ensures
        r == (lower_bytes(a@) == lower_bytes(b@)),
{
    if a.len() != b.len() {
        assert(lower_bytes(a@).len() != lower_bytes(b@).len());
        return false;
    }
    let mut k: usize = 0;
    while k < a.len()
        invariant
            0 <= k <= a@.len(),
            a@.len() == b@.len(),
            forall|j: int| 0 <= j < k ==> ascii_lower(#[trigger] a@[j]) == ascii_lower(b@[j]),
        decreases a@.len() - k,
    {
        if to_ascii_lower(a[k]) != to_ascii_lower(b[k]) {
            assert(lower_bytes(a@)[k as int] != lower_bytes(b@)[k as int]);
            return false;
        }
        k = k + 1;
    }
    assert(lower_bytes(a@) =~= lower_bytes(b@));
    true
}

/// Whether two byte strings are equal.
pub fn bytes_equal(a: &[u8], b: &[u8]) -> (r: bool)
    ensures
        r == (a@ == b@),
{
    if a.len() != b.len() {
        return false;
    }
    let mut k: usize = 0;
    while k < a.len()
        invariant
            0 <= k <= a@.len(),
            a@.len() == b@.len(),
            forall|j: int| 0 <= j < k ==> a@[j] == b@[j],
        decreases a@.len() - k,
    {
        if a[k] != b[k] {
            return false;
        }
        k = k + 1;
    }
    assert(a@ =~= b@);
    true
}

/// `s` with every `':'` removed and ASCII letters lowercased: the normalized
/// form of a Bluetooth address.
pub fn normalize_address(s: &[u8]) -> (r: Vec<u8>)
    ensures
        r@ == lower_bytes(without_colons(s@)),
{
    let mut out: Vec<u8> = Vec::new();
    let mut i: usize = 0;
    while i < s.len()
        invariant
            0 <= i <= s@.len(),
            out@ == lower_bytes(without_colons(s@.take(i as int))),
        decreases s@.len() - i,
    {
        assert(s@.take(i + 1).drop_last() =~= s@.take(i as int));
        if s[i] != 0x3a {
            out.push(to_ascii_lower(s[i]));
        }
        i = i + 1;
        assert(out@ =~= lower_bytes(without_colons(s@.take(i as int))));
    }
    assert(s@.take(s@.len() as int) =~= s@);
    out
}

/// Whether `needle` occurs in `haystack` exactly (case included).
pub open spec fn contains_exact(haystack: Seq<u8>, needle: Seq<u8>) -> bool {
    exists|i: int|
        0 <= i && i + needle.len() <= haystack.len() && #[trigger] haystack.subrange(
            i,
            i + needle.len(),
        ) == needle
}

/// Whether the window of `haystack` at `start` equals `needle`.
fn window_equals(haystack: &[u8], start: usize, needle: &[u8]) -> (b: bool)
    requires
        start + needle@.len() <= haystack.len(),
    ensures
        b == (haystack@.subrange(start as int, start + needle@.len()) == needle@),
{
    let ghost window = haystack@.subrange(start as int, start + needle@.len());
    let mut k: usize = 0;
    while k < needle.len()
        invariant
            0 <= k <= needle@.len(),
            start + needle@.len() <= haystack.len(),
            window == haystack@.subrange(start as int, start + needle@.len()),
            forall|j: int| 0 <= j < k ==> #[trigger] window[j] == needle@[j],
        decreases needle@.len() - k,
    {
        if haystack[start + k] != needle[k] {
            assert(window[k as int] != needle@[k as int]);
            return false;
        }
        k = k + 1;
    }
    assert(window =~= needle@);
    true
}

/// Whether `needle` occurs in `haystack`, case included.
pub fn contains_bytes(haystack: &[u8], needle: &[u8]) -> (b: bool)
    ensures
        b == contains_exact(haystack@, needle@),
{
    if needle.len() > haystack.len() {
        return false;
    }
    let last = haystack.len() - needle.len();
    let mut i: usize = 0;
    loop
        invariant_except_break
            0 <= i <= last,
            last + needle@.len() == haystack.len(),
            forall|j: int|
                0 <= j < i ==> #[trigger] haystack@.subrange(j, j + needle@.len()) != needle@,
        ensures
            last + needle@.len() == haystack.len(),
            forall|j: int|
                0 <= j <= last ==> #[trigger] haystack@.subrange(j, j + needle@.len()) != needle@,
        decreases last - i,
    {
        if window_equals(haystack, i, needle) {
            return true;
        }
        if i == last {
            break;
        }
        i = i + 1;
    }
    assert forall|j: int|
        0 <= j && j + needle@.len() <= haystack@.len() implies #[trigger] haystack@.subrange(
        j,
        j + needle@.len(),
    ) != needle@ by {
        assert(j <= last);
    }
    false
}

} // verus!
