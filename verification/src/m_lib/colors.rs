use vstd::prelude::*;
use vstd::string::StringSliceAdditionalSpecFns;

verus! {

/// The digits of a hexadecimal number and their values.
pub open spec fn hex_digit_value(c: u8) -> Option<u8> {
    if 0x30 <= c <= 0x39 {
        Some((c - 0x30) as u8)
    } else if 0x61 <= c <= 0x66 {
        Some((c - 0x61 + 10) as u8)
    } else if 0x41 <= c <= 0x46 {
        Some((c - 0x41 + 10) as u8)
    } else {
        None
    }
}

/// The value of a two-byte field read as an unsigned base-16 number: two
/// digits, or a plus sign and one digit.
pub open spec fn pair_value(c1: u8, c2: u8) -> Option<u8> {
    if c1 == 0x2b {
        hex_digit_value(c2)
    } else {
        match (hex_digit_value(c1), hex_digit_value(c2)) {
            (Some(h), Some(l)) => Some((h * 16 + l) as u8),
            _ => None,
        }
    }
}

/// The bytes left once every leading `#` is taken off.
pub open spec fn trim_hashes(s: Seq<u8>) -> Seq<u8>
    decreases s.len(),
{
    if s.len() > 0 && s[0] == 0x23 {
        trim_hashes(s.drop_first())
    } else {
        s
    }
}

/// The field starting at byte `i` of the trimmed color.
pub open spec fn field_at(t: Seq<u8>, i: int) -> Option<u8> {
    pair_value(t[i], t[i + 1])
}

/// The red, green, blue and alpha components written in a color code such as
/// `#1a2b3c` or `#1a2b3c4d`, or `None` where reading it fails: fewer than six
/// bytes after the leading `#`s, a field that is no base-16 number, or an
/// eight-byte code whose last field is none. Alpha is 0 unless the code has
/// exactly eight bytes after the `#`s; bytes past the sixth are otherwise ignored.
pub open spec fn spec_hex_rgba(s: Seq<u8>) -> Option<(u8, u8, u8, u8)> {
    let t = trim_hashes(s);
    if t.len() < 6 {
        None
    } else {
        match (field_at(t, 0), field_at(t, 2), field_at(t, 4)) {
            (Some(r), Some(g), Some(b)) => {
                if t.len() == 8 {
                    match field_at(t, 6) {
                        Some(a) => Some((r, g, b, a)),
                        None => None,
                    }
                } else {
                    Some((r, g, b, 0u8))
                }
            },
            _ => None,
        }
    }
}

/// A byte is a base-16 digit exactly when it is one of `0`-`9`, `a`-`f`,
/// `A`-`F`, and its value is then its place in that range (`a` and `A` are 10).
pub proof fn lemma_hex_digits(c: u8)
    ensures
        (hex_digit_value(c) is Some) == ((48 <= c && c <= 57) || (97 <= c && c <= 102) || (65 <= c && c <= 70)),
        48 <= c <= 57 ==> hex_digit_value(c) == Some((c - 48) as u8),
        97 <= c <= 102 ==> hex_digit_value(c) == Some((c - 97 + 10) as u8),
        65 <= c <= 70 ==> hex_digit_value(c) == Some((c - 65 + 10) as u8),
{
}

/// Value of a base-16 digit byte, by arithmetic on its code.
pub open spec fn digit_of(c: u8) -> int {
    if c <= 57 { c - 48 } else if c >= 97 { c - 87 } else { c - 55 }
}

/// Whether a byte is one of `0`-`9`, `a`-`f`, `A`-`F`.
pub open spec fn is_hex_byte(c: u8) -> bool {
    (48 <= c && c <= 57) || (97 <= c && c <= 102) || (65 <= c && c <= 70)
}

/// A code whose first six bytes after at most one leading `#` are base-16
/// digits reads as the three components, each 16 times its first digit plus
/// its second; alpha is read from the next two digits when exactly eight bytes
/// follow the `#`, and is 0 otherwise, whatever bytes come after the sixth.
pub proof fn lemma_digit_codes_read(s: Seq<u8>, h: int)
    requires
        h == 0 || h == 1,
        h == 1 ==> s[0] == 0x23,
        s.len() >= 6 + h,
        forall|j: int| h <= j < h + 6 ==> is_hex_byte(#[trigger] s[j]),
        s.len() == 8 + h ==> is_hex_byte(s[h + 6]) && is_hex_byte(s[h + 7]),
    ensures
        ({
            let r = spec_hex_rgba(s);
            let comp = |j: int| (16 * digit_of(s[h + j]) + digit_of(s[h + j + 1])) as u8;
            let alpha = if s.len() == 8 + h { comp(6) } else { 0u8 };
            r == Some((comp(0), comp(2), comp(4), alpha))
        }),
{
    let t = s.subrange(h, s.len() as int);
    if h == 1 {
        assert(s.drop_first() =~= t);
        assert(trim_hashes(s) == trim_hashes(t));
    } else {
        assert(s =~= t);
    }
    assert(is_hex_byte(s[h]));
    assert(trim_hashes(t) == t);
    assert forall|j: int| 0 <= j < 6 implies #[trigger] hex_digit_value(t[j]) == Some(digit_of(t[j]) as u8) by {
        assert(is_hex_byte(s[h + j]));
    }
    if t.len() == 8 {
        assert(hex_digit_value(t[6]) == Some(digit_of(t[6]) as u8));
        assert(hex_digit_value(t[7]) == Some(digit_of(t[7]) as u8));
    }
}

/// A two-byte field reads as 16 times its first digit plus its second; a plus
/// sign followed by one digit reads as that digit; any other field, one with a
/// byte that is neither a digit nor a leading plus sign, does not read.
pub proof fn lemma_field_reading(c1: u8, c2: u8)
    ensures
        is_hex_byte(c1) && is_hex_byte(c2) ==> pair_value(c1, c2) == Some((16 * digit_of(c1) + digit_of(c2)) as u8),
        c1 == 0x2b && is_hex_byte(c2) ==> pair_value(c1, c2) == Some(digit_of(c2) as u8),
        !is_hex_byte(c2) ==> pair_value(c1, c2) is None,
        !is_hex_byte(c1) && c1 != 0x2b ==> pair_value(c1, c2) is None,
{
}

/// Every leading `#` is passed over: a code with fewer than six bytes after
/// them does not read, nor does one with a byte among the first six after them
/// that is neither a digit nor a plus sign.
pub proof fn lemma_unreadable_codes(s: Seq<u8>, h: int)
    requires
        0 <= h <= s.len(),
        forall|j: int| 0 <= j < h ==> s[j] == 0x23,
        h == s.len() || s[h] != 0x23,
    ensures
        s.len() - h < 6 ==> spec_hex_rgba(s) is None,
        (exists|j: int| h <= j < h + 6 && j < s.len() && !is_hex_byte(#[trigger] s[j]) && s[j] != 0x2b)
            ==> spec_hex_rgba(s) is None,
{
    lemma_trim_hashes_skip(s, h);
    let t = s.subrange(h, s.len() as int);
    assert(t.len() == 0 || t[0] != 0x23);
    assert(trim_hashes(t) == t);
    if exists|j: int| h <= j < h + 6 && j < s.len() && !is_hex_byte(#[trigger] s[j]) && s[j] != 0x2b {
        let j = choose|j: int| h <= j < h + 6 && j < s.len() && !is_hex_byte(#[trigger] s[j]) && s[j] != 0x2b;
        if t.len() >= 6 {
            let k = j - h;
            assert(t[k] == s[j]);
            assert(hex_digit_value(t[k]) is None);
            if k % 2 == 0 {
                assert(pair_value(t[k], t[k + 1]) is None);
            } else {
                assert(pair_value(t[k - 1], t[k]) is None);
            }
            assert(k == 0 || k == 1 || k == 2 || k == 3 || k == 4 || k == 5);
        }
    }
}

fn hex_digit(c: u8) -> (r: Option<u8>)
    ensures
        r == hex_digit_value(c),
{
    if 0x30 <= c && c <= 0x39 {
        Some(c - 0x30)
    } else if 0x61 <= c && c <= 0x66 {
        Some(c - 0x61 + 10)
    } else if 0x41 <= c && c <= 0x46 {
        Some(c - 0x41 + 10)
    } else {
        None
    }
}

fn parse_pair(c1: u8, c2: u8) -> (r: Option<u8>)
    ensures
        r == pair_value(c1, c2),
{
    if c1 == 0x2b {
        hex_digit(c2)
    } else {
        match (hex_digit(c1), hex_digit(c2)) {
            (Some(h), Some(l)) => Some(h * 16 + l),
            _ => None,
        }
    }
}

proof fn lemma_trim_hashes_skip(s: Seq<u8>, n: int)
    requires
        0 <= n <= s.len(),
        forall|j: int| 0 <= j < n ==> s[j] == 0x23,
    ensures
        trim_hashes(s) == trim_hashes(s.subrange(n, s.len() as int)),
    decreases n,
{
    if n > 0 {
        assert(s.drop_first().subrange(n - 1, s.drop_first().len() as int) =~= s.subrange(n, s.len() as int));
        lemma_trim_hashes_skip(s.drop_first(), n - 1);
    } else {
        assert(s.subrange(0, s.len() as int) =~= s);
    }
}

/// Reads the components of a color code; `None` exactly where the code cannot be read.
pub fn try_hex_to_rgba_u8(hex: &str) -> (r: Option<(u8, u8, u8, u8)>)
    ensures
        r == spec_hex_rgba(hex.spec_bytes()),
{
    let bytes: &[u8] = hex.as_bytes();
    let mut start: usize = 0;
    while start < bytes.len() && bytes[start] == 0x23
        invariant
            0 <= start <= bytes.len(),
            bytes@ == hex.spec_bytes(),
            forall|j: int| 0 <= j < start ==> bytes@[j] == 0x23,
        decreases bytes.len() - start,
    {
        start = start + 1;
    }
    let ghost t = bytes@.subrange(start as int, bytes@.len() as int);
    proof {
        lemma_trim_hashes_skip(bytes@, start as int);
        assert(trim_hashes(t) == t);
    }
    let len: usize = bytes.len() - start;
    if len < 6 {
        return None;
    }
    let r = parse_pair(bytes[start], bytes[start + 1]);
    let g = parse_pair(bytes[start + 2], bytes[start + 3]);
    let b = parse_pair(bytes[start + 4], bytes[start + 5]);
    match (r, g, b) {
        (Some(r), Some(g), Some(b)) => {
            if len == 8 {
                match parse_pair(bytes[start + 6], bytes[start + 7]) {
                    Some(a) => Some((r, g, b, a)),
                    None => None,
                }
            } else {
                Some((r, g, b, 0))
            }
        },
        _ => None,
    }
}

/// Reads the components of a color code that can be read.
pub fn hex_to_rgba_u8(hex: &str) -> (r: (u8, u8, u8, u8))
    requires
        spec_hex_rgba(hex.spec_bytes()) is Some,
    ensures
        spec_hex_rgba(hex.spec_bytes()) == Some(r),
{
    match try_hex_to_rgba_u8(hex) {
        Some(c) => c,
        None => (0, 0, 0, 0),
    }
}

} // verus!
