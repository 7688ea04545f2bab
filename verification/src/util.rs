use vstd::prelude::*;
use vstd::slice::slice_index_get;
use vstd::slice::slice_subrange;
use vstd::string::StringSliceAdditionalSpecFns;

verus! {

/// The lowercase hexadecimal digit for a value below sixteen.
pub open spec fn spec_hex_digit(d: u8) -> char
    recommends
        d < 16,
{
    if d < 10 {
        ((d + 48) as u8) as char
    } else {
        ((d + 87) as u8) as char
    }
}

/// The two lowercase hexadecimal digits of one byte.
pub open spec fn spec_byte_hex(b: u8) -> Seq<char> {
    seq![spec_hex_digit(b / 16), spec_hex_digit(b % 16)]
}

/// Bytes rendered as colon-separated lowercase hex pairs, the usual
/// presentation of a Bluetooth device address.
pub open spec fn spec_mac_string(bytes: Seq<u8>) -> Seq<char>
    decreases bytes.len(),
{
    if bytes.len() == 0 {
        Seq::empty()
    } else if bytes.len() == 1 {
        spec_byte_hex(bytes[0])
    } else {
        spec_mac_string(bytes.drop_last()) + seq![':'] + spec_byte_hex(bytes.last())
    }
}

/// Relies on String::push: appends exactly the given character.
#[verifier::external_body]
fn push_char(s: &mut String, c: char)
    ensures
        final(s)@ == old(s)@.push(c),
{
    s.push(c);
}

fn hex_digit(d: u8) -> (c: char)
    requires
        d < 16,
    ensures
        c == spec_hex_digit(d),
{
    if d < 10 {
        (d + 48) as char
    } else {
        (d + 87) as char
    }
}

/// Renders a byte string as colon-separated lowercase hex pairs.
pub fn address_bytes_to_string(address: &[u8]) -> (s: String)
    ensures
        s@ == spec_mac_string(address@),
{
    let mut s = String::new();
    let mut i: usize = 0;
    while i < address.len()
        invariant
            0 <= i <= address@.len(),
            s@ == spec_mac_string(address@.take(i as int)),
        decreases address@.len() - i,
    {
        let b: u8 = *slice_index_get(address, i);
        if i > 0 {
            push_char(&mut s, ':');
        }
        push_char(&mut s, hex_digit(b / 16));
        push_char(&mut s, hex_digit(b % 16));
        i = i + 1;
        proof {
            let taken = address@.take(i as int);
            assert(taken.last() == address@[i - 1]);
            assert(taken.drop_last() =~= address@.take(i - 1));
            if i > 1 {
                assert(s@ =~= spec_mac_string(taken.drop_last()) + seq![':'] + spec_byte_hex(
                    taken.last(),
                ));
            } else {
                assert(s@ =~= spec_byte_hex(taken.last()));
            }
        }
    }
    proof {
        assert(address@.take(address@.len() as int) =~= address@);
    }
    s
}

/// The six low-order bytes of a 48-bit address, most significant first.
pub open spec fn spec_u48_bytes(address: u64) -> Seq<u8> {
    seq![
        ((address >> 40) & 0xff) as u8,
        ((address >> 32) & 0xff) as u8,
        ((address >> 24) & 0xff) as u8,
        ((address >> 16) & 0xff) as u8,
        ((address >> 8) & 0xff) as u8,
        (address & 0xff) as u8,
    ]
}

/// Renders a 48-bit address held in the low bytes of a word as
/// colon-separated lowercase hex pairs.
pub fn long_address_to_string(address: u64) -> (s: String)
    requires
        address < 0x1000000000000,
    ensures
        s@ == spec_mac_string(spec_u48_bytes(address)),
{
    proof {
        assert((address >> 40) & 0xff < 256 && (address >> 32) & 0xff < 256 && (address >> 24)
            & 0xff < 256 && (address >> 16) & 0xff < 256 && (address >> 8) & 0xff < 256 && address
            & 0xff < 256) by (bit_vector);
    }
    let mut bytes: Vec<u8> = Vec::new();
    bytes.push(((address >> 40) & 0xff) as u8);
    bytes.push(((address >> 32) & 0xff) as u8);
    bytes.push(((address >> 24) & 0xff) as u8);
    bytes.push(((address >> 16) & 0xff) as u8);
    bytes.push(((address >> 8) & 0xff) as u8);
    bytes.push((address & 0xff) as u8);
    proof {
        assert(bytes@ =~= spec_u48_bytes(address));
    }
    address_bytes_to_string(bytes.as_slice())
}

/// A byte reinterpreted as a signed byte, two's complement.
pub open spec fn spec_i8_of(b: u8) -> i8 {
    if b < 128 {
        b as i8
    } else {
        (b - 256) as i8
    }
}

/// Copies a string's bytes into a NUL-terminated signed-byte buffer of
/// the shape the OS's narrow-character calls take.
pub fn str_to_os_str(s: &str) -> (r: Vec<i8>)
    ensures
        r@.len() == s.spec_bytes().len() + 1,
        forall|i: int|
            0 <= i < s.spec_bytes().len() ==> r@[i] == spec_i8_of(s.spec_bytes()[i]),
        r@[r@.len() - 1] == 0,
{
    let bytes: &[u8] = s.as_bytes();
    let mut r: Vec<i8> = Vec::new();
    let mut i: usize = 0;
    while i < bytes.len()
        invariant
            0 <= i <= bytes@.len(),
            r@.len() == i,
            forall|j: int| 0 <= j < i ==> r@[j] == spec_i8_of(bytes@[j]),
        decreases bytes@.len() - i,
    {
        let b: u8 = *slice_index_get(bytes, i);
        let v: i8 = if b < 128 {
            b as i8
        } else {
            ((b as i16) - 256) as i8
        };
        r.push(v);
        i = i + 1;
    }
    r.push(0);
    r
}

/// A word rendered the way hexadecimal literals are written: a `0x`
/// prefix and exactly four lowercase digits.
pub open spec fn spec_u16_hex(v: u16) -> Seq<char> {
    seq![
        '0',
        'x',
        spec_hex_digit((v / 0x1000) as u8),
        spec_hex_digit(((v / 0x100) % 16) as u8),
        spec_hex_digit(((v / 16) % 16) as u8),
        spec_hex_digit((v % 16) as u8),
    ]
}

/// Renders a word as a `0x`-prefixed, four-digit lowercase hexadecimal
/// literal.
pub fn u16_hex(v: u16) -> (s: String)
    ensures
        s@ == spec_u16_hex(v),
{
    let mut s = String::new();
    push_char(&mut s, '0');
    push_char(&mut s, 'x');
    push_char(&mut s, hex_digit((v / 0x1000) as u8));
    push_char(&mut s, hex_digit(((v / 0x100) % 16) as u8));
    push_char(&mut s, hex_digit(((v / 16) % 16) as u8));
    push_char(&mut s, hex_digit((v % 16) as u8));
    proof {
        assert(s@ =~= spec_u16_hex(v));
    }
    s
}

/// The index of the first NUL byte, or the length when there is none.
pub open spec fn spec_first_nul(bytes: Seq<u8>) -> int
    decreases bytes.len(),
{
    if bytes.len() == 0 {
        0
    } else if bytes[0] == 0 {
        0
    } else {
        1 + spec_first_nul(bytes.drop_first())
    }
}

/// The bytes before the first NUL, the payload of a NUL-terminated buffer.
pub open spec fn spec_nul_prefix(bytes: Seq<u8>) -> Seq<u8> {
    bytes.take(spec_first_nul(bytes))
}

proof fn lemma_first_nul_characterization(bytes: Seq<u8>, i: int)
    requires
        0 <= i <= bytes.len(),
        forall|j: int| 0 <= j < i ==> bytes[j] != 0,
        i < bytes.len() ==> bytes[i] == 0,
    ensures
        spec_first_nul(bytes) == i,
    decreases bytes.len(),
{
    if bytes.len() > 0 && bytes[0] != 0 {
        lemma_first_nul_characterization(bytes.drop_first(), i - 1);
    }
}

/// Relies on str::from_utf8: decodes the bytes when they are valid
/// UTF-8 and reports the failure otherwise.
#[verifier::external_body]
fn utf8_to_string(bytes: &[u8]) -> (r: Option<String>)
    ensures
        r matches Some(s) ==> vstd::utf8::valid_utf8(bytes@) && s@ == vstd::utf8::decode_utf8(
            bytes@,
        ),
        r is None ==> !vstd::utf8::valid_utf8(bytes@),
{
    match std::str::from_utf8(bytes) {
        Ok(s) => Some(s.to_owned()),
        Err(_) => None,
    }
}

/// Decodes a NUL-terminated byte buffer, truncating at the first NUL,
/// the form in which the OS hands back path strings and registry
/// properties. Reports the failure when the truncated payload is not
/// valid UTF-8.
pub fn try_bytes_to_str(bytes: &[u8]) -> (r: Option<String>)
    ensures
        r matches Some(s) ==> vstd::utf8::valid_utf8(spec_nul_prefix(bytes@)) && s@
            == vstd::utf8::decode_utf8(spec_nul_prefix(bytes@)),
        r is None ==> !vstd::utf8::valid_utf8(spec_nul_prefix(bytes@)),
{
    let mut i: usize = 0;
    while i < bytes.len() && *slice_index_get(bytes, i) != 0
        invariant
            0 <= i <= bytes@.len(),
            forall|j: int| 0 <= j < i ==> bytes@[j] != 0,
        decreases bytes@.len() - i,
    {
        i = i + 1;
    }
    proof {
        lemma_first_nul_characterization(bytes@, i as int);
    }
    let prefix: &[u8] = slice_subrange(bytes, 0, i);
    utf8_to_string(prefix)
}

/// Decodes a NUL-terminated byte buffer known to hold valid UTF-8 up to
/// its first NUL.
pub fn bytes_to_str(bytes: &[u8]) -> (r: String)
    requires
        vstd::utf8::valid_utf8(spec_nul_prefix(bytes@)),
    ensures
        r@ == vstd::utf8::decode_utf8(spec_nul_prefix(bytes@)),
{
    match try_bytes_to_str(bytes) {
        Some(s) => s,
        None => vstd::pervasive::unreached(),
    }
}

/// Whether the second string occurs contiguously inside the first.
pub open spec fn spec_str_contains(hay: Seq<char>, needle: Seq<char>) -> bool {
    exists|i: int|
        0 <= i && i + needle.len() <= hay.len() && #[trigger] hay.subrange(i, i + needle.len())
            == needle
}

fn matches_at(hay: &str, hay_len: usize, needle: &str, needle_len: usize, at: usize) -> (r: bool)
    requires
        hay_len == hay@.len(),
        needle_len == needle@.len(),
        at + needle_len <= hay_len,
    ensures
        r == (hay@.subrange(at as int, at + needle@.len()) == needle@),
{
    let mut j: usize = 0;
    while j < needle_len
        invariant
            0 <= j <= needle_len,
            hay_len == hay@.len(),
            needle_len == needle@.len(),
            at + needle_len <= hay_len,
            forall|k: int| 0 <= k < j ==> hay@[at + k] == needle@[k],
        decreases needle_len - j,
    {
        if hay.get_char(at + j) != needle.get_char(j) {
            proof {
                assert(hay@.subrange(at as int, at + needle@.len())[j as int] != needle@[j as int]);
            }
            return false;
        }
        j = j + 1;
    }
    proof {
        assert(hay@.subrange(at as int, at + needle@.len()) =~= needle@);
    }
    true
}

/// Whether one string occurs contiguously inside another.
pub fn str_contains(hay: &str, needle: &str) -> (r: bool)
    ensures
        r == spec_str_contains(hay@, needle@),
{
    let hay_len: usize = hay.unicode_len();
    let needle_len: usize = needle.unicode_len();
    if needle_len > hay_len {
        proof {
            assert(!spec_str_contains(hay@, needle@));
        }
        return false;
    }
    if needle_len == 0 {
        proof {
            assert(hay@.subrange(0, 0 + needle@.len() as int) =~= needle@);
        }
        return true;
    }
    let last: usize = hay_len - needle_len;
    let mut i: usize = 0;
    while i <= last
        invariant
            0 <= i <= last + 1,
            last == hay_len - needle_len,
            hay_len == hay@.len(),
            needle_len == needle@.len(),
            1 <= needle_len <= hay_len,
            forall|k: int|
                0 <= k < i ==> #[trigger] hay@.subrange(k, k + needle@.len()) != needle@,
        decreases last - i + 1,
    {
        if matches_at(hay, hay_len, needle, needle_len, i) {
            return true;
        }
        i = i + 1;
    }
    proof {
        assert(!spec_str_contains(hay@, needle@));
    }
    false
}

} // verus!
