use vstd::prelude::*;
use vstd::string::{StrSliceExecFns, StringExecFns};
use crate::pattern::{accepts, regex_accepts};

verus! {

/// Textual shape of an address: six pairs of hex digits joined by colons.
pub const ADDRESS_PATTERN: &'static str = r"^([0-9A-Fa-f]{2}(:[0-9A-Fa-f]{2}){5})$";

/// Message of the error that `assert_addr` returns.
pub const ADDRESS_ERROR: &'static str =
    "Invalid Bluetooth address format. Expected format in hexadecimal : XX:XX:XX:XX:XX:XX !";

/// A Bluetooth device address: six octets, most significant first.
#[derive(Clone, Copy, Debug, PartialEq, Eq, Hash)]
pub struct Address {
    pub octets: [u8; 6],
}

pub open spec fn is_hex_digit(c: char) -> bool {
    ('0' <= c && c <= '9') || ('a' <= c && c <= 'f') || ('A' <= c && c <= 'F')
}

pub open spec fn hex_value(c: char) -> int {
    if '0' <= c && c <= '9' {
        c as int - '0' as int
    } else if 'a' <= c && c <= 'f' {
        c as int - 'a' as int + 10
    } else {
        c as int - 'A' as int + 10
    }
}

/// Upper-case hex digit of a value below 16.
pub open spec fn hex_upper(n: int) -> char {
    "0123456789ABCDEF"@[n]
}

/// Seventeen characters: hex digit pairs at every position but each third one,
/// which holds a colon.
pub open spec fn has_address_shape(s: Seq<char>) -> bool {
    s.len() == 17 && forall|k: int|
        0 <= k < 17 ==> if k % 3 == 2 {
            s[k] == ':'
        } else {
            is_hex_digit(#[trigger] s[k])
        }
}

/// The octets that a text of address shape spells.
pub open spec fn parsed_octets(s: Seq<char>) -> Seq<u8> {
    Seq::new(6, |g: int| (hex_value(s[3 * g]) * 16 + hex_value(s[3 * g + 1])) as u8)
}

/// The address written as six upper-case hex pairs joined by `sep`.
pub open spec fn address_text(octets: Seq<u8>, sep: char) -> Seq<char> {
    Seq::new(
        17,
        |k: int|
            if k % 3 == 2 {
                sep
            } else if k % 3 == 0 {
                hex_upper(octets[k / 3] as int / 16)
            } else {
                hex_upper(octets[k / 3] as int % 16)
            },
    )
}

/// Value of a hex digit, or `None` for any other character.
pub fn hex_digit_value(c: char) -> (r: Option<u8>)
    ensures
        r is Some <==> is_hex_digit(c),
        r matches Some(v) ==> v as int == hex_value(c) && v < 16,
{
    if '0' <= c && c <= '9' {
        Some((c as u32 - '0' as u32) as u8)
    } else if 'a' <= c && c <= 'f' {
        Some((c as u32 - 'a' as u32 + 10) as u8)
    } else if 'A' <= c && c <= 'F' {
        Some((c as u32 - 'A' as u32 + 10) as u8)
    } else {
        None
    }
}

fn hex_digit_text(n: u8) -> (r: &'static str)
    requires
        n < 16,
    ensures
        r@ == seq![hex_upper(n as int)],
{
    let digits = "0123456789ABCDEF";
    proof {
        reveal_strlit("0123456789ABCDEF");
    }
    let r = digits.substring_char(n as usize, n as usize + 1);
    assert(r@ =~= seq![hex_upper(n as int)]);
    r
}

impl Address {
    pub fn new(octets: [u8; 6]) -> (r: Address)
        ensures
            r.octets@ == octets@,
    {
        Address { octets }
    }

    /// Whether two addresses are the same six octets.
    pub fn same_as(&self, other: &Address) -> (r: bool)
        ensures
            r == (self.octets@ == other.octets@),
    {
        let mut i: usize = 0;
        while i < 6
            invariant
                i <= 6,
                forall|k: int| 0 <= k < i ==> self.octets@[k] == other.octets@[k],
            decreases 6 - i,
        {
            if self.octets[i] != other.octets[i] {
                return false;
            }
            i = i + 1;
        }
        assert(self.octets@ =~= other.octets@);
        true
    }

    /// The address as six upper-case hex pairs joined by the single character `sep`.
    pub fn text_with(&self, sep: &str) -> (r: String)
        requires
            sep@.len() == 1,
        ensures
            r@ == address_text(self.octets@, sep@[0]),
    {
        let ghost full = address_text(self.octets@, sep@[0]);
        let mut s = String::new();
        let mut g: usize = 0;
        while g < 6
            invariant
                g <= 6,
                sep@.len() == 1,
                full == address_text(self.octets@, sep@[0]),
                g == 0 ==> s@.len() == 0,
                g > 0 ==> s@ =~= full.subrange(0, 3 * g - 1),
            decreases 6 - g,
        {
            let ghost before = s@;
            if g > 0 {
                s.append(sep);
            }
            let b = self.octets[g];
            s.append(hex_digit_text(b / 16));
            s.append(hex_digit_text(b % 16));
            assert(s@ =~= full.subrange(0, 3 * g + 2)) by {
                assert forall|k: int| 0 <= k < 3 * g + 2 implies s@[k] == full[k] by {
                    if k < 3 * g - 1 {
                        assert(s@[k] == before[k]);
                    }
                }
            }
            g = g + 1;
        }
        s
    }

    /// The address written as `XX:XX:XX:XX:XX:XX`.
    pub fn to_text(&self) -> (r: String)
        ensures
            r@ == address_text(self.octets@, ':'),
    {
        proof {
            reveal_strlit(":");
        }
        self.text_with(":")
    }
}

/// Reads a text of address shape into its six octets.
fn parse_octets(val: &str) -> (r: Address)
    requires
        has_address_shape(val@),
    ensures
        r.octets@ == parsed_octets(val@),
{
    let mut octets: [u8; 6] = [0u8; 6];
    let mut g: usize = 0;
    while g < 6
        invariant
            g <= 6,
            has_address_shape(val@),
            forall|k: int| 0 <= k < g ==> octets@[k] == parsed_octets(val@)[k],
        decreases 6 - g,
    {
        let hi = hex_digit_value(val.get_char(3 * g));
        let lo = hex_digit_value(val.get_char(3 * g + 1));
        assert(is_hex_digit(val@[3 * g as int]));
        assert(is_hex_digit(val@[3 * g + 1]));
        let h = hi.unwrap();
        let l = lo.unwrap();
        octets[g] = h * 16 + l;
        g = g + 1;
    }
    assert(octets@ =~= parsed_octets(val@));
    Address { octets }
}

/// Whether `val` has the shape of an address.
pub fn has_shape(val: &str) -> (r: bool)
    ensures
        r == has_address_shape(val@),
{
    if val.unicode_len() != 17 {
        return false;
    }
    let mut k: usize = 0;
    while k < 17
        invariant
            val@.len() == 17,
            k <= 17,
            forall|j: int|
                0 <= j < k ==> if j % 3 == 2 {
                    val@[j] == ':'
                } else {
                    is_hex_digit(#[trigger] val@[j])
                },
        decreases 17 - k,
    {
        let c = val.get_char(k);
        if k % 3 == 2 {
            if c != ':' {
                return false;
            }
        } else if hex_digit_value(c).is_none() {
            return false;
        }
        k = k + 1;
    }
    true
}

/// Checks that `val` is an address written as six hex pairs joined by colons,
/// and reads it.
pub fn assert_addr(val: &str) -> (r: Result<Address, String>)
    ensures
        r is Ok <==> regex_accepts(ADDRESS_PATTERN@, val@) && has_address_shape(val@),
        r matches Ok(a) ==> a.octets@ == parsed_octets(val@),
        r matches Err(msg) ==> msg@ == ADDRESS_ERROR@,
{
    if accepts(ADDRESS_PATTERN, val) && has_shape(val) {
        Ok(parse_octets(val))
    } else {
        Err(String::from_str(ADDRESS_ERROR))
    }
}

} // verus!
