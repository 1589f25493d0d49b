//! Network and hardware addresses as plain values, and the text form of a
//! hardware address.

use macaddr::MacAddr;
use std::str::FromStr;
use vstd::prelude::*;
use vstd::string::StringExecFns;

verus! {

/// An IP address: the 32 bits of a version 4 address or the 128 bits of a
/// version 6 address, most significant octet first.
#[derive(Clone, Copy, Debug, PartialEq, Eq, Structural)]
pub enum IpAddress {
    V4(u32),
    V6(u128),
}

impl IpAddress {
    /// Whether the address lies in `127.0.0.0/8` or is `::1`.
    pub open spec fn spec_is_loopback(self) -> bool {
        match self {
            IpAddress::V4(bits) => 0x7F00_0000 <= bits <= 0x7FFF_FFFF,
            IpAddress::V6(bits) => bits == 1,
        }
    }

    /// Tells whether this is a loopback address.
    pub fn is_loopback(&self) -> (loopback: bool)
        ensures
            loopback == self.spec_is_loopback(),
    {
        match self {
            IpAddress::V4(bits) => 0x7F00_0000 <= *bits && *bits <= 0x7FFF_FFFF,
            IpAddress::V6(bits) => *bits == 1,
        }
    }
}

/// A hardware address of six octets (EUI-48) or eight (EUI-64).
#[derive(Clone, Copy, Debug, PartialEq, Eq)]
pub enum MacAddress {
    V6([u8; 6]),
    V8([u8; 8]),
}

impl View for MacAddress {
    type V = Seq<u8>;

    open spec fn view(&self) -> Seq<u8> {
        match self {
            MacAddress::V6(octets) => octets@,
            MacAddress::V8(octets) => octets@,
        }
    }
}

impl MacAddress {
    /// Whether this is the six-octet address made of zeros.
    pub open spec fn is_nil(self) -> bool {
        self is V6 && self@ == Seq::new(6, |i: int| 0u8)
    }

    /// The six-octet address made of zeros, which stands for a caller on
    /// the loopback interface.
    pub fn nil() -> (mac: MacAddress)
        ensures
            mac.is_nil(),
    {
        let mac = MacAddress::V6([0u8; 6]);
        assert(mac@ =~= Seq::new(6, |i: int| 0u8));
        mac
    }

    /// The octets of the address, in order.
    pub fn octets(&self) -> (octets: Vec<u8>)
        ensures
            octets@ == self@,
    {
        let mut octets: Vec<u8> = Vec::new();
        match self {
            MacAddress::V6(a) => {
                let mut i: usize = 0;
                while i < 6
                    invariant
                        i <= 6,
                        octets@ == a@.take(i as int),
                    decreases 6 - i,
                {
                    octets.push(a[i]);
                    i += 1;
                    assert(octets@ =~= a@.take(i as int));
                }
                assert(a@.take(6) =~= a@);
            },
            MacAddress::V8(a) => {
                let mut i: usize = 0;
                while i < 8
                    invariant
                        i <= 8,
                        octets@ == a@.take(i as int),
                    decreases 8 - i,
                {
                    octets.push(a[i]);
                    i += 1;
                    assert(octets@ =~= a@.take(i as int));
                }
                assert(a@.take(8) =~= a@);
            },
        }
        octets
    }
}

/// The upper-case hexadecimal digit of a value below 16.
pub open spec fn hex_digit(value: u8) -> char {
    if value == 0 {
        '0'
    } else if value == 1 {
        '1'
    } else if value == 2 {
        '2'
    } else if value == 3 {
        '3'
    } else if value == 4 {
        '4'
    } else if value == 5 {
        '5'
    } else if value == 6 {
        '6'
    } else if value == 7 {
        '7'
    } else if value == 8 {
        '8'
    } else if value == 9 {
        '9'
    } else if value == 10 {
        'A'
    } else if value == 11 {
        'B'
    } else if value == 12 {
        'C'
    } else if value == 13 {
        'D'
    } else if value == 14 {
        'E'
    } else {
        'F'
    }
}

/// The two hexadecimal digits of an octet, high digit first.
pub open spec fn hex_pair(octet: u8) -> Seq<char> {
    seq![hex_digit(octet / 16), hex_digit(octet % 16)]
}

/// The text form of a run of octets: each octet as two upper-case
/// hexadecimal digits, with a colon between neighbours.
pub open spec fn hex_colon_text(octets: Seq<u8>) -> Seq<char>
    decreases octets.len(),
{
    if octets.len() == 0 {
        Seq::empty()
    } else if octets.len() == 1 {
        hex_pair(octets[0])
    } else {
        hex_colon_text(octets.drop_last()) + seq![':'] + hex_pair(octets.last())
    }
}

fn hex_digit_text(value: u8) -> (text: &'static str)
    requires
        value < 16,
    ensures
        text@ == seq![hex_digit(value)],
{
    proof {
        reveal_strlit("0");
        reveal_strlit("1");
        reveal_strlit("2");
        reveal_strlit("3");
        reveal_strlit("4");
        reveal_strlit("5");
        reveal_strlit("6");
        reveal_strlit("7");
        reveal_strlit("8");
        reveal_strlit("9");
        reveal_strlit("A");
        reveal_strlit("B");
        reveal_strlit("C");
        reveal_strlit("D");
        reveal_strlit("E");
        reveal_strlit("F");
    }
    let text = match value {
        0 => "0",
        1 => "1",
        2 => "2",
        3 => "3",
        4 => "4",
        5 => "5",
        6 => "6",
        7 => "7",
        8 => "8",
        9 => "9",
        10 => "A",
        11 => "B",
        12 => "C",
        13 => "D",
        14 => "E",
        _ => "F",
    };
    assert(text@ =~= seq![hex_digit(value)]);
    text
}

/// Writes octets as colon-separated upper-case hexadecimal pairs.
pub fn hex_colon_string(octets: &Vec<u8>) -> (text: String)
    ensures
        text@ == hex_colon_text(octets@),
{
    let mut text = String::new();
    let mut i: usize = 0;
    while i < octets.len()
        invariant
            i <= octets.len(),
            text@ == hex_colon_text(octets@.take(i as int)),
        decreases octets.len() - i,
    {
        let octet = octets[i];
        if i > 0 {
            proof {
                reveal_strlit(":");
            }
            text.append(":");
        }
        text.append(hex_digit_text(octet / 16));
        text.append(hex_digit_text(octet % 16));
        proof {
            let before = octets@.take(i as int);
            let after = octets@.take(i + 1);
            assert(after.drop_last() =~= before);
            assert(after.last() == octet);
            if i == 0 {
                assert(text@ =~= hex_pair(octet));
            } else {
                assert(text@ =~= hex_colon_text(before) + seq![':'] + hex_pair(octet));
            }
        }
        i += 1;
    }
    assert(octets@.take(i as int) =~= octets@);
    text
}

/// What `macaddr` reads out of a text: the octets of the address it finds
/// there, or nothing where it rejects the text.
pub uninterp spec fn parsed_mac_octets(text: Seq<char>) -> Option<Seq<u8>>;

/// The parser reads back the written form of six or eight octets: where
/// the text is that form, the address was accepted and has those octets.
pub open spec fn accepts_written_form(
    parsed: Option<MacAddress>,
    text: Seq<char>,
    octets: Seq<u8>,
) -> bool {
    (octets.len() == 6 || octets.len() == 8) && text == hex_colon_text(octets) ==> (parsed matches Some(
        mac,
    ) && mac@ == octets)
}

/// Reads a hardware address with `macaddr::MacAddr::from_str`.
///
/// Taken on trust: the parser's answer depends on the text alone, so it is
/// `parsed_mac_octets` of that text; an accepted address comes back with the
/// octets the parser produced, a rejected text as `None`. And the parser
/// reads back the form in which `macaddr` itself writes an address: six
/// or eight octets as upper-case hexadecimal pairs with colons between
/// them are accepted, and give those octets.
#[verifier::external_body]
fn parse_mac_text(text: &str) -> (parsed: Option<MacAddress>)
    ensures
        parsed matches Some(mac) ==> parsed_mac_octets(text@) == Some(mac@),
        parsed is None ==> parsed_mac_octets(text@) is None,
        forall|octets: Seq<u8>| #[trigger] accepts_written_form(parsed, text@, octets),
{
    match MacAddr::from_str(text) {
        Ok(MacAddr::V6(mac)) => Some(MacAddress::V6(mac.into_array())),
        Ok(MacAddr::V8(mac)) => Some(MacAddress::V8(mac.into_array())),
        Err(_) => None,
    }
}

/// The address that a link-layer attribute of the given octets stands for.
/// Six octets are an EUI-48 address and eight an EUI-64 address, as they
/// stand. For any other number of octets it is what the parser reads out
/// of the octets' text form.
pub open spec fn link_layer_mac(octets: Seq<u8>) -> Option<Seq<u8>> {
    if octets.len() == 6 || octets.len() == 8 {
        Some(octets)
    } else {
        parsed_mac_octets(hex_colon_text(octets))
    }
}

impl MacAddress {
    /// Turns the octets of a link-layer attribute into a hardware address, by
    /// way of their text form. Six or eight octets give the address of those
    /// octets; for any other number the parser decides.
    pub fn from_link_layer(octets: &Vec<u8>) -> (parsed: Option<MacAddress>)
        ensures
            parsed matches Some(mac) ==> link_layer_mac(octets@) == Some(mac@),
            parsed is None ==> link_layer_mac(octets@) is None,
    {
        let text = hex_colon_string(octets);
        let parsed = parse_mac_text(text.as_str());
        assert(accepts_written_form(parsed, text@, octets@));
        parsed
    }
}

} // verus!
