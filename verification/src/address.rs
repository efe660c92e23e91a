//! Hardware addresses of devices: six octets, the key of every map in this crate.

use vstd::prelude::*;
use vstd::string::StringExecFns;

verus! {

/// The unique hardware identifier of a device.
#[derive(Clone, Copy, Debug, PartialEq, Eq, Hash)]
pub struct Address(pub [u8; 6]);

/// The sixteen upper-case hexadecimal digits, in order of value.
pub open spec fn hex_digits() -> Seq<char> {
    seq!['0', '1', '2', '3', '4', '5', '6', '7', '8', '9', 'A', 'B', 'C', 'D', 'E', 'F']
}

/// The two upper-case hexadecimal digits of one octet, high digit first.
pub open spec fn octet_text(octet: u8) -> Seq<char> {
    seq![hex_digits()[octet as int / 16], hex_digits()[octet as int % 16]]
}

/// The text of an address: its six octets in hexadecimal, separated by colons.
pub open spec fn address_text(octets: Seq<u8>) -> Seq<char>
    recommends
        octets.len() == 6,
{
    octet_text(octets[0]) + seq![':'] + octet_text(octets[1]) + seq![':'] + octet_text(octets[2])
        + seq![':'] + octet_text(octets[3]) + seq![':'] + octet_text(octets[4]) + seq![':']
        + octet_text(octets[5])
}

/// The number that the six octets spell when read as one big-endian integer.
pub open spec fn octets_key(octets: Seq<u8>) -> int
    recommends
        octets.len() == 6,
{
    octets[0] as int * 0x100_0000_0000 + octets[1] as int * 0x1_0000_0000 + octets[2] as int
        * 0x100_0000 + octets[3] as int * 0x1_0000 + octets[4] as int * 0x100 + octets[5] as int
}

/// The one-character text of a hexadecimal digit.
fn digit_str(value: u8) -> (text: &'static str)
    requires
        value < 16,
    ensures
        text@ == seq![hex_digits()[value as int]],
{
    proof {
        reveal_strlit("0");
        reveal_strlit("1");
        reveal_strlit("2");
        reveal_strlit("3");
        reveal_strlit("4");
        reveal_strlit("5");
        reveal_strlit("6");
        reveal_strlit("7");
        reveal_strlit("8");
        reveal_strlit("9");
        reveal_strlit("A");
        reveal_strlit("B");
        reveal_strlit("C");
        reveal_strlit("D");
        reveal_strlit("E");
        reveal_strlit("F");
    }
    let text = match value {
        0 => "0",
        1 => "1",
        2 => "2",
        3 => "3",
        4 => "4",
        5 => "5",
        6 => "6",
        7 => "7",
        8 => "8",
        9 => "9",
        10 => "A",
        11 => "B",
        12 => "C",
        13 => "D",
        14 => "E",
        _ => "F",
    };
    assert(text@ =~= seq![hex_digits()[value as int]]);
    text
}

/// Appends the two hexadecimal digits of `octet` to `out`.
fn push_octet(out: &mut String, octet: u8)
    ensures
        final(out)@ == old(out)@ + octet_text(octet),
{
    out.append(digit_str(octet / 16));
    out.append(digit_str(octet % 16));
    assert(out@ =~= old(out)@ + octet_text(octet));
}

impl Address {
    /// The six octets, first octet first.
    pub open spec fn octets(self) -> Seq<u8> {
        self.0@
    }

    /// The address as one number below 2^48: the key under which maps hold it.
    pub open spec fn spec_key(self) -> int {
        octets_key(self.octets())
    }

    /// An address from its six octets.
    pub fn new(octets: [u8; 6]) -> (address: Address)
        ensures
            address.octets() == octets@,
            address == Address(octets),
    {
        Address(octets)
    }

    /// The address as one number: distinct addresses have distinct keys.
    pub fn key(&self) -> (key: u64)
        ensures
            key as int == self.spec_key(),
            key < 0x1_0000_0000_0000,
    {
        let mut key: u64 = 0;
        let mut i: usize = 0;
        while i < 6
            invariant
                i <= 6,
                i == 0 ==> key == 0,
                i == 1 ==> key as int == self.0@[0] as int,
                i == 2 ==> key as int == self.0@[0] as int * 0x100 + self.0@[1] as int,
                i == 3 ==> key as int == self.0@[0] as int * 0x1_0000 + self.0@[1] as int * 0x100
                    + self.0@[2] as int,
                i == 4 ==> key as int == self.0@[0] as int * 0x100_0000 + self.0@[1] as int
                    * 0x1_0000 + self.0@[2] as int * 0x100 + self.0@[3] as int,
                i == 5 ==> key as int == self.0@[0] as int * 0x1_0000_0000 + self.0@[1] as int
                    * 0x100_0000 + self.0@[2] as int * 0x1_0000 + self.0@[3] as int * 0x100
                    + self.0@[4] as int,
                i == 6 ==> key as int == octets_key(self.0@),
            decreases 6 - i,
        {
            key = key * 256 + self.0[i] as u64;
            i = i + 1;
        }
        key
    }

    /// The address as text: `AA:BB:CC:DD:EE:FF`.
    pub fn to_text(&self) -> (text: String)
        ensures
            text@ == address_text(self.octets()),
    {
        proof {
            reveal_strlit(":");
        }
        let mut text = String::new();
        push_octet(&mut text, self.0[0]);
        text.append(":");
        push_octet(&mut text, self.0[1]);
        text.append(":");
        push_octet(&mut text, self.0[2]);
        text.append(":");
        push_octet(&mut text, self.0[3]);
        text.append(":");
        push_octet(&mut text, self.0[4]);
        text.append(":");
        push_octet(&mut text, self.0[5]);
        assert(":"@ =~= seq![':']);
        assert(text@ =~= address_text(self.octets()));
        text
    }
}

/// Two addresses with the same key are the same address.
pub proof fn lemma_key_is_injective(a: Address, b: Address)
    requires
        a.spec_key() == b.spec_key(),
    ensures
        a == b,
{
    assert(a.0@.len() == 6 && b.0@.len() == 6);
    assert forall|i: int| 0 <= i < 6 implies a.0@[i] == b.0@[i] by {
        assert(a.0@[0] == b.0@[0]);
        assert(a.0@[1] == b.0@[1]);
        assert(a.0@[2] == b.0@[2]);
        assert(a.0@[3] == b.0@[3]);
        assert(a.0@[4] == b.0@[4]);
        assert(a.0@[5] == b.0@[5]);
    }
    assert(a.0@ =~= b.0@);
    assert(a.0 == b.0);
}

} // verus!
