//! Rendering of hardware addresses as colon-separated uppercase hexadecimal.

use vstd::prelude::*;
use vstd::string::StringExecFns;

verus! {

/// The sixteen uppercase hexadecimal digits, by value.
pub open spec fn hex_digits() -> Seq<char> {
    seq!['0', '1', '2', '3', '4', '5', '6', '7', '8', '9', 'A', 'B', 'C', 'D', 'E', 'F']
}

/// The text of a run of octets: two uppercase hexadecimal digits for each
/// octet, high nibble first, and a colon between neighbouring octets.
pub open spec fn colon_hex(octets: Seq<u8>) -> Seq<char> {
    Seq::new(
        if octets.len() == 0 { 0nat } else { (3 * octets.len() - 1) as nat },
        |i: int|
            if i % 3 == 0 {
                hex_digits()[octets[i / 3] as int / 16]
            } else if i % 3 == 1 {
                hex_digits()[octets[i / 3] as int % 16]
            } else {
                ':'
            },
    )
}

/// The one-character text of a nibble.
fn hex_str(nibble: u8) -> (text: &'static str)
    requires
        nibble < 16,
    ensures
        text@ == seq![hex_digits()[nibble as int]],
{
    proof {
        reveal_strlit("0");
        reveal_strlit("1");
        reveal_strlit("2");
        reveal_strlit("3");
        reveal_strlit("4");
        reveal_strlit("5");
        reveal_strlit("6");
        reveal_strlit("7");
        reveal_strlit("8");
        reveal_strlit("9");
        reveal_strlit("A");
        reveal_strlit("B");
        reveal_strlit("C");
        reveal_strlit("D");
        reveal_strlit("E");
        reveal_strlit("F");
    }
    let text = match nibble {
        0 => "0",
        1 => "1",
        2 => "2",
        3 => "3",
        4 => "4",
        5 => "5",
        6 => "6",
        7 => "7",
        8 => "8",
        9 => "9",
        10 => "A",
        11 => "B",
        12 => "C",
        13 => "D",
        14 => "E",
        _ => "F",
    };
    text
}

/// Renders a hardware address, e.g. `AA:BB:CC:DD:EE:FF`.
pub fn mac_text(octets: &[u8; 6]) -> (text: String)
    ensures
        text@ == colon_hex(octets@),
{
    let mut text = String::new();
    let mut i: usize = 0;
    while i < 6
        invariant
            i <= 6,
            octets@.len() == 6,
            text@ == colon_hex(octets@.take(i as int)),
        decreases 6 - i,
    {
        let octet: u8 = octets[i];
        if i > 0 {
            proof {
                reveal_strlit(":");
            }
            text.append(":");
        }
        text.append(hex_str(octet / 16));
        text.append(hex_str(octet % 16));
        assert(text@ =~= colon_hex(octets@.take(i as int + 1)));
        i = i + 1;
    }
    text
}

} // verus!
