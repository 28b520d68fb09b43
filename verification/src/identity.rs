//! The device's name, derived from the hardware address of its radio.

use vstd::prelude::*;
use vstd::string::StringExecFns;
use crate::error::SetupError;

verus! {

/// The six-byte hardware address of a radio interface.
#[derive(Clone, Copy, Debug, PartialEq, Eq, Hash)]
pub struct HardwareAddress {
    pub octets: [u8; 6],
}

/// The character that stands for a value below sixteen: a decimal digit, or
/// for ten and above a capital letter from `A` on.
pub open spec fn hex_digit(value: int) -> char {
    if value < 10 {
        ('0' as int + value) as char
    } else {
        ('A' as int + value - 10) as char
    }
}

/// The two characters that stand for a byte, high half first, so that a
/// byte below sixteen starts with `0`.
pub open spec fn hex_pair(byte: u8) -> Seq<char> {
    seq![hex_digit(byte as int / 16), hex_digit(byte as int % 16)]
}

/// The name of a device: the prefix, then the last three bytes of the
/// hardware address, each as its two hexadecimal digits. The three bytes
/// are written alike, so that equal bytes give equal digits.
pub open spec fn service_name(prefix: Seq<char>, addr: HardwareAddress) -> Seq<char> {
    prefix + hex_pair(addr.octets[3]) + hex_pair(addr.octets[4]) + hex_pair(addr.octets[5])
}

/// The one-character text of a hexadecimal digit.
fn hex_digit_text(value: u8) -> (text: &'static str)
    requires
        value < 16,
    ensures
        text@ == seq![hex_digit(value as int)],
{
    proof {
        reveal_strlit("0");
        reveal_strlit("1");
        reveal_strlit("2");
        reveal_strlit("3");
        reveal_strlit("4");
        reveal_strlit("5");
        reveal_strlit("6");
        reveal_strlit("7");
        reveal_strlit("8");
        reveal_strlit("9");
        reveal_strlit("A");
        reveal_strlit("B");
        reveal_strlit("C");
        reveal_strlit("D");
        reveal_strlit("E");
        reveal_strlit("F");
    }
    let text = match value {
        0 => "0",
        1 => "1",
        2 => "2",
        3 => "3",
        4 => "4",
        5 => "5",
        6 => "6",
        7 => "7",
        8 => "8",
        9 => "9",
        10 => "A",
        11 => "B",
        12 => "C",
        13 => "D",
        14 => "E",
        _ => "F",
    };
    assert(text@ =~= seq![hex_digit(value as int)]);
    text
}

/// Appends the two hexadecimal digits of `byte` to `out`.
fn push_hex_pair(out: &mut String, byte: u8)
    ensures
        final(out)@ == old(out)@ + hex_pair(byte),
{
    let high: u8 = byte / 16;
    let low: u8 = byte % 16;
    out.append(hex_digit_text(high));
    out.append(hex_digit_text(low));
    assert(out@ =~= old(out)@ + hex_pair(byte));
}

/// Derives the device's name from its hardware address. The name depends on
/// nothing but the two arguments, and is six characters longer than the
/// prefix.
pub fn derive_service_name(addr: &HardwareAddress, prefix: &str) -> (name: String)
    ensures
        name@ == service_name(prefix@, *addr),
        name@.len() == prefix@.len() + 6,
{
    let mut name = String::from_str(prefix);
    push_hex_pair(&mut name, addr.octets[3]);
    push_hex_pair(&mut name, addr.octets[4]);
    push_hex_pair(&mut name, addr.octets[5]);
    name
}

/// The name is a function of the prefix and of the last three bytes of the
/// hardware address, and of nothing else: two addresses that agree on those
/// bytes give the same name. It is always six characters longer than the
/// prefix.
pub proof fn lemma_service_name_is_stable(prefix: Seq<char>, a: HardwareAddress, b: HardwareAddress)
    requires
        a.octets[3] == b.octets[3],
        a.octets[4] == b.octets[4],
        a.octets[5] == b.octets[5],
    ensures
        service_name(prefix, a) == service_name(prefix, b),
        service_name(prefix, a).len() == prefix.len() + 6,
{
}

/// The two characters of a name that stand for the `k`-th of the three
/// bytes it is made of, counted from zero.
pub open spec fn name_digits(prefix: Seq<char>, addr: HardwareAddress, k: int) -> Seq<char> {
    service_name(prefix, addr).subrange(prefix.len() + 2 * k, prefix.len() + 2 * k + 2)
}

/// Each of the three bytes is written by the same rule, wherever it
/// stands: its two characters in the name are its two hexadecimal digits.
/// So equal bytes of an address give equal digits in its name.
pub proof fn lemma_name_digits_follow_bytes(prefix: Seq<char>, addr: HardwareAddress, k: int)
    requires
        0 <= k < 3,
    ensures
        name_digits(prefix, addr, k) == hex_pair(addr.octets[3 + k]),
        forall|j: int|
            0 <= j < 3 && addr.octets[3 + j] == addr.octets[3 + k] ==> #[trigger] name_digits(
                prefix,
                addr,
                j,
            ) == name_digits(prefix, addr, k),
{
    assert forall|j: int| 0 <= j < 3 implies #[trigger] name_digits(prefix, addr, j) == hex_pair(
        addr.octets[3 + j],
    ) by {
        assert(name_digits(prefix, addr, j) =~= hex_pair(addr.octets[3 + j]));
    }
}

/// The device's name, given how the query for the hardware address ended.
/// It fails if and only if the query failed; the formatting never does.
pub fn device_service_name<E>(query: Result<HardwareAddress, E>, prefix: &str) -> (result: Result<
    String,
    SetupError,
>)
    ensures
        query is Ok <==> result is Ok,
        result matches Ok(name) ==> name@ == service_name(prefix@, query->Ok_0),
        result matches Err(e) ==> e == SetupError::HardwareQuery,
{
    match query {
        Ok(addr) => Ok(derive_service_name(&addr, prefix)),
        Err(_) => Err(SetupError::HardwareQuery),
    }
}

} // verus!
