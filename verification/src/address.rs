//! Bluetooth addresses in colon-hexadecimal notation.
use crate::text::{chars_of, pieces};
use vstd::prelude::*;

verus! {

/// The value of a hexadecimal digit.
pub open spec fn hex_digit(c: char) -> Option<nat> {
    if '0' <= c <= '9' {
        Some((c as u32 - '0' as u32) as nat)
    } else if 'a' <= c <= 'f' {
        Some((c as u32 - 'a' as u32 + 10) as nat)
    } else if 'A' <= c <= 'F' {
        Some((c as u32 - 'A' as u32 + 10) as nat)
    } else {
        None
    }
}

/// Whether every character is a hexadecimal digit.
pub open spec fn all_hex(digits: Seq<char>) -> bool {
    forall|i: int| 0 <= i < digits.len() ==> hex_digit(#[trigger] digits[i]) is Some
}

/// The number that hexadecimal digits stand for.
pub open spec fn hex_value(digits: Seq<char>) -> nat
    decreases digits.len(),
{
    if digits.len() == 0 {
        0
    } else {
        hex_value(digits.drop_last()) * 16 + hex_digit(digits.last())->0
    }
}

/// The byte that a field of an address stands for: hexadecimal digits, with an
/// optional plus sign before them, of a number below 256.
pub open spec fn hex_field(field: Seq<char>) -> Option<u8> {
    let digits = if field.len() > 0 && field[0] == '+' {
        field.skip(1)
    } else {
        field
    };
    if digits.len() > 0 && all_hex(digits) && hex_value(digits) <= 255 {
        Some(hex_value(digits) as u8)
    } else {
        None
    }
}

/// The bytes of an address: six fields, separated by colons.
pub open spec fn parsed_address(text: Seq<char>) -> Option<Seq<u8>> {
    let fields = pieces(text, ':');
    if fields.len() == 6 && forall|i: int| 0 <= i < 6 ==> hex_field(#[trigger] fields[i]) is Some {
        Some(fields.map_values(|field: Seq<char>| hex_field(field)->0))
    } else {
        None
    }
}

/// The form `XX:XX:XX:XX:XX:XX`: six groups of two hexadecimal digits.
pub open spec fn address_form(text: Seq<char>) -> bool {
    &&& text.len() == 17
    &&& forall|i: int|
        0 <= i < 17 ==> if i % 3 == 2 {
            #[trigger] text[i] == ':'
        } else {
            hex_digit(text[i]) is Some
        }
}

/// The error with which `bluer` refuses an address.
#[verifier::external_type_specification]
#[verifier::external_body]
pub struct ExInvalidAddress(bluer::InvalidAddress);

/// `<bluer::Address as FromStr>::from_str`, as bytes.
///
/// The text is split at its colons, each field is read by `u8::from_str_radix`
/// with radix 16, and exactly six fields make an address. What the error holds is
/// left open.
#[verifier::external_body]
fn bluer_address(text: &str) -> (address: Result<[u8; 6], bluer::InvalidAddress>)
    ensures
        match address {
            Ok(bytes) => parsed_address(text@) == Some(bytes@),
            Err(_) => parsed_address(text@) is None,
        },
{
    text.parse::<bluer::Address>().map(|address| address.0)
}

/// The bytes of a Bluetooth address, `None` where the text is no address.
pub fn parse_address(text: &str) -> (address: Option<[u8; 6]>)
    ensures
        match address {
            Some(bytes) => parsed_address(text@) == Some(bytes@),
            None => parsed_address(text@) is None,
        },
{
    match bluer_address(text) {
        Ok(bytes) => Some(bytes),
        Err(_) => None,
    }
}

/// The uppercase hexadecimal digit of a number below 16.
pub open spec fn upper_hex(n: nat) -> char {
    if n < 10 {
        ('0' as u32 + n) as char
    } else {
        ('A' as u32 + n - 10) as char
    }
}

/// The notation of an address: six groups of two uppercase hexadecimal digits,
/// separated by colons.
pub open spec fn displayed(address: Seq<u8>) -> Seq<char> {
    Seq::new(
        17,
        |i: int|
            if i % 3 == 0 {
                upper_hex(address[i / 3] as nat / 16)
            } else if i % 3 == 1 {
                upper_hex(address[i / 3] as nat % 16)
            } else {
                ':'
            },
    )
}

/// `<bluer::Address as Display>`: each byte as two uppercase hexadecimal digits, with
/// colons between them.
#[verifier::external_body]
fn bluer_text(address: [u8; 6]) -> (text: String)
    ensures
        text@ == displayed(address@),
{
    bluer::Address::from(address).to_string()
}

/// The notation of a Bluetooth address.
pub fn address_text(address: [u8; 6]) -> (text: String)
    ensures
        text@ == displayed(address@),
{
    bluer_text(address)
}

fn is_hex_digit(c: char) -> (hex: bool)
    ensures
        hex == hex_digit(c) is Some,
{
    ('0' <= c && c <= '9') || ('a' <= c && c <= 'f') || ('A' <= c && c <= 'F')
}

/// Whether a text has the form `XX:XX:XX:XX:XX:XX`.
pub fn valid_bluetooth_address(address: &str) -> (valid: bool)
    ensures
        valid == address_form(address@),
{
    let chars = chars_of(address);
    if chars.len() != 17 {
        return false;
    }
    for i in 0..17usize
        invariant
            chars@ == address@,
            chars.len() == 17,
            forall|j: int|
                0 <= j < i ==> if j % 3 == 2 {
                    #[trigger] chars@[j] == ':'
                } else {
                    hex_digit(chars@[j]) is Some
                },
    {
        if i % 3 == 2 {
            if chars[i] != ':' {
                assert(address@[i as int] != ':');
                return false;
            }
        } else if !is_hex_digit(chars[i]) {
            assert(hex_digit(address@[i as int]) is None);
            return false;
        }
    }
    true
}

proof fn lemma_groups(text: Seq<char>, n: nat)
    requires
        address_form(text),
        n <= 17,
    ensures
        pieces(text.take(n as int), ':').len() == n / 3 + 1,
        forall|j: int|
            0 <= j < n / 3 ==> #[trigger] pieces(text.take(n as int), ':')[j] == text.subrange(
                3 * j,
                3 * j + 2,
            ),
        pieces(text.take(n as int), ':').last() == text.subrange(3 * (n as int / 3), n as int),
    decreases n,
{
    let prefix = text.take(n as int);
    if n == 0 {
        assert(text.subrange(0, 0) =~= Seq::<char>::empty());
    } else {
        let m = (n - 1) as nat;
        lemma_groups(text, m);
        assert(prefix.drop_last() =~= text.take(m as int));
        assert(prefix.last() == text[m as int]);
        let front = pieces(text.take(m as int), ':');
        let all = pieces(prefix, ':');
        if m % 3 == 2 {
            assert(text[m as int] == ':');
            assert(all == front.push(Seq::<char>::empty()));
            assert(text.subrange(3 * (n as int / 3), n as int) =~= Seq::<char>::empty());
            assert(front.last() == text.subrange(3 * (m as int / 3), m as int));
        } else {
            assert(hex_digit(text[m as int]) is Some);
            assert(all == front.update(front.len() - 1, front.last().push(text[m as int])));
            assert(text.subrange(3 * (n as int / 3), n as int) =~= text.subrange(
                3 * (m as int / 3),
                m as int,
            ).push(text[m as int]));
        }
    }
}

/// An address of the accepted form is always readable, and each of its bytes is
/// the number that the two digits of its group stand for.
pub proof fn law_accepted_addresses_are_readable(text: Seq<char>)
    requires
        address_form(text),
    ensures
        parsed_address(text) matches Some(bytes) && bytes.len() == 6 && forall|i: int|
            0 <= i < 6 ==> #[trigger] bytes[i] == hex_digit(text[3 * i])->0 * 16 + hex_digit(
                text[3 * i + 1],
            )->0,
{
    lemma_groups(text, 17);
    assert(text.take(17) =~= text);
    let fields = pieces(text, ':');
    assert forall|i: int| 0 <= i < 6 implies hex_field(#[trigger] fields[i]) == Some(
        (hex_digit(text[3 * i])->0 * 16 + hex_digit(text[3 * i + 1])->0) as u8,
    ) by {
        let field = fields[i];
        assert(field == text.subrange(3 * i, 3 * i + 2));
        let a = text[3 * i];
        let b = text[3 * i + 1];
        assert((3 * i) % 3 == 0 && (3 * i + 1) % 3 == 1);
        assert(hex_digit(a) is Some && hex_digit(b) is Some);
        assert(field =~= seq![a, b]);
        assert(field[0] != '+');
        assert(all_hex(field));
        assert(field.drop_last() =~= seq![a]);
        assert(field.drop_last().drop_last() =~= Seq::<char>::empty());
        reveal_with_fuel(hex_value, 3);
        assert(hex_value(field) == hex_digit(a)->0 * 16 + hex_digit(b)->0);
    }
}

/// An address keeps its form and its bytes in uppercase.
pub proof fn law_uppercase_keeps_address(text: Seq<char>)
    requires
        address_form(text),
    ensures
        address_form(crate::text::uppercase(text)),
        parsed_address(crate::text::uppercase(text)) == parsed_address(text),
{
    let upper = crate::text::uppercase(text);
    assert forall|i: int| 0 <= i < 17 implies if i % 3 == 2 {
        #[trigger] upper[i] == ':'
    } else {
        hex_digit(upper[i]) is Some && hex_digit(upper[i]) == hex_digit(text[i])
    } by {
        assert(upper[i] == crate::text::upper_char(text[i]));
    }
    law_accepted_addresses_are_readable(text);
    law_accepted_addresses_are_readable(upper);
    let a = parsed_address(text)->0;
    let b = parsed_address(upper)->0;
    assert forall|i: int| 0 <= i < 6 implies #[trigger] a[i] == b[i] by {
        assert((3 * i) % 3 == 0 && (3 * i + 1) % 3 == 1);
        assert(hex_digit(upper[3 * i]) == hex_digit(text[3 * i]));
        assert(hex_digit(upper[3 * i + 1]) == hex_digit(text[3 * i + 1]));
    }
    assert(a =~= b);
}

/// The notation of an address has the accepted form, and reading it gives the address
/// back.
pub proof fn law_notation_is_read_back(address: Seq<u8>)
    requires
        address.len() == 6,
    ensures
        address_form(displayed(address)),
        parsed_address(displayed(address)) == Some(address),
{
    let text = displayed(address);
    assert forall|n: nat| n < 16 implies hex_digit(#[trigger] upper_hex(n)) == Some(n) by {}
    assert forall|i: int| 0 <= i < 17 implies if i % 3 == 2 {
        #[trigger] text[i] == ':'
    } else {
        hex_digit(text[i]) is Some
    } by {
        if i % 3 == 0 {
            assert(text[i] == upper_hex(address[i / 3] as nat / 16));
        } else if i % 3 == 1 {
            assert(text[i] == upper_hex(address[i / 3] as nat % 16));
        }
    }
    law_accepted_addresses_are_readable(text);
    let bytes = parsed_address(text)->0;
    assert forall|i: int| 0 <= i < 6 implies #[trigger] bytes[i] == address[i] by {
        assert((3 * i) % 3 == 0 && (3 * i) / 3 == i);
        assert((3 * i + 1) % 3 == 1 && (3 * i + 1) / 3 == i);
        assert(text[3 * i] == upper_hex(address[i] as nat / 16));
        assert(text[3 * i + 1] == upper_hex(address[i] as nat % 16));
    }
    assert(bytes =~= address);
}

/// The digits are those of the hexadecimal notation, in both cases, and nothing else is
/// one.
pub proof fn law_hexadecimal_digits(n: int, c: char)
    requires
        0 <= n < 16,
    ensures
        hex_digit("0123456789abcdef"@[n]) == Some(n as nat),
        hex_digit("0123456789ABCDEF"@[n]) == Some(n as nat),
        hex_digit(c) is Some ==> "0123456789abcdefABCDEF"@.contains(c),
{
    reveal_strlit("0123456789abcdef");
    reveal_strlit("0123456789ABCDEF");
    reveal_strlit("0123456789abcdefABCDEF");
    let all = "0123456789abcdefABCDEF"@;
    if '0' <= c <= '9' {
        let k = c as int - 48;
        assert(all[k] == c);
    } else if 'a' <= c <= 'f' {
        let k = c as int - 97 + 10;
        assert(all[k] == c);
    } else if 'A' <= c <= 'F' {
        let k = c as int - 65 + 16;
        assert(all[k] == c);
    }
}

/// An address is accepted exactly where it has 17 characters, with a colon at every third
/// place and a hexadecimal digit at every other one.
pub proof fn law_accepted_addresses_have_one_form(address: &str, valid: bool)
    requires
        call_ensures(valid_bluetooth_address, (address,), valid),
    ensures
        valid <==> address@.len() == 17 && forall|i: int|
            0 <= i < 17 ==> if i == 2 || i == 5 || i == 8 || i == 11 || i == 14 {
                #[trigger] address@[i] == ':'
            } else {
                '0' <= address@[i] <= '9' || 'a' <= address@[i] <= 'f' || 'A' <= address@[i] <= 'F'
            },
{
    if valid {
        assert forall|i: int| 0 <= i < 17 implies if i == 2 || i == 5 || i == 8 || i == 11 || i
            == 14 {
            #[trigger] address@[i] == ':'
        } else {
            '0' <= address@[i] <= '9' || 'a' <= address@[i] <= 'f' || 'A' <= address@[i] <= 'F'
        } by {
            assert(i % 3 == 2 <==> (i == 2 || i == 5 || i == 8 || i == 11 || i == 14));
        }
    }
    if address@.len() == 17 && forall|i: int|
        0 <= i < 17 ==> if i == 2 || i == 5 || i == 8 || i == 11 || i == 14 {
            #[trigger] address@[i] == ':'
        } else {
            '0' <= address@[i] <= '9' || 'a' <= address@[i] <= 'f' || 'A' <= address@[i] <= 'F'
        } {
        assert forall|i: int| 0 <= i < 17 implies if i % 3 == 2 {
            #[trigger] address@[i] == ':'
        } else {
            hex_digit(address@[i]) is Some
        } by {
            assert(i % 3 == 2 <==> (i == 2 || i == 5 || i == 8 || i == 11 || i == 14));
        }
    }
}

/// Reading an accepted address gives six bytes, each of the two digits of its group, the
/// first digit counting sixteen times.
pub proof fn law_groups_are_read_in_order(text: &str, bytes: Option<[u8; 6]>, i: int)
    requires
        call_ensures(parse_address, (text,), bytes),
        address_form(text@),
        0 <= i < 6,
    ensures
        bytes matches Some(bytes) && bytes@[i] == hex_digit(text@[3 * i])->0 * 16 + hex_digit(
            text@[3 * i + 1],
        )->0,
{
    law_accepted_addresses_are_readable(text@);
}

/// A text is read as an address only where it consists of six fields with a colon between
/// each two of them.
pub proof fn law_readable_addresses_have_six_fields(text: &str, bytes: Option<[u8; 6]>)
    requires
        call_ensures(parse_address, (text,), bytes),
        bytes is Some,
    ensures
        exists|fields: Seq<Seq<char>>|
            fields.len() == 6 && #[trigger] crate::text::joined(fields, ':') == text@ && forall|
                i: int,
            |
                0 <= i < 6 ==> (#[trigger] fields[i]).len() > 0 && !fields[i].contains(':'),
{
    crate::text::law_pieces_join_to_the_text(text@, ':');
    let fields = pieces(text@, ':');
    assert(crate::text::joined(fields, ':') == text@);
    assert forall|i: int| 0 <= i < 6 implies (#[trigger] fields[i]).len() > 0
        && !fields[i].contains(
        ':',
    ) by {
        assert(hex_field(fields[i]) is Some);
    }
}

/// An address is written in capital letters, and reading what was written gives the
/// address back.
pub proof fn law_written_addresses_are_read_back(
    address: [u8; 6],
    text: String,
    written: &str,
    bytes: Option<[u8; 6]>,
)
    requires
        call_ensures(address_text, (address,), text),
        written@ == text@,
        call_ensures(parse_address, (written,), bytes),
    ensures
        bytes matches Some(bytes) && bytes@ == address@,
        forall|i: int| 0 <= i < text@.len() ==> !('a' <= #[trigger] text@[i] <= 'z'),
{
    law_notation_is_read_back(address@);
    assert forall|i: int| 0 <= i < text@.len() implies !('a' <= #[trigger] text@[i] <= 'z') by {
        let byte = address@[i / 3] as nat;
        assert(text@[i] == upper_hex(byte / 16) || text@[i] == upper_hex(byte % 16) || text@[i]
            == ':');
        assert(byte / 16 < 16 && byte % 16 < 16);
    }
}

} // verus!
