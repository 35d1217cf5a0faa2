//! Identifiers of executions, written as UUIDs.

use vstd::prelude::*;

verus! {

/// Whether `c` is a hexadecimal digit, in either case.
pub open spec fn is_hex_digit(c: char) -> bool {
    ||| '0' <= c <= '9'
    ||| 'a' <= c <= 'f'
    ||| 'A' <= c <= 'F'
}

/// The number that a hexadecimal digit stands for.
pub open spec fn hex_digit_value(c: char) -> nat {
    if '0' <= c <= '9' {
        (c as nat - '0' as nat) as nat
    } else if 'a' <= c <= 'f' {
        (c as nat - 'a' as nat + 10) as nat
    } else {
        (c as nat - 'A' as nat + 10) as nat
    }
}

/// Whether `text` is a UUID in hyphenated form: 36 characters, hyphens at the
/// places 8, 13, 18 and 23, hexadecimal digits elsewhere.
pub open spec fn is_hyphenated(text: Seq<char>) -> bool {
    &&& text.len() == 36
    &&& forall|i: int|
        0 <= i < 36 ==> if i == 8 || i == 13 || i == 18 || i == 23 {
            text[i] == '-'
        } else {
            is_hex_digit(#[trigger] text[i])
        }
}

/// The number that the hexadecimal digits among the first `upto` characters
/// of `text` spell, most significant digit first; hyphens are passed over.
pub open spec fn hyphenated_value_upto(text: Seq<char>, upto: nat) -> nat
    decreases upto,
{
    if upto == 0 {
        0
    } else {
        let before = hyphenated_value_upto(text, (upto - 1) as nat);
        let c = text[upto - 1];
        if c == '-' {
            before
        } else {
            16 * before + hex_digit_value(c)
        }
    }
}

/// The 128 bits that a UUID in hyphenated form spells.
pub open spec fn hyphenated_value(text: Seq<char>) -> nat {
    hyphenated_value_upto(text, 36)
}

/// Sixteen to the power of `exponent`.
spec fn pow16(exponent: nat) -> nat
    decreases exponent,
{
    if exponent == 0 {
        1
    } else {
        16 * pow16((exponent - 1) as nat)
    }
}

/// How many of the first `upto` places of a UUID in hyphenated form hold a
/// digit.
spec fn digits_upto(upto: nat) -> nat {
    let hyphens: nat = if upto > 23 {
        4
    } else if upto > 18 {
        3
    } else if upto > 13 {
        2
    } else if upto > 8 {
        1
    } else {
        0
    };
    (upto - hyphens) as nat
}

/// The digits among the first `upto` characters spell a number below
/// sixteen to the power of their count.
proof fn lemma_value_upto_bounded(text: Seq<char>, upto: nat)
    requires
        is_hyphenated(text),
        upto <= 36,
    ensures
        hyphenated_value_upto(text, upto) < pow16(digits_upto(upto)),
    decreases upto,
{
    if upto > 0 {
        lemma_value_upto_bounded(text, (upto - 1) as nat);
        let at = upto - 1;
        if at == 8 || at == 13 || at == 18 || at == 23 {
            assert(text[at] == '-');
        } else {
            assert(is_hex_digit(text[at]));
            assert(hex_digit_value(text[at]) <= 15);
            assert(digits_upto(upto) == digits_upto((upto - 1) as nat) + 1);
        }
    }
}

/// The digits of a UUID in hyphenated form spell a number of 128 bits.
pub proof fn lemma_hyphenated_value_fits(text: Seq<char>)
    requires
        is_hyphenated(text),
    ensures
        hyphenated_value(text) <= u128::MAX,
{
    lemma_value_upto_bounded(text, 36);
    reveal_with_fuel(pow16, 33);
    assert(pow16(32) == 0x1_0000_0000_0000_0000_0000_0000_0000_0000);
}

/// What `uuid::Uuid::parse_str` makes of `text`: the UUID's 128 bits, or
/// `None` where it refuses the text.
pub uninterp spec fn parsed_uuid(text: Seq<char>) -> Option<u128>;

/// Calls `uuid::Uuid::parse_str`, and `Uuid::as_u128` on what it returns.
///
/// Not proved: that the result depends on the text alone, and that the parser
/// accepts every text in hyphenated form and reads its 32 digits as one
/// number, most significant digit first. The parser accepts other forms too:
/// of those nothing is claimed but the name.
#[verifier::external_body]
fn parse_uuid(text: &str) -> (parsed: Option<u128>)
    ensures
        parsed == parsed_uuid(text@),
        is_hyphenated(text@) ==> parsed is Some && parsed->Some_0 as nat == hyphenated_value(
            text@,
        ),
{
    match uuid::Uuid::parse_str(text) {
        Ok(id) => Some(id.as_u128()),
        Err(_) => None,
    }
}

/// The identifier of one execution of an engine: the 128 bits of a UUID.
#[derive(Clone, Copy, Debug, PartialEq, Eq, Structural, Hash)]
pub struct ExecutionId(pub u128);

/// The identifier that tests use, in hyphenated form.
pub const TEST_EXECUTION_UUID: &'static str = "2cc08a14-5e96-4917-bc70-e98293a3b703";

/// The identifier that tests use.
pub fn test_execution_id() -> (id: ExecutionId)
    ensures
        id.0 == 0x2cc08a14_5e96_4917_bc70_e98293a3b703u128,
{
    let text = TEST_EXECUTION_UUID;
    proof {
        reveal_strlit("2cc08a14-5e96-4917-bc70-e98293a3b703");
        reveal_with_fuel(hyphenated_value_upto, 37);
        assert(is_hyphenated(text@));
        assert(hyphenated_value(text@) == 0x2cc08a14_5e96_4917_bc70_e98293a3b703);
    }
    ExecutionId(parse_uuid(text).expect("valid UUID"))
}

} // verus!
