//! The identity of a task, in the forms in which it is sent and read.

use vstd::prelude::*;

use crate::headers;

verus! {

/// The lower-case hexadecimal digit for a number below 16.
pub open spec fn hex_char(digit: int) -> char {
    if digit < 10 {
        (48 + digit) as char
    } else {
        (87 + digit) as char
    }
}

/// The hexadecimal digit of `number` at `place`, counted from the right.
pub open spec fn hex_digit(number: int, place: nat) -> int {
    (number / vstd::arithmetic::power::pow(16, place)) % 16
}

/// Whether a hyphen stands at `position` of the text of a UUID.
pub open spec fn is_hyphen(position: int) -> bool {
    position == 8 || position == 13 || position == 18 || position == 23
}

/// The place, counted from the right, of the digit that stands at `position` of the text of a UUID.
pub open spec fn place_at(position: int) -> nat {
    let hyphens_before: int = if position < 8 {
        0
    } else if position < 13 {
        1
    } else if position < 18 {
        2
    } else if position < 23 {
        3
    } else {
        4
    };
    (31 - (position - hyphens_before)) as nat
}

/// The text of a UUID: its 32 hexadecimal digits in groups of 8, 4, 4, 4 and 12.
pub open spec fn hyphenated(id: u128) -> Seq<char> {
    Seq::new(
        36,
        |position: int|
            if is_hyphen(position) {
                '-'
            } else {
                hex_char(hex_digit(id as int, place_at(position)))
            },
    )
}

/// The text of a UUID without hyphens: its 32 hexadecimal digits.
pub open spec fn unhyphenated(id: u128) -> Seq<char> {
    Seq::new(32, |position: int| hex_char(hex_digit(id as int, (31 - position) as nat)))
}

/// The text with its ASCII letters in lower case.
pub open spec fn lowered(text: Seq<char>) -> Seq<char> {
    text.map_values(|c: char| headers::lower_char(c))
}

/// Whether a text stands for the UUID with the number `id`: its digits with or without hyphens, or
/// with hyphens and in braces or as a URN; letters in either case.
pub open spec fn stands_for(text: Seq<char>, id: u128) -> bool {
    ||| lowered(text) == hyphenated(id)
    ||| lowered(text) == unhyphenated(id)
    ||| lowered(text) == seq!['{'] + hyphenated(id) + seq!['}']
    ||| lowered(text) == "urn:uuid:"@ + hyphenated(id)
}

/// `uuid::Uuid`'s `Display`, for the UUID with the number `id`: the hyphenated text in lower case.
#[verifier::external_body]
pub(crate) fn task_id_text(id: u128) -> (text: String)
    ensures
        text@ == hyphenated(id),
{
    uuid::Uuid::from_u128(id).to_string()
}

/// An error of the `uuid` crate.
#[verifier::external_type_specification]
#[verifier::external_body]
pub struct ExUuidError(uuid::Error);

/// `uuid::Uuid::parse_str`, with the UUID as a number: succeeds where the text stands for a UUID,
/// and then gives its number. What the error says is left open.
#[verifier::external_body]
pub(crate) fn parse_task_id(text: &str) -> (parsed: Result<u128, uuid::Error>)
    ensures
        match parsed {
            Ok(id) => stands_for(text@, id),
            Err(_) => forall|id: u128| !stands_for(text@, id),
        },
{
    match uuid::Uuid::parse_str(text) {
        Ok(id) => Ok(id.as_u128()),
        Err(error) => Err(error),
    }
}

/// Different tasks are sent under different texts, so a receiver can tell a repeated delivery from
/// a new one.
pub proof fn task_id_texts_are_unique(a: u128, b: u128)
    requires
        hyphenated(a) == hyphenated(b),
    ensures
        a == b,
{
    assert forall|place: nat| place < 32 implies #[trigger] hex_digit(a as int, place)
        == hex_digit(b as int, place) by {
        lemma_digit_shows(a, b, place);
    }
    lemma_digits_determine(a as int, b as int, 32);
    lemma_power_of_sixteen();
    vstd::arithmetic::div_mod::lemma_small_mod(
        a as nat,
        vstd::arithmetic::power::pow(16, 32) as nat,
    );
    vstd::arithmetic::div_mod::lemma_small_mod(
        b as nat,
        vstd::arithmetic::power::pow(16, 32) as nat,
    );
}

/// A text stands for at most one UUID.
pub proof fn text_stands_for_one_task_id(text: Seq<char>, a: u128, b: u128)
    requires
        stands_for(text, a),
        stands_for(text, b),
    ensures
        a == b,
{
    reveal_strlit("urn:uuid:");
    let low = lowered(text);
    if low.len() == 32 {
        assert forall|place: nat| place < 32 implies #[trigger] hex_digit(a as int, place)
            == hex_digit(b as int, place) by {
            let position = 31 - place;
            let x = hex_digit(a as int, place);
            let y = hex_digit(b as int, place);
            assert(unhyphenated(a)[position] == hex_char(x));
            assert(unhyphenated(b)[position] == hex_char(y));
            assert(0 <= x < 16 && 0 <= y < 16);
        }
        lemma_digits_determine(a as int, b as int, 32);
        lemma_power_of_sixteen();
        vstd::arithmetic::div_mod::lemma_small_mod(
            a as nat,
            vstd::arithmetic::power::pow(16, 32) as nat,
        );
        vstd::arithmetic::div_mod::lemma_small_mod(
            b as nat,
            vstd::arithmetic::power::pow(16, 32) as nat,
        );
    } else {
        let start: int = if low.len() == 36 {
            0
        } else if low.len() == 38 {
            1
        } else {
            9
        };
        assert(low.subrange(start, start + 36) =~= hyphenated(a));
        assert(low.subrange(start, start + 36) =~= hyphenated(b));
        task_id_texts_are_unique(a, b);
    }
}

/// The text under which a task is sent stands for it.
pub proof fn sent_text_stands_for_its_task_id(id: u128)
    ensures
        stands_for(hyphenated(id), id),
{
    assert forall|i: int| 0 <= i < 36 implies headers::lower_char(#[trigger] hyphenated(id)[i])
        == hyphenated(id)[i] by {
        if !is_hyphen(i) {
            assert(0 <= hex_digit(id as int, place_at(i)) < 16);
        }
    }
    assert(lowered(hyphenated(id)) =~= hyphenated(id));
}

/// Every digit stands somewhere in the text.
proof fn lemma_digit_shows(a: u128, b: u128, place: nat)
    requires
        hyphenated(a) == hyphenated(b),
        place < 32,
    ensures
        hex_digit(a as int, place) == hex_digit(b as int, place),
{
    let index = 31 - place;
    let position = if index < 8 {
        index
    } else if index < 12 {
        index + 1
    } else if index < 16 {
        index + 2
    } else if index < 20 {
        index + 3
    } else {
        index + 4
    };
    assert(!is_hyphen(position) && place_at(position) == place);
    let x = hex_digit(a as int, place);
    let y = hex_digit(b as int, place);
    assert(hyphenated(a)[position] == hex_char(x));
    assert(hyphenated(b)[position] == hex_char(y));
    assert(0 <= x < 16 && 0 <= y < 16);
}

/// Numbers with the same last `places` digits leave the same rest.
proof fn lemma_digits_determine(a: int, b: int, places: nat)
    requires
        0 <= a,
        0 <= b,
        forall|place: nat| place < places ==> #[trigger] hex_digit(a, place) == hex_digit(b, place),
    ensures
        a % vstd::arithmetic::power::pow(16, places) == b % vstd::arithmetic::power::pow(
            16,
            places,
        ),
    decreases places,
{
    if places == 0 {
        vstd::arithmetic::power::lemma_pow0(16);
    } else {
        let rest = (places - 1) as nat;
        let unit = vstd::arithmetic::power::pow(16, rest);
        lemma_digits_determine(a, b, rest);
        vstd::arithmetic::power::lemma_pow_positive(16, rest);
        vstd::arithmetic::power::lemma_pow_adds(16, rest, 1);
        vstd::arithmetic::power::lemma_pow1(16);
        assert(vstd::arithmetic::power::pow(16, places) == unit * 16);
        vstd::arithmetic::div_mod::lemma_mod_breakdown(a, unit, 16);
        vstd::arithmetic::div_mod::lemma_mod_breakdown(b, unit, 16);
        assert(hex_digit(a, rest) == hex_digit(b, rest));
    }
}

/// 32 hexadecimal digits are enough for a number of 128 bits.
proof fn lemma_power_of_sixteen()
    ensures
        vstd::arithmetic::power::pow(16, 32) == u128::MAX + 1,
{
    vstd::arithmetic::power::lemma_pow1(16);
    vstd::arithmetic::power::lemma_pow_adds(16, 1, 1);
    assert(vstd::arithmetic::power::pow(16, 2) == 0x100);
    vstd::arithmetic::power::lemma_pow_adds(16, 2, 2);
    assert(vstd::arithmetic::power::pow(16, 4) == 0x1_0000);
    vstd::arithmetic::power::lemma_pow_adds(16, 4, 4);
    assert(vstd::arithmetic::power::pow(16, 8) == 0x1_0000_0000);
    vstd::arithmetic::power::lemma_pow_adds(16, 8, 8);
    assert(vstd::arithmetic::power::pow(16, 16) == 0x1_0000_0000_0000_0000);
    vstd::arithmetic::power::lemma_pow_adds(16, 16, 16);
    assert(0x1_0000_0000_0000_0000 * 0x1_0000_0000_0000_0000 == u128::MAX + 1);
}

} // verus!
