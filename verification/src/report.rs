//! The text of the diagnostic lines that report a cycle.

use crate::acquisition::{Step, StepModel};
use vstd::prelude::*;

verus! {

/// The lower-case hexadecimal digit for a value below sixteen: `'0'` is
/// character 48, and `'a'`, which stands for ten, is character 97.
pub open spec fn hex_digit(value: u8) -> char {
    if value < 10 {
        (48 + value) as u8 as char
    } else {
        (87 + value) as u8 as char
    }
}

/// A byte in lower-case hexadecimal, without a leading zero.
pub open spec fn hex_text(byte: u8) -> Seq<char> {
    if byte < 16 {
        seq![hex_digit(byte)]
    } else {
        seq![hex_digit(byte / 16), hex_digit(byte % 16)]
    }
}

/// The bytes in hexadecimal, separated by a comma and a space.
pub open spec fn hex_list(bytes: Seq<u8>) -> Seq<char>
    decreases bytes.len(),
{
    if bytes.len() == 0 {
        Seq::empty()
    } else if bytes.len() == 1 {
        hex_text(bytes[0])
    } else {
        hex_list(bytes.drop_last()) + seq![',', ' '] + hex_text(bytes.last())
    }
}

/// The line that shows the received bytes: `message: [8d, a2, 0]`.
pub open spec fn message_line(bytes: Seq<u8>) -> Seq<char> {
    seq!['m', 'e', 's', 's', 'a', 'g', 'e', ':', ' ', '['] + hex_list(bytes) + seq![']']
}

/// The line that a step logs, if it logs one: toggling the indicator logs
/// nothing.
pub open spec fn line_of(step: StepModel) -> Option<Seq<char>> {
    match step {
        StepModel::RawBytes(bytes) => Some(message_line(bytes)),
        StepModel::ToggleIndicator => None,
        StepModel::Decoding => Some("decoding"@),
        StepModel::Rendered(text) => Some(text),
        StepModel::After => Some("after"@),
    }
}

/// Calls `String::from_iter` on the characters. Trusted: the string holds
/// the characters it was collected from, in their order.
#[verifier::external_body]
fn string_of(chars: Vec<char>) -> (text: String)
    ensures
        text@ == chars@,
{
    String::from_iter(chars)
}

fn hex_digit_of(value: u8) -> (digit: char)
    requires
        value < 16,
    ensures
        digit == hex_digit(value),
{
    if value < 10 {
        (48 + value) as char
    } else {
        (87 + value) as char
    }
}

/// Formats the line that shows the received bytes.
pub fn message_line_of(bytes: &[u8; 14]) -> (line: String)
    ensures
        line@ == message_line(bytes@),
{
    let mut chars: Vec<char> = Vec::new();
    chars.push('m');
    chars.push('e');
    chars.push('s');
    chars.push('s');
    chars.push('a');
    chars.push('g');
    chars.push('e');
    chars.push(':');
    chars.push(' ');
    chars.push('[');
    let ghost head = chars@;
    let mut i: usize = 0;
    while i < 14
        invariant
            i <= 14,
            head == seq!['m', 'e', 's', 's', 'a', 'g', 'e', ':', ' ', '['],
            chars@ == head + hex_list(bytes@.take(i as int)),
        decreases 14 - i,
    {
        let ghost before = chars@;
        if i > 0 {
            chars.push(',');
            chars.push(' ');
        }
        let byte = bytes[i];
        if byte >= 16 {
            chars.push(hex_digit_of(byte / 16));
        }
        chars.push(hex_digit_of(byte % 16));
        proof {
            let shorter = bytes@.take(i as int);
            let longer = bytes@.take(i + 1);
            assert(longer.drop_last() =~= shorter);
            assert(longer.last() == byte);
            if i == 0 {
                assert(hex_list(shorter) =~= Seq::<char>::empty());
                assert(longer[0] == byte);
                assert(hex_list(longer) == hex_text(byte));
                assert(chars@ =~= head + hex_text(byte));
            } else {
                assert(hex_list(longer) == hex_list(shorter) + seq![',', ' '] + hex_text(byte));
                assert(chars@ =~= before + seq![',', ' '] + hex_text(byte));
                assert(chars@ =~= head + hex_list(longer));
            }
        }
        i += 1;
    }
    chars.push(']');
    proof {
        assert(bytes@.take(14) =~= bytes@);
    }
    string_of(chars)
}

/// The line that a step sends to the log, or `None` for a step that logs
/// nothing.
pub fn log_line(step: &Step) -> (line: Option<String>)
    ensures
        match line_of(step@) {
            Some(text) => line.is_some() && line.unwrap()@ == text,
            None => line.is_none(),
        },
{
    match step {
        Step::RawBytes(bytes) => Some(message_line_of(bytes)),
        Step::ToggleIndicator => None,
        Step::Decoding => Some("decoding".to_owned()),
        Step::Rendered(text) => Some(text.clone()),
        Step::After => Some("after".to_owned()),
    }
}

} // verus!
