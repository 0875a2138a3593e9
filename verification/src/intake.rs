//! Command intake: every byte that arrives on the serial link is answered
//! with one line that shows its value. There is no command protocol.

use vstd::prelude::*;
use nb::Error as ReadFault;
use crate::text::{hex_pair, Draft, Line};

verus! {

/// `nb::Error`, the error of a non-blocking read: it says that the read
/// would block or that it failed. Carried as a value that nothing here
/// looks into.
#[verifier::external_type_specification]
#[verifier::external_body]
#[verifier::reject_recursive_types(E)]
pub struct ExReadFault<E>(ReadFault<E>);

/// The text of the line about one received byte: `Read byte: `, the
/// byte as two lower-case hexadecimal digits, and a line feed.
pub open spec fn debug_text(byte: u8) -> Seq<u8> {
    (seq![
        0x52u8, 0x65u8, 0x61u8, 0x64u8, 0x20u8, 0x62u8, 0x79u8, 0x74u8, 0x65u8, 0x3au8, 0x20u8,
    ] + hex_pair(byte)).push(0x0a)
}

/// Builds the line about one received byte, without allocating.
pub fn debug_line(byte: u8) -> (line: Line)
    ensures
        line.content() == debug_text(byte),
{
    let mut draft = Draft::new();
    draft.push(0x52);
    draft.push(0x65);
    draft.push(0x61);
    draft.push(0x64);
    draft.push(0x20);
    draft.push(0x62);
    draft.push(0x79);
    draft.push(0x74);
    draft.push(0x65);
    draft.push(0x3a);
    draft.push(0x20);
    draft.hex_pair(byte);
    draft.push(0x0a);
    draft.finish()
}

/// What to do after one attempt to read a byte without blocking.
#[derive(Debug, PartialEq, Eq)]
pub enum Intake {
    /// A byte came: write this line and read again.
    Echo(Line),
    /// Nothing more can be read now: reset the pending-receive flag and
    /// return.
    Drained,
}

/// Decides on the outcome of one non-blocking read. A byte is answered
/// with its line; anything else, be it that the read would block or that
/// it failed, ends the draining.
pub fn on_read<E>(outcome: Result<u8, ReadFault<E>>) -> (step: Intake)
    ensures
        outcome matches Ok(byte) ==> step matches Intake::Echo(line) && line.content()
            == debug_text(byte),
        outcome is Err ==> step is Drained,
{
    match outcome {
        Ok(byte) => Intake::Echo(debug_line(byte)),
        Err(_) => Intake::Drained,
    }
}

} // verus!
