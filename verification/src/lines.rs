//! The lines of text that the drivers write, one per measurement.

use vstd::prelude::*;
use vstd::string::*;
use crate::byte_units::{append_bytes, formatted_bytes};
use crate::decimal::{append_decimal, append_signed_decimal, decimal, signed_decimal};
use crate::timing::{duration_debug, Elapsed};

verus! {

/// The line for one timed call: the span in the standard library's debug
/// notation.
pub open spec fn time_taken_text(elapsed: Elapsed) -> Seq<char> {
    "Time taken: "@ + duration_debug(elapsed.seconds(), elapsed.subsec())
}

/// The line for the value that the last call returned.
pub open spec fn result_text(value: int) -> Seq<char> {
    "Result: "@ + signed_decimal(value)
}

/// The line for one timed call: the span as a count of nanoseconds.
pub open spec fn time_text(nanos: int) -> Seq<char> {
    "Time: "@ + signed_decimal(nanos)
}

/// The line for one allocation round: the size of the guest's memory in its
/// unit, then the span as a count of nanoseconds.
pub open spec fn data_text(memory_bytes: nat, nanos: nat) -> Seq<char> {
    "Data: "@ + formatted_bytes(memory_bytes) + " "@ + decimal(nanos)
}

/// The line `Time taken: ` followed by the span in debug notation.
pub fn time_taken_line(elapsed: &Elapsed) -> (line: String)
    ensures
        line@ == time_taken_text(*elapsed),
{
    let mut line = String::from_str("Time taken: ");
    let span = elapsed.debug_string();
    line.append(span.as_str());
    line
}

/// The line `Result: ` followed by `value` in decimal.
pub fn result_line(value: i32) -> (line: String)
    ensures
        line@ == result_text(value as int),
{
    let mut line = String::from_str("Result: ");
    append_signed_decimal(&mut line, value as i64);
    line
}

/// The line `Time: ` followed by `nanos` in decimal.
pub fn time_line(nanos: i64) -> (line: String)
    ensures
        line@ == time_text(nanos as int),
{
    let mut line = String::from_str("Time: ");
    append_signed_decimal(&mut line, nanos);
    line
}

/// The line `Data: ` followed by the memory size in its unit, a space, and
/// `nanos` in decimal.
pub fn data_line(memory_bytes: usize, nanos: u128) -> (line: String)
    ensures
        line@ == data_text(memory_bytes as nat, nanos as nat),
{
    let mut line = String::from_str("Data: ");
    append_bytes(&mut line, memory_bytes);
    line.append(" ");
    append_decimal(&mut line, nanos);
    line
}

/// A line for a count of nanoseconds that is not negative is the word
/// `Time: ` followed by digit characters only.
pub proof fn lemma_time_text_is_digits(nanos: int)
    requires
        nanos >= 0,
    ensures
        time_text(nanos) == "Time: "@ + decimal(nanos as nat),
        forall|i: int|
            0 <= i < decimal(nanos as nat).len() ==> crate::decimal::is_digit_char(
                #[trigger] decimal(nanos as nat)[i],
            ),
        decimal(nanos as nat).len() >= 1,
{
    crate::decimal::lemma_decimal_is_digits(nanos as nat);
    crate::decimal::lemma_decimal_shape(nanos as nat);
}

} // verus!
