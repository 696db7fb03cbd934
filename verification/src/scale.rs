//! Reading the lines that the scale sends.
//!
//! A reading is one letter, `H` or `L` in either case, followed by the weight
//! as a decimal number, as in `H0000.15`. What is taken from a line here is
//! the text of the weight; the host turns it into a number.

use vstd::prelude::*;
use vstd::string::*;

verus! {

/// Seconds to wait before the port is opened again after it could not be
/// opened.
pub const REOPEN_DELAY_SECS: u64 = 2;

/// Milliseconds to rest between two rounds of reading.
pub const READ_PAUSE_MILLIS: u64 = 100;

/// What `str::trim` leaves of a text: the text without the whitespace at its
/// two ends, whitespace being what Unicode calls so.
pub uninterp spec fn trimmed(text: Seq<char>) -> Seq<char>;

/// `str::trim` returns the part of the text between its leading and its
/// trailing whitespace.
pub assume_specification[ str::trim ](s: &str) -> (r: &str)
    ensures
        r@ == trimmed(s@),
;

/// The letters that begin a reading.
pub open spec fn is_reading_mark(c: char) -> bool {
    c == 'H' || c == 'L' || c == 'h' || c == 'l'
}

/// The text of the weight in a reading: what follows the letter, where the
/// text begins with one of the letters and goes on after it.
pub open spec fn weight_text(data: Seq<char>) -> Option<Seq<char>> {
    if data.len() > 1 && is_reading_mark(data[0]) {
        Some(data.skip(1))
    } else {
        None
    }
}

/// Takes the text of the weight from a reading that has no whitespace around
/// it. There is one exactly when the text begins with `H` or `L`, in either
/// case, and does not end there.
pub fn reading_weight(data: &str) -> (r: Option<&str>)
    ensures
        r is Some <==> weight_text(data@) is Some,
        r is Some ==> r->0@ == weight_text(data@)->0,
{
    let n: usize = data.unicode_len();
    if n > 1 {
        let first = data.get_char(0);
        if first == 'H' || first == 'L' || first == 'h' || first == 'l' {
            let rest = data.substring_char(1, n);
            assert(rest@ =~= data@.skip(1));
            return Some(rest);
        }
    }
    None
}

/// Takes the text of the weight from a line as the scale sent it: the line is
/// freed of the whitespace around it and then read as a reading.
pub fn line_weight(line: &str) -> (r: Option<&str>)
    ensures
        r is Some <==> weight_text(trimmed(line@)) is Some,
        r is Some ==> r->0@ == weight_text(trimmed(line@))->0,
{
    reading_weight(line.trim())
}

} // verus!
