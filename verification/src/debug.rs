//! The driver's debug-message line: each message the driver reports is
//! decoded as UTF-8 and written to stderr behind a fixed prefix. A
//! message that is not valid UTF-8 has no line; the caller fails on it.

use vstd::prelude::*;

verus! {

/// Names what str::from_utf8 returns: the bytes decoded as UTF-8
/// characters, or None where the bytes are not valid UTF-8.
pub uninterp spec fn decoded_utf8(bytes: Seq<u8>) -> Option<Seq<char>>;

/// Relies on str::from_utf8: decodes the bytes as UTF-8, or None
/// where they are not valid UTF-8. The result depends on the bytes
/// alone.
#[verifier::external_body]
fn decode_utf8(bytes: &Vec<u8>) -> (r: Option<String>)
    ensures
        match r {
            Some(s) => decoded_utf8(bytes@) == Some(s@),
            None => decoded_utf8(bytes@) is None,
        },
{
    match std::str::from_utf8(bytes) {
        Ok(s) => Some(s.to_string()),
        Err(_) => None,
    }
}

/// The bytes of the prefix "GL log: " that starts every debug line.
pub open spec fn gl_log_prefix() -> Seq<u8> {
    seq![71u8, 76u8, 32u8, 108u8, 111u8, 103u8, 58u8, 32u8]
}

/// The stderr line for a debug message: the prefix followed by the
/// message bytes, or `None` when the bytes are not valid UTF-8 (the
/// caller then fails, as reading the message as a string would).
pub fn gl_log_line(msg: &Vec<u8>) -> (r: Option<Vec<u8>>)
    ensures
        match r {
            Some(line) => decoded_utf8(msg@) matches Some(_)
                && line@ == gl_log_prefix() + msg@,
            None => decoded_utf8(msg@) is None,
        },
{
    match decode_utf8(msg) {
        None => None,
        Some(_) => {
            let mut line: Vec<u8> = Vec::new();
            line.push(71);
            line.push(76);
            line.push(32);
            line.push(108);
            line.push(111);
            line.push(103);
            line.push(58);
            line.push(32);
            assert(line@ =~= gl_log_prefix());
            let mut i: usize = 0;
            while i < msg.len()
                invariant
                    i <= msg@.len(),
                    line@ == gl_log_prefix() + msg@.take(i as int),
                decreases msg@.len() - i,
            {
                line.push(msg[i]);
                assert(line@ =~= gl_log_prefix() + msg@.take(i as int + 1));
                i += 1;
            }
            assert(msg@.take(msg@.len() as int) =~= msg@);
            Some(line)
        }
    }
}

} // verus!
