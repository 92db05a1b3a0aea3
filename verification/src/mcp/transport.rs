//! Line-delimited message transport: the state a transport keeps and the
//! decisions it makes about what it reads and writes.

use crate::error::Error;
use crate::text::{chars_of, owned, slice_vec, string_from_chars};
use vstd::prelude::*;

verus! {

/// Whether `c` is white space in the Unicode sense, as `char::is_whitespace`
/// documents it.
pub open spec fn is_white_space(c: char) -> bool {
    ||| c == '\t' || c == '\n' || c == '\u{0B}' || c == '\u{0C}' || c == '\r' || c == ' '
    ||| c == '\u{85}' || c == '\u{A0}' || c == '\u{1680}'
    ||| ('\u{2000}' as u32 <= c as u32 && c as u32 <= '\u{200A}' as u32)
    ||| c == '\u{2028}' || c == '\u{2029}' || c == '\u{202F}' || c == '\u{205F}' || c == '\u{3000}'
}

/// `s` without its trailing white space.
pub open spec fn trim_end_white(s: Seq<char>) -> Seq<char>
    decreases s.len(),
{
    if s.len() > 0 && is_white_space(s.last()) {
        trim_end_white(s.drop_last())
    } else {
        s
    }
}

fn white_space(c: char) -> (r: bool)
    ensures
        r == is_white_space(c),
{
    let v = c as u32;
    c == '\t' || c == '\n' || c == '\u{0B}' || c == '\u{0C}' || c == '\r' || c == ' ' || c == '\u{85}'
        || c == '\u{A0}' || c == '\u{1680}' || (0x2000u32 <= v && v <= 0x200Au32) || c == '\u{2028}' || c
        == '\u{2029}' || c == '\u{202F}' || c == '\u{205F}' || c == '\u{3000}'
}

/// `s` without its trailing white space.
pub fn trim_end(s: &str) -> (r: String)
    ensures
        r@ == trim_end_white(s@),
{
    let v = chars_of(s);
    let mut n = v.len();
    assert(v@.subrange(0, n as int) =~= v@);
    while n > 0 && white_space(v[n - 1])
        invariant
            n <= v@.len(),
            trim_end_white(v@.subrange(0, n as int)) == trim_end_white(s@),
            v@ == s@,
        decreases n,
    {
        assert(v@.subrange(0, n as int).drop_last() =~= v@.subrange(0, n - 1));
        n = n - 1;
    }
    let kept = slice_vec(&v, 0, n);
    string_from_chars(kept.as_slice())
}

/// What a line read from the input amounts to.
#[derive(Debug)]
pub enum LineOutcome {
    /// The input ended; the transport is now closed.
    Eof,
    /// The line was empty or white space only; another line is to be read.
    Skip,
    /// A message: the line without its trailing white space.
    Message(String),
}

/// Transport over standard input and output, one message per line; it
/// remembers whether it was closed.
pub struct SyncStdioTransport {
    closed: bool,
}

impl SyncStdioTransport {
    /// Whether the transport is closed.
    pub closed spec fn is_closed_spec(&self) -> bool {
        self.closed
    }

    /// An open transport.
    pub fn new() -> (r: Self)
        ensures
            !r.is_closed_spec(),
    {
        SyncStdioTransport { closed: false }
    }

    /// Whether the transport is closed.
    pub fn is_closed(&self) -> (r: bool)
        ensures
            r == self.is_closed_spec(),
    {
        self.closed
    }

    /// Closes the transport; closing a closed transport is harmless.
    pub fn close(&mut self) -> (r: Result<(), Error>)
        ensures
            final(self).is_closed_spec(),
            r is Ok,
    {
        self.closed = true;
        Ok(())
    }

    /// Whether a message may be sent: not after the transport was closed.
    pub fn check_send(&self) -> (r: Result<(), Error>)
        ensures
            match r {
                Ok(_) => !self.is_closed_spec(),
                Err(e) => self.is_closed_spec() && (e matches Error::Protocol(m) && m@ == "Transport is closed"@),
            },
    {
        if self.closed {
            Err(Error::Protocol(owned("Transport is closed")))
        } else {
            Ok(())
        }
    }

    /// What a read of `bytes_read` bytes giving `line` amounts to: no bytes
    /// mean the end of input and close the transport; a blank line is
    /// skipped; anything else is a message without trailing white space.
    pub fn accept_line(&mut self, bytes_read: usize, line: &str) -> (r: LineOutcome)
        ensures
            bytes_read == 0 ==> r is Eof && final(self).is_closed_spec(),
            bytes_read != 0 ==> final(self).is_closed_spec() == old(self).is_closed_spec(),
            bytes_read != 0 && trim_end_white(line@).len() == 0 ==> r is Skip,
            bytes_read != 0 && trim_end_white(line@).len() != 0 ==> (r matches LineOutcome::Message(m) && m@
                == trim_end_white(line@)),
    {
        if bytes_read == 0 {
            self.closed = true;
            return LineOutcome::Eof;
        }
        let trimmed = trim_end(line);
        if trimmed.as_str().is_empty() {
            LineOutcome::Skip
        } else {
            LineOutcome::Message(trimmed)
        }
    }
}

impl Default for SyncStdioTransport {
    fn default() -> (r: Self)
        ensures
            !r.is_closed_spec(),
    {
        Self::new()
    }
}

} // verus!
