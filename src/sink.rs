//! Text sinks that context descriptions are written to.

use vstd::prelude::*;
use vstd::string::StrSliceExecFns;
use vstd::string::StringExecFns;

verus! {

/// Failure of a text sink to take a write, or a request for text that a
/// context does not have. It is a rendering failure, never a parse failure.
#[derive(Debug, Clone, Copy, PartialEq, Eq)]
pub struct FmtError;

/// A destination for text that may refuse a write.
pub trait Write: Sized {
    /// Everything written so far.
    spec fn text(&self) -> Seq<char>;

    /// Whether a write of `s` would be taken in the current state.
    spec fn accepts(&self, s: Seq<char>) -> bool;

    /// Writes `s` whole, or refuses it and writes nothing.
    fn write_str(&mut self, s: &str) -> (r: Result<(), FmtError>)
        ensures
            r is Ok <==> old(self).accepts(s@),
            r is Ok ==> final(self).text() == old(self).text() + s@,
            r is Err ==> final(self).text() == old(self).text(),
    ;
}

/// `after` is `before` with `s` written when the write was taken, and
/// unchanged when it was refused; it was taken exactly when `before` accepts `s`.
pub open spec fn wrote<W: Write>(before: W, after: W, s: Seq<char>, r: Result<(), FmtError>) -> bool {
    &&& (r is Ok <==> before.accepts(s))
    &&& r is Ok ==> after.text() == before.text() + s
    &&& r is Err ==> after.text() == before.text()
}

/// An in-memory sink that holds at most `limit` characters and refuses any
/// write that would go past it.
pub struct TextSink {
    buf: String,
    limit: usize,
}

impl TextSink {
    /// The greatest number of characters this sink will hold.
    pub closed spec fn spec_limit(&self) -> nat {
        self.limit as nat
    }

    /// An empty sink with no practical bound.
    pub fn new() -> (r: TextSink)
        ensures
            r.text() == Seq::<char>::empty(),
            r.spec_limit() == usize::MAX,
    {
        TextSink { buf: String::new(), limit: usize::MAX }
    }

    /// An empty sink that takes at most `limit` characters.
    pub fn with_limit(limit: usize) -> (r: TextSink)
        ensures
            r.text() == Seq::<char>::empty(),
            r.spec_limit() == limit,
    {
        TextSink { buf: String::new(), limit }
    }

    /// The text written so far.
    pub fn as_str(&self) -> (r: &str)
        ensures
            r@ == self.text(),
    {
        self.buf.as_str()
    }
}

impl Write for TextSink {
    closed spec fn text(&self) -> Seq<char> {
        self.buf@
    }

    open spec fn accepts(&self, s: Seq<char>) -> bool {
        self.text().len() + s.len() <= self.spec_limit()
    }

    fn write_str(&mut self, s: &str) -> (r: Result<(), FmtError>) {
        let used = self.buf.as_str().unicode_len();
        let n = s.unicode_len();
        if used <= self.limit && n <= self.limit - used {
            self.buf.append(s);
            Ok(())
        } else {
            Err(FmtError)
        }
    }
}

} // verus!
