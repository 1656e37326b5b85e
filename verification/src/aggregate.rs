use vstd::prelude::*;
use vstd::string::StrSliceExecFns;
use vstd::string::StringExecFns;

verus! {

/// How the aggregated reply grows when one extracted payload is appended:
/// a single separating space is inserted when the buffer already holds text
/// and the payload does not itself start with a space.
pub open spec fn spec_append(buf: Seq<char>, text: Seq<char>) -> Seq<char> {
    if buf.len() > 0 && !(text.len() > 0 && text[0] == ' ') {
        buf + seq![' '] + text
    } else {
        buf + text
    }
}

/// How the aggregated reply grows when one plain-text fallback line is
/// appended: lines are newline-joined.
pub open spec fn spec_append_line(buf: Seq<char>, line: Seq<char>) -> Seq<char> {
    if buf.len() > 0 {
        buf + seq!['\n'] + line
    } else {
        buf + line
    }
}

/// Single-writer accumulation of normalized payload text into one reply.
pub struct ResponseAggregator {
    buf: String,
}

impl View for ResponseAggregator {
    type V = Seq<char>;

    closed spec fn view(&self) -> Seq<char> {
        self.buf@
    }
}

impl ResponseAggregator {
    /// An empty aggregate.
    pub fn new() -> (r: ResponseAggregator)
        ensures
            r@ == Seq::<char>::empty(),
    {
        ResponseAggregator { buf: String::new() }
    }

    /// Whether nothing has been aggregated yet.
    pub fn is_empty(&self) -> (b: bool)
        ensures
            b == (self@.len() == 0),
    {
        self.buf.as_str().is_empty()
    }

    /// Folds one extracted payload into the reply, space-joined.
    pub fn append(&mut self, text: &str)
        ensures
            final(self)@ == spec_append(old(self)@, text@),
    {
        let mut need_space = false;
        if !self.buf.as_str().is_empty() {
            if text.is_empty() {
                need_space = true;
            } else {
                need_space = text.get_char(0) != ' ';
            }
        }
        if need_space {
            self.buf.append(" ");
            proof {
                reveal_strlit(" ");
                assert(self.buf@ =~= old(self)@ + seq![' ']);
            }
        }
        self.buf.append(text);
        proof {
            assert(self.buf@ =~= spec_append(old(self)@, text@));
        }
    }

    /// Folds one plain-text fallback line into the reply, newline-joined.
    pub fn append_line(&mut self, line: &str)
        ensures
            final(self)@ == spec_append_line(old(self)@, line@),
    {
        if !self.buf.as_str().is_empty() {
            self.buf.append("\n");
            proof {
                reveal_strlit("\n");
                assert(self.buf@ =~= old(self)@ + seq!['\n']);
            }
        }
        self.buf.append(line);
        proof {
            assert(self.buf@ =~= spec_append_line(old(self)@, line@));
        }
    }

    /// A read-only copy of the reply aggregated so far.
    pub fn snapshot(&self) -> (s: String)
        ensures
            s@ == self@,
    {
        self.buf.clone()
    }
}

} // verus!
