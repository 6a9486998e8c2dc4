//! One output stream of a run: its bytes in, its lines out.

use vstd::prelude::*;
use crate::lines::{LineSplitter, scan};
use crate::output::{OutputLine, StreamTag, decodes_to};

verus! {

/// Reads one stream: splits its bytes into lines and decodes each line.
pub struct StreamDrain {
    tag: StreamTag,
    splitter: LineSplitter,
}

impl StreamDrain {
    pub closed spec fn tag(&self) -> StreamTag {
        self.tag
    }

    /// The bytes received since the last newline.
    pub closed spec fn open_line(&self) -> Seq<u8> {
        self.splitter.open_line()
    }

    /// A drain of `tag`'s stream that has seen no bytes.
    pub fn new(tag: StreamTag) -> (r: StreamDrain)
        ensures
            r.tag() == tag,
            r.open_line() == Seq::<u8>::empty(),
    {
        StreamDrain { tag, splitter: LineSplitter::new() }
    }

    /// Takes the next bytes read from the stream and returns the lines they
    /// complete, decoded, in stream order.
    pub fn feed(&mut self, chunk: &[u8]) -> (out: Vec<OutputLine>)
        ensures
            final(self).tag() == old(self).tag(),
            final(self).open_line() == scan((Seq::empty(), old(self).open_line()), chunk@).1,
            out@.len() == scan((Seq::empty(), old(self).open_line()), chunk@).0.len(),
            forall|i: int|
                0 <= i < out@.len() ==> decodes_to(
                    old(self).tag(),
                    #[trigger] scan((Seq::empty(), old(self).open_line()), chunk@).0[i],
                    out@[i],
                ),
    {
        let raw = self.splitter.push(chunk);
        let ghost lines = scan((Seq::empty(), old(self).open_line()), chunk@).0;
        assert(forall|i: int| 0 <= i < raw@.len() ==> lines[i] == raw@[i]@) by {
            assert forall|i: int| 0 <= i < raw@.len() implies lines[i] == raw@[i]@ by {
                assert(crate::lines::lines_view(raw@)[i] == raw@[i]@);
            }
        }
        let mut raw = raw;
        let ghost all = raw@;
        let mut out: Vec<OutputLine> = Vec::new();
        while raw.len() > 0
            invariant
                out@.len() + raw@.len() == all.len(),
                raw@ == all.subrange(out@.len() as int, all.len() as int),
                forall|j: int| 0 <= j < out@.len() ==> decodes_to(self.tag, all[j]@, #[trigger] out@[j]),
            decreases raw@.len(),
        {
            let bytes = raw.remove(0);
            assert(bytes == all[out@.len() as int]);
            let line = OutputLine::decode(self.tag, bytes);
            out.push(line);
            assert(raw@ =~= all.subrange(out@.len() as int, all.len() as int));
        }
        out
    }

    /// The stream has ended: returns the unterminated last line, decoded,
    /// if any bytes followed the last newline.
    pub fn finish(&mut self) -> (rest: Option<OutputLine>)
        ensures
            final(self).tag() == old(self).tag(),
            final(self).open_line() == Seq::<u8>::empty(),
            old(self).open_line().len() == 0 ==> rest is None,
            old(self).open_line().len() > 0 ==> rest is Some && decodes_to(
                old(self).tag(),
                old(self).open_line(),
                rest->0,
            ),
    {
        match self.splitter.finish() {
            Some(bytes) => Some(OutputLine::decode(self.tag, bytes)),
            None => None,
        }
    }
}

} // verus!
