//! Splitting a byte stream into lines at newline boundaries.
//!
//! The stream arrives in chunks of arbitrary size; a [`LineSplitter`] keeps
//! the bytes of the line still open between chunks, so that the lines it hands
//! out depend only on the bytes seen, never on where the chunks were cut.

use vstd::prelude::*;

verus! {

/// The byte that ends a line.
pub const NEWLINE: u8 = 10;

/// One step of a scan: a newline closes the open line, any other byte
/// extends it. The state is (lines completed so far, bytes of the open line).
pub open spec fn scan_byte(st: (Seq<Seq<u8>>, Seq<u8>), b: u8) -> (Seq<Seq<u8>>, Seq<u8>) {
    if b == NEWLINE {
        (st.0.push(st.1), Seq::empty())
    } else {
        (st.0, st.1.push(b))
    }
}

/// The state reached from `st` after the bytes `bytes`, in order.
pub open spec fn scan(st: (Seq<Seq<u8>>, Seq<u8>), bytes: Seq<u8>) -> (Seq<Seq<u8>>, Seq<u8>)
    decreases bytes.len(),
{
    if bytes.len() == 0 {
        st
    } else {
        scan_byte(scan(st, bytes.drop_last()), bytes.last())
    }
}

/// The contents of each line of `v`.
pub open spec fn lines_view(v: Seq<Vec<u8>>) -> Seq<Seq<u8>> {
    v.map_values(|l: Vec<u8>| l@)
}

/// Scanning two pieces one after the other is scanning their concatenation.
pub proof fn lemma_scan_concat(st: (Seq<Seq<u8>>, Seq<u8>), a: Seq<u8>, b: Seq<u8>)
    ensures
        scan(st, a + b) == scan(scan(st, a), b),
    decreases b.len(),
{
    if b.len() == 0 {
        assert(a + b =~= a);
    } else {
        assert((a + b).drop_last() =~= a + b.drop_last());
        assert((a + b).last() == b.last());
        lemma_scan_concat(st, a, b.drop_last());
    }
}

/// The lines already completed are kept, in front of those a scan adds.
pub proof fn lemma_scan_keeps_lines(lines: Seq<Seq<u8>>, open: Seq<u8>, b: Seq<u8>)
    ensures
        scan((lines, open), b).0 == lines + scan((Seq::empty(), open), b).0,
        scan((lines, open), b).1 == scan((Seq::empty(), open), b).1,
    decreases b.len(),
{
    if b.len() == 0 {
        assert(lines + Seq::<Seq<u8>>::empty() =~= lines);
    } else {
        lemma_scan_keeps_lines(lines, open, b.drop_last());
        let r = scan((Seq::empty(), open), b.drop_last());
        if b.last() == NEWLINE {
            assert(lines + r.0.push(r.1) =~= (lines + r.0).push(r.1));
        }
    }
}

/// Where a stream is cut into chunks does not matter: the lines handed out for
/// `a` and then for `b` are the lines handed out for `a + b`, and the line left
/// open afterwards is the same.
pub proof fn lemma_chunking_is_invisible(open: Seq<u8>, a: Seq<u8>, b: Seq<u8>)
    ensures
        scan((Seq::empty(), open), a).0 + scan((Seq::empty(), scan((Seq::empty(), open), a).1), b).0
            == scan((Seq::empty(), open), a + b).0,
        scan((Seq::empty(), scan((Seq::empty(), open), a).1), b).1 == scan((Seq::empty(), open), a + b).1,
{
    let ra = scan((Seq::empty(), open), a);
    lemma_scan_concat((Seq::empty(), open), a, b);
    lemma_scan_keeps_lines(ra.0, ra.1, b);
}

/// Holds the bytes of the line that is still open.
pub struct LineSplitter {
    pending: Vec<u8>,
}

impl LineSplitter {
    /// The bytes received since the last newline.
    pub closed spec fn open_line(&self) -> Seq<u8> {
        self.pending@
    }

    /// A splitter that has seen no bytes.
    pub fn new() -> (r: LineSplitter)
        ensures
            r.open_line() == Seq::<u8>::empty(),
    {
        LineSplitter { pending: Vec::new() }
    }

    /// Takes the next chunk of the stream and returns the lines that it
    /// completes, without their newline, in stream order.
    pub fn push(&mut self, chunk: &[u8]) -> (out: Vec<Vec<u8>>)
        ensures
            lines_view(out@) == scan((Seq::empty(), old(self).open_line()), chunk@).0,
            final(self).open_line() == scan((Seq::empty(), old(self).open_line()), chunk@).1,
    {
        let mut out: Vec<Vec<u8>> = Vec::new();
        let ghost start = self.pending@;
        let mut i: usize = 0;
        while i < chunk.len()
            invariant
                i <= chunk@.len(),
                lines_view(out@) == scan((Seq::empty(), start), chunk@.subrange(0, i as int)).0,
                self.pending@ == scan((Seq::empty(), start), chunk@.subrange(0, i as int)).1,
            decreases chunk@.len() - i,
        {
            let b = chunk[i];
            assert(chunk@.subrange(0, i + 1).drop_last() =~= chunk@.subrange(0, i as int));
            if b == NEWLINE {
                let mut line: Vec<u8> = Vec::new();
                core::mem::swap(&mut line, &mut self.pending);
                let ghost before = out@;
                out.push(line);
                assert(lines_view(out@) =~= lines_view(before).push(line@));
            } else {
                self.pending.push(b);
            }
            i += 1;
        }
        assert(chunk@.subrange(0, chunk@.len() as int) =~= chunk@);
        out
    }

    /// Ends the stream: returns the unterminated rest, if any bytes are left
    /// after the last newline, and leaves the splitter empty.
    pub fn finish(&mut self) -> (rest: Option<Vec<u8>>)
        ensures
            final(self).open_line() == Seq::<u8>::empty(),
            old(self).open_line().len() == 0 ==> rest is None,
            old(self).open_line().len() > 0 ==> rest is Some && rest->0@ == old(self).open_line(),
    {
        let mut line: Vec<u8> = Vec::new();
        core::mem::swap(&mut line, &mut self.pending);
        if line.len() == 0 {
            None
        } else {
            Some(line)
        }
    }
}

} // verus!
