//! The record a tee keeps of the bytes that pass through a stream.

use vstd::prelude::*;

verus! {

/// The bytes written to and read from a stream, as its caller saw them.
#[derive(Debug)]
pub struct Tee {
    pub writes: Vec<u8>,
    pub reads: Vec<u8>,
}

impl Tee {
    /// A record with nothing on it.
    pub fn new() -> (t: Tee)
        ensures
            t.writes@.len() == 0,
            t.reads@.len() == 0,
    {
        Tee { writes: Vec::new(), reads: Vec::new() }
    }

    /// A write took the first `accepted` bytes of `buf`: those, and no
    /// others, go on record after what was written before. More than `buf`
    /// holds cannot have been taken; the count is then read as all of it.
    pub fn wrote(&mut self, buf: &[u8], accepted: usize)
        ensures
            final(self).writes@ == old(self).writes@ + buf@.subrange(
                0,
                if accepted <= buf@.len() {
                    accepted as int
                } else {
                    buf@.len() as int
                },
            ),
            final(self).reads == old(self).reads,
    {
        let n: usize = if accepted <= buf.len() {
            accepted
        } else {
            buf.len()
        };
        let mut i: usize = 0;
        while i < n
            invariant
                i <= n <= buf@.len(),
                self.reads == old(self).reads,
                self.writes@ == old(self).writes@ + buf@.subrange(0, i as int),
            decreases n - i,
        {
            self.writes.push(buf[i]);
            assert(self.writes@ =~= old(self).writes@ + buf@.subrange(0, i as int + 1));
            i += 1;
        }
    }

    /// A read handed `filled` to the caller: these bytes go on record after
    /// what was read before. Bytes that the stream holds back are not among
    /// them.
    pub fn read(&mut self, filled: &[u8])
        ensures
            final(self).reads@ == old(self).reads@ + filled@,
            final(self).writes == old(self).writes,
    {
        let mut i: usize = 0;
        while i < filled.len()
            invariant
                i <= filled@.len(),
                self.writes == old(self).writes,
                self.reads@ == old(self).reads@ + filled@.subrange(0, i as int),
            decreases filled@.len() - i,
        {
            self.reads.push(filled[i]);
            assert(self.reads@ =~= old(self).reads@ + filled@.subrange(0, i as int + 1));
            i += 1;
        }
        assert(self.reads@ =~= old(self).reads@ + filled@);
    }

    /// Gives up the record: the bytes written, then the bytes read.
    pub fn into_parts(self) -> (r: (Vec<u8>, Vec<u8>))
        ensures
            r.0 == self.writes,
            r.1 == self.reads,
    {
        (self.writes, self.reads)
    }
}

} // verus!
