use vstd::prelude::*;

verus! {

/// A line-oriented output sink.
///
/// `contents` is the whole byte sequence the sink has received so far;
/// `write_line` appends to it and never drops, reorders or rewrites what was
/// written before. Production sinks wrap a synchronized stream behind this
/// capability; tests use the in-memory `MemorySink`.
pub trait SendWriter {
    /// The bytes this sink has received so far.
    spec fn contents(&self) -> Seq<u8>;

    /// Appends `line` to the sink.
    fn write_line(&mut self, line: &Vec<u8>)
        ensures
            final(self).contents() == old(self).contents() + line@,
    ;
}

/// An in-memory sink that keeps every byte it receives in a buffer.
pub struct MemorySink {
    pub buffer: Vec<u8>,
}

impl MemorySink {
    /// An empty sink.
    pub fn new() -> (r: MemorySink)
        ensures
            r.contents() == Seq::<u8>::empty(),
    {
        MemorySink { buffer: Vec::new() }
    }

    /// The bytes received so far.
    pub fn bytes(&self) -> (r: &Vec<u8>)
        ensures
            r@ == self.contents(),
    {
        &self.buffer
    }
}

impl SendWriter for MemorySink {
    open spec fn contents(&self) -> Seq<u8> {
        self.buffer@
    }

    fn write_line(&mut self, line: &Vec<u8>) {
        let mut i: usize = 0;
        while i < line.len()
            invariant
                i <= line.len(),
                self.buffer@ == old(self).buffer@ + line@.subrange(0, i as int),
            decreases line.len() - i,
        {
            self.buffer.push(line[i]);
            assert(self.buffer@ =~= old(self).buffer@ + line@.subrange(0, i as int + 1));
            i = i + 1;
        }
        assert(line@.subrange(0, line@.len() as int) =~= line@);
    }
}

} // verus!
