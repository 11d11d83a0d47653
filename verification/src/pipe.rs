//! Pipes: bounded byte queues between a write end and a read end.
use vstd::prelude::*;

verus! {

/// A pipe's buffer: bytes written and not yet read, oldest first.
pub struct Pipe {
    pub data: Vec<u8>,
    pub capacity: usize,
}

impl Pipe {
    /// The buffer holds no more than the capacity.
    pub open spec fn wf(&self) -> bool {
        self.data.len() <= self.capacity
    }

    /// An empty pipe of the given capacity.
    pub fn new(capacity: usize) -> (p: Pipe)
        ensures
            p.wf(),
            p.data@ == Seq::<u8>::empty(),
            p.capacity == capacity,
    {
        Pipe { data: Vec::new(), capacity }
    }

    /// Removes and returns the oldest bytes, as many as are buffered and at
    /// most `max`.
    pub fn read(&mut self, max: usize) -> (out: Vec<u8>)
        requires
            old(self).wf(),
        ensures
            final(self).wf(),
            final(self).capacity == old(self).capacity,
            out@.len() == if old(self).data@.len() < max {
                old(self).data@.len()
            } else {
                max as nat
            },
            out@ == old(self).data@.subrange(0, out@.len() as int),
            final(self).data@ == old(self).data@.subrange(out@.len() as int, old(self).data@.len() as int),
    {
        let n = if self.data.len() < max {
            self.data.len()
        } else {
            max
        };
        let mut out: Vec<u8> = Vec::new();
        let mut rest: Vec<u8> = Vec::new();
        let mut i: usize = 0;
        while i < self.data.len()
            invariant
                n <= self.data.len(),
                i <= self.data.len(),
                out@ == self.data@.subrange(0, if i < n { i as int } else { n as int }),
                rest@ == if i <= n {
                    Seq::<u8>::empty()
                } else {
                    self.data@.subrange(n as int, i as int)
                },
            decreases self.data.len() - i,
        {
            if i < n {
                out.push(self.data[i]);
            } else {
                rest.push(self.data[i]);
            }
            i = i + 1;
            assert(out@ =~= self.data@.subrange(0, if i < n { i as int } else { n as int }));
            assert(rest@ =~= if i <= n {
                Seq::<u8>::empty()
            } else {
                self.data@.subrange(n as int, i as int)
            });
        }
        assert(rest@ =~= self.data@.subrange(n as int, self.data@.len() as int));
        self.data = rest;
        out
    }

    /// Appends as much of `buf` as there is room for and returns how much.
    pub fn write(&mut self, buf: &[u8]) -> (n: usize)
        requires
            old(self).wf(),
        ensures
            final(self).wf(),
            final(self).capacity == old(self).capacity,
            n == if buf@.len() < old(self).capacity - old(self).data@.len() {
                buf@.len() as int
            } else {
                old(self).capacity - old(self).data@.len()
            },
            final(self).data@ == old(self).data@ + buf@.subrange(0, n as int),
    {
        let room = self.capacity - self.data.len();
        let n = if buf.len() < room {
            buf.len()
        } else {
            room
        };
        let ghost start = self.data@;
        let mut i: usize = 0;
        while i < n
            invariant
                i <= n,
                n <= buf@.len(),
                self.capacity == old(self).capacity,
                start == old(self).data@,
                start.len() + n <= self.capacity,
                self.data@ == start + buf@.subrange(0, i as int),
            decreases n - i,
        {
            self.data.push(buf[i]);
            i = i + 1;
            assert(self.data@ =~= start + buf@.subrange(0, i as int));
        }
        n
    }

    /// Buffered bytes are waiting to be read.
    pub fn r_ready(&self) -> (b: bool)
        ensures
            b == (self.data@.len() > 0),
    {
        self.data.len() > 0
    }

    /// There is room to write.
    pub fn w_ready(&self) -> (b: bool)
        requires
            self.wf(),
        ensures
            b == (self.data@.len() < self.capacity),
    {
        self.data.len() < self.capacity
    }
}

} // verus!
