use vstd::prelude::*;
use crate::error::MessageReceiveError;

verus! {

/// Progress of copying a body of known length between the connection and memory.
pub struct TransferProgress {
    total: u64,
    done: u64,
}

impl View for TransferProgress {
    /// (bytes to move, bytes moved so far)
    type V = (nat, nat);

    closed spec fn view(&self) -> (nat, nat) {
        (self.total as nat, self.done as nat)
    }
}

impl TransferProgress {
    /// Never more bytes moved than announced.
    pub open spec fn wf(&self) -> bool {
        self@.1 <= self@.0
    }

    /// A transfer of `total` bytes, none moved yet.
    pub fn new(total: u64) -> (r: TransferProgress)
        ensures
            r@ == (total as nat, 0nat),
            r.wf(),
    {
        TransferProgress { total, done: 0 }
    }

    /// Bytes to move in all.
    pub fn total(&self) -> (r: u64)
        ensures
            r == self@.0,
    {
        self.total
    }

    /// Bytes moved so far.
    pub fn done(&self) -> (r: u64)
        ensures
            r == self@.1,
    {
        self.done
    }

    /// Bytes still to move.
    pub fn remaining(&self) -> (r: u64)
        requires
            self.wf(),
        ensures
            r == self@.0 - self@.1,
    {
        self.total - self.done
    }

    /// Whether every announced byte has moved.
    pub fn is_complete(&self) -> (r: bool)
        ensures
            r == (self@.1 == self@.0),
    {
        self.done == self.total
    }

    /// How many bytes the next read or write should move with a buffer of
    /// `buffer_len` bytes: as many as fit, but never past the end of the body.
    pub fn next_chunk_len(&self, buffer_len: usize) -> (r: usize)
        requires
            self.wf(),
        ensures
            r <= buffer_len,
            r <= self@.0 - self@.1,
            r == buffer_len || r == self@.0 - self@.1,
    {
        let remaining = self.total - self.done;
        if (buffer_len as u64) <= remaining {
            buffer_len
        } else {
            remaining as usize
        }
    }

    /// Records that `n` more bytes moved. Refused, with nothing recorded, when
    /// that would pass the announced total.
    pub fn record(&mut self, n: u64) -> (r: bool)
        requires
            old(self).wf(),
        ensures
            final(self).wf(),
            r == (old(self)@.1 + n <= old(self)@.0),
            r ==> final(self)@ == (old(self)@.0, (old(self)@.1 + n) as nat),
            !r ==> final(self)@ == old(self)@,
    {
        if n <= self.total - self.done {
            self.done = self.done + n;
            true
        } else {
            false
        }
    }

    /// Handles the outcome of one read of the body: `n` bytes arrived, where 0
    /// means that the stream ended. A stream that ends early, or a read past the
    /// declared length, is a body error.
    pub fn on_read(&mut self, n: u64) -> (r: Result<(), MessageReceiveError>)
        requires
            old(self).wf(),
        ensures
            final(self).wf(),
            r is Ok <==> (n == 0 && old(self)@.1 == old(self)@.0) || (n > 0 && old(self)@.1 + n
                <= old(self)@.0),
            r matches Err(e) ==> e == MessageReceiveError::Body,
            r is Ok ==> final(self)@ == (old(self)@.0, (old(self)@.1 + n) as nat),
            r is Err ==> final(self)@ == old(self)@,
    {
        if n == 0 {
            if self.done == self.total {
                Ok(())
            } else {
                Err(MessageReceiveError::Body)
            }
        } else if self.record(n) {
            Ok(())
        } else {
            Err(MessageReceiveError::Body)
        }
    }
}

} // verus!
