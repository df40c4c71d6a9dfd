//! Models of device-resident buffers and of the two uniform write paths.
//!
//! A uniform buffer is, to the rest of the library, a byte range whose
//! contents change only through the operations here.  Two synchronization
//! strategies exist: a direct queue-level write, and a staging buffer whose
//! contents are copied into the destination by a recorded command.  The
//! queue serializes submitted work, so both leave the destination holding
//! exactly the written payload; `lemma_sync_strategies_agree` states that.

use vstd::prelude::*;

verus! {

/// A device-resident uniform buffer.  Created once with its initial
/// contents; its length never changes afterwards.
pub struct UniformBuffer {
    pub data: Vec<u8>,
}

/// A transient host-writable buffer used as the source of an explicit
/// buffer-to-buffer copy.
pub struct StagingBuffer {
    pub data: Vec<u8>,
}

/// The contents of a buffer after a direct queue-level write of `payload`
/// over `before`.
pub open spec fn after_direct_write(before: Seq<u8>, payload: Seq<u8>) -> Seq<u8> {
    payload
}

/// The contents of a buffer after a submission that copies a staging buffer
/// created with `payload` over `before`.
pub open spec fn after_staged_copy(before: Seq<u8>, payload: Seq<u8>) -> Seq<u8> {
    payload
}

impl UniformBuffer {
    /// Allocates the buffer with `contents` as its initial value.
    pub fn new_init(contents: Vec<u8>) -> (b: UniformBuffer)
        ensures
            b.data@ == contents@,
    {
        UniformBuffer { data: contents }
    }

    /// Direct queue-level write of a full payload; the buffer's size is
    /// fixed, so the payload must match it exactly.
    pub fn write(&mut self, payload: &Vec<u8>)
        requires
            payload@.len() == old(self).data@.len(),
        ensures
            final(self).data@ == after_direct_write(old(self).data@, payload@),
    {
        let mut copied: Vec<u8> = Vec::new();
        let mut i: usize = 0;
        while i < payload.len()
            invariant
                i <= payload@.len(),
                copied@ == payload@.take(i as int),
            decreases payload@.len() - i,
        {
            copied.push(payload[i]);
            proof {
                assert(copied@ =~= payload@.take(i + 1));
            }
            i = i + 1;
        }
        proof {
            assert(payload@.take(payload@.len() as int) =~= payload@);
        }
        self.data = copied;
    }

    /// Readback of the whole buffer, byte for byte.
    pub fn read(&self) -> (out: Vec<u8>)
        ensures
            out@ == self.data@,
    {
        let mut out: Vec<u8> = Vec::new();
        let mut i: usize = 0;
        while i < self.data.len()
            invariant
                i <= self.data@.len(),
                out@ == self.data@.take(i as int),
            decreases self.data@.len() - i,
        {
            out.push(self.data[i]);
            proof {
                assert(out@ =~= self.data@.take(i + 1));
            }
            i = i + 1;
        }
        proof {
            assert(self.data@.take(self.data@.len() as int) =~= self.data@);
        }
        out
    }
}

impl StagingBuffer {
    /// Allocates a staging buffer holding `contents`.
    pub fn new_init(contents: Vec<u8>) -> (b: StagingBuffer)
        ensures
            b.data@ == contents@,
    {
        StagingBuffer { data: contents }
    }
}

/// The recorded buffer-to-buffer copy: once the submission is executed the
/// destination holds the source's bytes.
pub fn copy_buffer_to_buffer(src: &StagingBuffer, dst: &mut UniformBuffer)
    requires
        src.data@.len() == old(dst).data@.len(),
    ensures
        final(dst).data@ == after_staged_copy(old(dst).data@, src.data@),
{
    dst.write(&src.data)
}

/// Both synchronization strategies leave the destination buffer holding the
/// same bytes: the payload itself, whatever it held before, because the
/// queue serializes the copy against later work exactly as it serializes a
/// direct write.
pub proof fn lemma_sync_strategies_agree(before: Seq<u8>, payload: Seq<u8>)
    ensures
        after_direct_write(before, payload) == after_staged_copy(before, payload),
        after_direct_write(before, payload) == payload,
{
}

} // verus!
