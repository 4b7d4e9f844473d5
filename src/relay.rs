use vstd::prelude::*;
use vstd::slice::{slice_subrange, slice_to_vec};

verus! {

/// Which side of a copy failed.
#[derive(Clone, Copy, Debug, PartialEq, Eq, Structural)]
pub enum RelayFault {
    /// Reading from the source failed.
    Read,
    /// Writing to the destination failed, or took no bytes.
    Write,
}

/// Where one direction of a relay stands.
#[derive(Clone, Copy, Debug, PartialEq, Eq, Structural)]
pub enum Stage {
    /// Nothing is pending: the next step is a read from the source.
    Reading,
    /// A chunk has been read and part of it is still to be written.
    Writing,
    /// The source reached its end and everything read has been written.
    Finished,
    /// The copy stopped on an error.
    Failed(RelayFault),
}

/// One direction of a relay: bytes read from a source are written, in order
/// and unchanged, to a destination, one chunk in flight at a time.
///
/// Besides the chunk in flight, the relay keeps a ghost record of every byte
/// read from the source and every byte handed to the destination.
pub struct Relay {
    chunk: Vec<u8>,
    written: usize,
    count: u64,
    stage: Stage,
    received: Ghost<Seq<u8>>,
    delivered: Ghost<Seq<u8>>,
}

impl Relay {
    /// Every byte read from the source so far.
    pub closed spec fn received(&self) -> Seq<u8> {
        self.received@
    }

    /// Every byte that the destination has taken so far.
    pub closed spec fn delivered(&self) -> Seq<u8> {
        self.delivered@
    }

    /// The bytes read and not yet written.
    pub closed spec fn pending_spec(&self) -> Seq<u8> {
        self.chunk@.subrange(self.written as int, self.chunk@.len() as int)
    }

    pub closed spec fn stage_spec(&self) -> Stage {
        self.stage
    }

    pub closed spec fn wf(&self) -> bool {
        &&& self.written <= self.chunk@.len()
        &&& self.delivered@ + self.pending_spec() == self.received@
        &&& self.count as int == self.delivered@.len()
        &&& self.received@.len() <= u64::MAX
        &&& self.stage == Stage::Writing ==> self.written < self.chunk@.len()
        &&& (self.stage == Stage::Reading || self.stage == Stage::Finished) ==> self.written
            == self.chunk@.len()
    }

    proof fn lemma_wf_parts(&self)
        requires
            self.wf(),
        ensures
            self.delivered().is_prefix_of(self.received()),
            self.received() == self.delivered() + self.pending_spec(),
            (self.stage == Stage::Reading || self.stage == Stage::Finished) ==> self.pending_spec()
                == Seq::<u8>::empty(),
    {
        let d = self.delivered@;
        let p = self.pending_spec();
        assert((d + p).subrange(0, d.len() as int) =~= d);
        if self.stage == Stage::Reading || self.stage == Stage::Finished {
            assert(p =~= Seq::<u8>::empty());
        }
    }

    /// A relay that has copied nothing yet.
    pub fn new() -> (r: Relay)
        ensures
            r.wf(),
            r.received() == Seq::<u8>::empty(),
            r.delivered() == Seq::<u8>::empty(),
            r.stage_spec() == Stage::Reading,
    {
        Relay {
            chunk: Vec::new(),
            written: 0,
            count: 0,
            stage: Stage::Reading,
            received: Ghost(Seq::empty()),
            delivered: Ghost(Seq::empty()),
        }
    }

    /// Where the copy stands.
    pub fn stage(&self) -> (r: Stage)
        ensures
            r == self.stage_spec(),
    {
        self.stage
    }

    /// The number of bytes that the destination has taken.
    pub fn count(&self) -> (r: u64)
        requires
            self.wf(),
        ensures
            r == self.delivered().len(),
    {
        self.count
    }

    /// The bytes still to be written to the destination.
    pub fn pending(&self) -> (r: &[u8])
        requires
            self.wf(),
        ensures
            r@ == self.pending_spec(),
            self.delivered() + r@ == self.received(),
    {
        slice_subrange(self.chunk.as_slice(), self.written, self.chunk.len())
    }

    /// Takes the outcome of a read from the source: `data` holds the bytes
    /// read, and an empty `data` is the end of the source, which ends the copy
    /// without error.
    pub fn on_read(&mut self, data: &[u8])
        requires
            old(self).wf(),
            old(self).stage_spec() == Stage::Reading,
            old(self).delivered().len() + data@.len() <= u64::MAX,
        ensures
            final(self).wf(),
            final(self).delivered() == old(self).delivered(),
            final(self).received() == old(self).received() + data@,
            data@.len() == 0 ==> final(self).stage_spec() == Stage::Finished,
            data@.len() > 0 ==> final(self).stage_spec() == Stage::Writing && final(self).pending_spec() == data@,
    {
        if data.len() == 0 {
            self.stage = Stage::Finished;
            assert(data@ =~= Seq::<u8>::empty());
            assert(self.received@ + data@ =~= self.received@);
        } else {
            self.chunk = slice_to_vec(data);
            self.written = 0;
            self.stage = Stage::Writing;
            self.received = Ghost(self.received@ + data@);
            assert(self.pending_spec() =~= data@);
        }
    }

    /// A read from the source failed: the copy stops with that fault.
    pub fn on_read_error(&mut self)
        requires
            old(self).wf(),
            old(self).stage_spec() == Stage::Reading,
        ensures
            final(self).wf(),
            final(self).received() == old(self).received(),
            final(self).delivered() == old(self).delivered(),
            final(self).stage_spec() == Stage::Failed(RelayFault::Read),
    {
        self.stage = Stage::Failed(RelayFault::Read);
    }

    /// The destination took the first `n` pending bytes. A write that takes no
    /// bytes stops the copy with a write fault, as the destination can take no
    /// more.
    pub fn on_written(&mut self, n: usize)
        requires
            old(self).wf(),
            old(self).stage_spec() == Stage::Writing,
            n <= old(self).pending_spec().len(),
        ensures
            final(self).wf(),
            final(self).received() == old(self).received(),
            n == 0 ==> final(self).delivered() == old(self).delivered() && final(self).stage_spec()
                == Stage::Failed(RelayFault::Write),
            n > 0 ==> final(self).delivered() == old(self).delivered() + old(self).pending_spec().subrange(0, n as int),
            n > 0 && n == old(self).pending_spec().len() ==> final(self).stage_spec()
                == Stage::Reading,
            n > 0 && n < old(self).pending_spec().len() ==> final(self).stage_spec()
                == Stage::Writing && final(self).pending_spec() == old(self).pending_spec().subrange(n as int, old(self).pending_spec().len() as int),
    {
        if n == 0 {
            self.stage = Stage::Failed(RelayFault::Write);
            return;
        }
        let len = self.chunk.len();
        let ghost old_pending = self.pending_spec();
        assert(old_pending.len() == self.chunk@.len() - self.written);
        assert(self.count + n <= self.received@.len());
        let ghost old_delivered = self.delivered@;
        self.delivered = Ghost(self.delivered@ + old_pending.subrange(0, n as int));
        self.written = self.written + n;
        self.count = self.count + n as u64;
        if self.written == len {
            self.chunk.clear();
            self.written = 0;
            self.stage = Stage::Reading;
            assert(old_pending.subrange(0, n as int) =~= old_pending);
            assert(self.pending_spec() =~= Seq::<u8>::empty());
            assert(self.delivered@ + self.pending_spec() =~= self.delivered@);
        } else {
            assert(self.pending_spec() =~= old_pending.subrange(n as int, old_pending.len() as int));
            assert(old_pending =~= old_pending.subrange(0, n as int) + old_pending.subrange(
                n as int,
                old_pending.len() as int,
            ));
            assert(self.delivered@ + self.pending_spec() =~= old_delivered + old_pending);
        }
    }

    /// A write to the destination failed: the copy stops with that fault.
    pub fn on_write_error(&mut self)
        requires
            old(self).wf(),
            old(self).stage_spec() == Stage::Writing,
        ensures
            final(self).wf(),
            final(self).received() == old(self).received(),
            final(self).delivered() == old(self).delivered(),
            final(self).stage_spec() == Stage::Failed(RelayFault::Write),
    {
        self.stage = Stage::Failed(RelayFault::Write);
    }
}

/// At every point of a copy, what the destination has taken is, in order and
/// unchanged, the start of what was read from the source: the relay adds no
/// framing and drops or reorders nothing. Once the copy has finished, the
/// destination has taken all of it.
pub proof fn lemma_relay_transparent(r: &Relay)
    requires
        r.wf(),
    ensures
        r.delivered().is_prefix_of(r.received()),
        r.received() == r.delivered() + r.pending_spec(),
        r.stage_spec() == Stage::Finished ==> r.delivered() == r.received(),
        r.stage_spec() == Stage::Reading ==> r.delivered() == r.received(),
{
    r.lemma_wf_parts();
}

} // verus!
