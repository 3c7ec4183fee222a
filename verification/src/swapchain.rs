use vstd::prelude::*;

verus! {

/// One fixed-size packed-pixel frame buffer of a swap chain slot.
pub struct Buffer {
    pub buf: Vec<u32>,
}

impl Buffer {
    pub fn new(width: u32, height: u32) -> (r: Self)
        requires
            width as nat * height as nat <= u32::MAX,
        ensures
            r.buf@.len() == width as nat * height as nat,
            forall|i: int| 0 <= i < r.buf@.len() ==> r.buf@[i] == 0,
    {
        let n: u32 = width * height;
        let mut buf: Vec<u32> = Vec::new();
        let mut i: u32 = 0;
        while i < n
            invariant
                i <= n,
                buf@.len() == i as nat,
                forall|j: int| 0 <= j < i as int ==> buf@[j] == 0,
            decreases n - i,
        {
            buf.push(0);
            i = i + 1;
        }
        Self { buf }
    }
}

/// The abstract state of a double-buffer swap chain: the pixel contents of
/// its two slots, a readiness flag per slot, which slot is currently front
/// (exposed to the consumer), and whether the chain has been shut down.
#[verifier::ext_equal]
pub struct ChainView {
    pub slot0: Seq<u32>,
    pub slot1: Seq<u32>,
    pub ready0: bool,
    pub ready1: bool,
    pub front: int,
    pub closed: bool,
}

impl ChainView {
    pub open spec fn slot(self, i: int) -> Seq<u32> {
        if i == 0 {
            self.slot0
        } else {
            self.slot1
        }
    }

    pub open spec fn ready(self, i: int) -> bool {
        if i == 0 {
            self.ready0
        } else {
            self.ready1
        }
    }

    pub open spec fn wf(self, size: nat) -> bool {
        &&& self.front == 0 || self.front == 1
        &&& self.slot0.len() == size
        &&& self.slot1.len() == size
    }
}

/// The producer completes a frame: the back slot is overwritten with the new
/// pixels, marked ready, and published by making it the new front. The slot
/// the consumer was reading from is left untouched.
pub open spec fn produce_frame(v: ChainView, frame: Seq<u32>) -> ChainView {
    ChainView {
        slot0: if v.front == 1 {
            frame
        } else {
            v.slot0
        },
        slot1: if v.front == 1 {
            v.slot1
        } else {
            frame
        },
        ready0: if v.front == 1 {
            true
        } else {
            v.ready0
        },
        ready1: if v.front == 1 {
            v.ready1
        } else {
            true
        },
        front: 1 - v.front,
        closed: v.closed,
    }
}

/// The consumer finishes reading the front slot: its ready flag is cleared
/// so the same frame is not presented twice; the pixels stay intact.
pub open spec fn consume_front(v: ChainView) -> ChainView {
    ChainView {
        slot0: v.slot0,
        slot1: v.slot1,
        ready0: if v.front == 0 {
            false
        } else {
            v.ready0
        },
        ready1: if v.front == 0 {
            v.ready1
        } else {
            false
        },
        front: v.front,
        closed: v.closed,
    }
}

/// Shutdown: only the closed flag changes.
pub open spec fn shut(v: ChainView) -> ChainView {
    ChainView {
        slot0: v.slot0,
        slot1: v.slot1,
        ready0: v.ready0,
        ready1: v.ready1,
        front: v.front,
        closed: true,
    }
}

/// Hands completed frames from a producer to a display consumer through two
/// alternating fixed-size buffers, so that the consumer only ever observes
/// fully written frames and the producer never overwrites the frame being
/// consumed.
///
/// This type is the sequential core of the protocol: every step is a whole
/// frame. Callers that run producer and consumer on different threads
/// serialize these operations (and park the consumer until `wait_use_front`
/// can succeed) outside this crate.
pub struct DoubleBufferSwapChain {
    buffers: [Buffer; 2],
    ready: [bool; 2],
    front: u8,
    closed: bool,
    width: u32,
    height: u32,
}

impl View for DoubleBufferSwapChain {
    type V = ChainView;

    closed spec fn view(&self) -> ChainView {
        ChainView {
            slot0: self.buffers[0].buf@,
            slot1: self.buffers[1].buf@,
            ready0: self.ready[0],
            ready1: self.ready[1],
            front: self.front as int,
            closed: self.closed,
        }
    }
}

/// An element-for-element copy of a packed-pixel frame.
fn copy_frame(src: &Vec<u32>) -> (r: Vec<u32>)
    ensures
        r@ == src@,
{
    let mut out: Vec<u32> = Vec::new();
    let mut i: usize = 0;
    while i < src.len()
        invariant
            i <= src@.len(),
            out@ =~= src@.subrange(0, i as int),
        decreases src@.len() - i,
    {
        out.push(src[i]);
        assert(out@ =~= src@.subrange(0, i as int + 1));
        i = i + 1;
    }
    assert(out@ =~= src@);
    out
}

impl DoubleBufferSwapChain {
    /// Number of pixels each slot holds.
    pub closed spec fn size(self) -> nat {
        self.width as nat * self.height as nat
    }

    pub open spec fn wf(self) -> bool {
        &&& self@.wf(self.size())
        &&& self.size() <= u32::MAX
    }

    pub fn new(width: u32, height: u32) -> (r: Self)
        requires
            width as nat * height as nat <= u32::MAX,
        ensures
            r.wf(),
            r.size() == width as nat * height as nat,
            r@.front == 0,
            !r@.ready(0),
            !r@.ready(1),
            !r@.closed,
            forall|i: int| 0 <= i < r.size() ==> r@.slot0[i] == 0,
            forall|i: int| 0 <= i < r.size() ==> r@.slot1[i] == 0,
    {
        Self {
            buffers: [Buffer::new(width, height), Buffer::new(width, height)],
            ready: [false, false],
            front: 0,
            closed: false,
            width,
            height,
        }
    }

    /// Number of pixels a frame handed to `update_back` must hold.
    pub fn frame_len(&self) -> (r: u32)
        requires
            self.wf(),
        ensures
            r as nat == self.size(),
    {
        self.width * self.height
    }

    pub fn is_closed(&self) -> (r: bool)
        ensures
            r == self@.closed,
    {
        self.closed
    }

    /// The producer hands over a completed frame. The pixels are written
    /// into the slot that is not currently front, that slot is marked ready
    /// and becomes the new front; the previous front slot — the one the
    /// consumer may be presenting — is not touched. On a closed chain
    /// nothing is written and `false` comes back.
    pub fn update_back(&mut self, frame: &Vec<u32>) -> (ok: bool)
        requires
            old(self).wf(),
            frame@.len() == old(self).size(),
        ensures
            final(self).wf(),
            final(self).size() == old(self).size(),
            ok == !old(self)@.closed,
            !ok ==> final(self)@ == old(self)@,
            ok ==> final(self)@ == produce_frame(old(self)@, frame@),
    {
        if self.closed {
            assert(self@ =~= old(self)@);
            return false;
        }
        let copy = copy_frame(frame);
        if self.front == 0 {
            self.buffers[1] = Buffer { buf: copy };
            self.ready[1] = true;
            self.front = 1;
        } else {
            self.buffers[0] = Buffer { buf: copy };
            self.ready[0] = true;
            self.front = 0;
        }
        assert(self@ =~= produce_frame(old(self)@, frame@));
        true
    }

    /// The consumer takes the frame in the front slot, if a fresh one is
    /// there. `None` means there is nothing to present yet — either no
    /// completed frame is pending or the chain is closed — and the state is
    /// unchanged; a blocked consumer retries once the producer has run.
    pub fn wait_use_front(&mut self) -> (r: Option<Vec<u32>>)
        requires
            old(self).wf(),
        ensures
            final(self).wf(),
            final(self).size() == old(self).size(),
            match r {
                Some(frame) => {
                    &&& !old(self)@.closed
                    &&& old(self)@.ready(old(self)@.front)
                    &&& frame@ == old(self)@.slot(old(self)@.front)
                    &&& final(self)@ == consume_front(old(self)@)
                },
                None => {
                    &&& (old(self)@.closed || !old(self)@.ready(old(self)@.front))
                    &&& final(self)@ == old(self)@
                },
            },
    {
        if self.closed {
            assert(self@ =~= old(self)@);
            return None;
        }
        if self.front == 0 {
            if !self.ready[0] {
                assert(self@ =~= old(self)@);
                return None;
            }
            let frame = copy_frame(&self.buffers[0].buf);
            self.ready[0] = false;
            assert(self@ =~= consume_front(old(self)@));
            Some(frame)
        } else {
            if !self.ready[1] {
                assert(self@ =~= old(self)@);
                return None;
            }
            let frame = copy_frame(&self.buffers[1].buf);
            self.ready[1] = false;
            assert(self@ =~= consume_front(old(self)@));
            Some(frame)
        }
    }

    /// Shuts the chain down: every later `update_back` refuses the frame and
    /// every later `wait_use_front` comes back empty-handed at once, so a
    /// consumer that retries in a loop terminates instead of blocking
    /// forever.
    pub fn close(&mut self)
        requires
            old(self).wf(),
        ensures
            final(self).wf(),
            final(self).size() == old(self).size(),
            final(self)@ == shut(old(self)@),
    {
        self.closed = true;
        assert(self@ =~= shut(old(self)@));
    }
}

/// Law: a frame the producer completes is exactly what the consumer observes
/// next, untorn. After `produce_frame` the new front slot is ready and holds
/// the produced pixels byte for byte, the slot that was front before — the
/// one a consumer may still be presenting — is unchanged, and consuming the
/// frame clears only its ready flag, leaving the pixels intact.
pub proof fn lemma_frame_handoff(v: ChainView, frame: Seq<u32>, size: nat)
    requires
        v.wf(size),
        !v.closed,
        frame.len() == size,
    ensures
        produce_frame(v, frame).wf(size),
        produce_frame(v, frame).ready(produce_frame(v, frame).front),
        produce_frame(v, frame).slot(produce_frame(v, frame).front) == frame,
        produce_frame(v, frame).slot(v.front) == v.slot(v.front),
        produce_frame(v, frame).ready(v.front) == v.ready(v.front),
        !produce_frame(v, frame).closed,
        consume_front(produce_frame(v, frame)).slot(produce_frame(v, frame).front) == frame,
        !consume_front(produce_frame(v, frame)).ready(produce_frame(v, frame).front),
{
}

} // verus!
