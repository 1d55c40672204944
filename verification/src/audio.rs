//! The audio buffer scheduler: a fixed pool of sample buffers that rotate in
//! submission order between the application and the playback hardware.
//!
//! The scheduler performs no hardware access and calls no application code.
//! The caller tells it of each buffer that the hardware has emptied, and it
//! answers which buffer went back to the pool and whether the registered
//! fill routine is to be run. The buffer that the hardware is to play is the
//! oldest submitted one.

use vstd::prelude::*;

verus! {

/// Number of buffers in a pool for which no other number is asked.
pub const NUM_BUFFERS: u8 = 4;

/// How many buffers are scheduled in one second of playback.
pub const BUFFERS_PER_SECOND: u8 = 25;

/// The number of stereo samples in one buffer at a sample rate: the samples
/// of one scheduling period, rounded down to a multiple of 8. The division
/// by the number of periods rounds toward zero.
pub open spec fn spec_calc_buffer(frequency: int) -> int {
    let per_buffer = if frequency >= 0 {
        frequency / 25
    } else {
        -((-frequency) / 25)
    };
    (per_buffer / 8) * 8
}

/// The number of 16-bit values in one buffer of `buffer_length` stereo
/// samples: two for each sample, left then right.
pub open spec fn spec_capacity(buffer_length: int) -> nat {
    if buffer_length > 0 {
        (2 * buffer_length) as nat
    } else {
        0
    }
}

/// The number of buffers in a pool for which `numbuffers` are asked: that
/// many if more than one, else `NUM_BUFFERS`.
pub open spec fn spec_slots(numbuffers: int) -> nat {
    if numbuffers > 1 {
        numbuffers as nat
    } else {
        NUM_BUFFERS as nat
    }
}

/// The slot that lies `offset` places after `head` in a ring of `slots`.
pub open spec fn spec_slot_of(head: int, offset: int, slots: int) -> int {
    if head + offset < slots {
        head + offset
    } else {
        head + offset - slots
    }
}

/// Computes the number of stereo samples in one buffer at a sample rate.
pub fn calc_buffer(frequency: i32) -> (samples: i32)
    ensures
        samples == spec_calc_buffer(frequency as int),
        samples % 8 == 0,
        frequency >= 0 ==> samples <= frequency / 25 < samples + 8,
{
    if frequency >= 0 {
        let per_buffer: i32 = frequency / 25;
        per_buffer - per_buffer % 8
    } else {
        let magnitude: i64 = -(frequency as i64);
        let per_buffer: i64 = magnitude / 25;
        let rounded: i64 = (per_buffer + 7) / 8 * 8;
        (-rounded) as i32
    }
}

/// What the scheduler answers when the hardware has emptied a buffer.
#[derive(Clone, Copy, Debug, PartialEq, Eq, Structural)]
pub enum BufferEmpty {
    /// Nothing went back to the pool: playback is paused, or no buffer was
    /// submitted.
    Idle,
    /// The buffer in `slot` went back to the pool. No fill routine is
    /// registered.
    Recycled { slot: usize },
    /// The buffer in `slot` went back to the pool, and the registered fill
    /// routine is to write `sample_count` stereo samples.
    Refill { slot: usize, sample_count: usize },
}

/// The scheduler as its contracts see it.
pub ghost struct AudioView<F> {
    /// The sample rate that the hardware achieved.
    pub frequency: int,
    /// Stereo samples per buffer.
    pub buffer_length: int,
    /// Number of buffers in the pool.
    pub slots: nat,
    /// The slot of the oldest submitted buffer.
    pub head: nat,
    /// The contents of the submitted buffers, oldest first.
    pub queue: Seq<Seq<i16>>,
    pub paused: bool,
    /// The registered fill routine.
    pub callback: Option<F>,
}

impl<F> AudioView<F> {
    /// What holds of every scheduler: the buffer length is derived from the
    /// rate, the submitted buffers fit the pool, and each is full.
    pub open spec fn wf(self) -> bool {
        &&& self.buffer_length == spec_calc_buffer(self.frequency)
        &&& self.slots >= 1
        &&& self.head < self.slots
        &&& self.queue.len() <= self.slots
        &&& forall|i: int|
            0 <= i < self.queue.len() ==> (#[trigger] self.queue[i]).len() == spec_capacity(
                self.buffer_length,
            )
    }

    /// The scheduler that `new` returns.
    pub open spec fn spec_new(frequency: int, numbuffers: int) -> AudioView<F> {
        AudioView {
            frequency,
            buffer_length: spec_calc_buffer(frequency),
            slots: spec_slots(numbuffers),
            head: 0,
            queue: Seq::empty(),
            paused: false,
            callback: None,
        }
    }

    /// The slot that the next submitted buffer goes to.
    pub open spec fn spec_write_slot(self) -> int {
        spec_slot_of(self.head as int, self.queue.len() as int, self.slots as int)
    }

    /// Whether `samples` can be submitted: a buffer is free, and the
    /// samples fill it exactly.
    pub open spec fn spec_accepts(self, samples: Seq<i16>) -> bool {
        self.queue.len() < self.slots && samples.len() == spec_capacity(self.buffer_length)
    }

    /// The scheduler after `samples` were offered: they are the newest
    /// submitted buffer if they can be submitted, else nothing changed.
    pub open spec fn spec_write(self, samples: Seq<i16>) -> AudioView<F> {
        if self.spec_accepts(samples) {
            AudioView { queue: self.queue.push(samples), ..self }
        } else {
            self
        }
    }

    /// One buffer of silence.
    pub open spec fn spec_silence(self) -> Seq<i16> {
        Seq::new(spec_capacity(self.buffer_length), |i: int| 0i16)
    }

    /// The slot that the hardware is to play: that of the oldest submitted
    /// buffer, unless playback is paused or nothing is submitted.
    pub open spec fn spec_now_playing(self) -> Option<usize> {
        if self.paused || self.queue.len() == 0 {
            None
        } else {
            Some(self.head as usize)
        }
    }

    /// What the scheduler answers when the hardware has emptied a buffer.
    pub open spec fn spec_buffer_empty_event(self) -> BufferEmpty {
        if self.paused || self.queue.len() == 0 {
            BufferEmpty::Idle
        } else if self.callback is Some {
            BufferEmpty::Refill {
                slot: self.head as usize,
                sample_count: (spec_capacity(self.buffer_length) / 2) as usize,
            }
        } else {
            BufferEmpty::Recycled { slot: self.head as usize }
        }
    }

    /// The scheduler after the hardware has emptied a buffer: the oldest
    /// submitted buffer is back in the pool, unless playback is paused or
    /// nothing is submitted.
    pub open spec fn spec_buffer_empty(self) -> AudioView<F> {
        if self.paused || self.queue.len() == 0 {
            self
        } else {
            AudioView {
                head: spec_slot_of(self.head as int, 1, self.slots as int) as nat,
                queue: self.queue.drop_first(),
                ..self
            }
        }
    }

    /// The scheduler after the first `count` of `blocks` were offered in
    /// order.
    pub open spec fn spec_after_writes(self, blocks: Seq<Seq<i16>>, count: nat) -> AudioView<F>
        decreases count,
    {
        if count == 0 {
            self
        } else {
            self.spec_after_writes(blocks, (count - 1) as nat).spec_write(blocks[count - 1])
        }
    }

    /// The scheduler after `count` rounds in each of which the hardware
    /// emptied a buffer and the next of `refills` was offered.
    pub open spec fn spec_after_rounds(self, refills: Seq<Seq<i16>>, count: nat) -> AudioView<F>
        decreases count,
    {
        if count == 0 {
            self
        } else {
            self.spec_after_rounds(refills, (count - 1) as nat).spec_buffer_empty().spec_write(
                refills[count - 1],
            )
        }
    }
}

/// The audio context: the pool of buffers, the order in which they were
/// submitted, and the registered fill routine.
pub struct Audio<F> {
    frequency: i32,
    buffer_length: i32,
    buffers: Vec<Vec<i16>>,
    head: usize,
    queued: usize,
    paused: bool,
    callback: Option<F>,
}

impl<F> View for Audio<F> {
    type V = AudioView<F>;

    closed spec fn view(&self) -> AudioView<F> {
        AudioView {
            frequency: self.frequency as int,
            buffer_length: self.buffer_length as int,
            slots: self.buffers@.len(),
            head: self.head as nat,
            queue: Seq::new(
                self.queued as nat,
                |i: int|
                    self.buffers@[spec_slot_of(
                        self.head as int,
                        i,
                        self.buffers@.len() as int,
                    )]@,
            ),
            paused: self.paused,
            callback: self.callback,
        }
    }
}

impl<F> Audio<F> {
    /// The invariant of the pool: every buffer has the capacity that the
    /// buffer length asks for, and the submitted buffers fit the pool.
    pub closed spec fn wf(&self) -> bool {
        &&& self.buffer_length == spec_calc_buffer(self.frequency as int)
        &&& self.buffers@.len() >= 1
        &&& self.head < self.buffers@.len()
        &&& self.queued <= self.buffers@.len()
        &&& forall|i: int|
            0 <= i < self.buffers@.len() ==> (#[trigger] self.buffers@[i])@.len() == spec_capacity(
                self.buffer_length as int,
            )
    }

    /// A pool that is well formed is seen as a well-formed scheduler.
    pub proof fn lemma_view_wf(&self)
        requires
            self.wf(),
        ensures
            self@.wf(),
    {
    }

    fn capacity(&self) -> (values: usize)
        requires
            self.wf(),
        ensures
            values == spec_capacity(self.buffer_length as int),
            values == spec_capacity(self@.buffer_length),
    {
        if self.buffer_length > 0 {
            2 * (self.buffer_length as usize)
        } else {
            0
        }
    }

    fn write_slot(&self) -> (slot: usize)
        requires
            self.wf(),
            self.queued < self.buffers@.len(),
        ensures
            slot == spec_slot_of(self.head as int, self.queued as int, self.buffers@.len() as int),
            slot < self.buffers@.len(),
            self.buffers@.len() <= usize::MAX,
    {
        let room: usize = self.buffers.len() - self.head;
        if self.queued < room {
            self.head + self.queued
        } else {
            self.queued - room
        }
    }

    fn submit(&mut self, block: Vec<i16>)
        requires
            old(self).wf(),
            old(self)@.spec_accepts(block@),
        ensures
            final(self).wf(),
            final(self)@ == old(self)@.spec_write(block@),
    {
        let slot = self.write_slot();
        self.buffers.set(slot, block);
        self.queued = self.queued + 1;
        assert(self@.queue =~= old(self)@.queue.push(block@));
    }

    /// Sets up the pool for playback at `frequency`, the sample rate that
    /// the hardware achieved for the rate that was asked of it. The pool has
    /// `numbuffers` buffers if that is more than one, else `NUM_BUFFERS`.
    /// Nothing is submitted, playback is not paused, and no fill routine is
    /// registered.
    pub fn new(frequency: i32, numbuffers: i32) -> (audio: Audio<F>)
        ensures
            audio.wf(),
            audio@ == AudioView::<F>::spec_new(frequency as int, numbuffers as int),
    {
        let buffer_length = calc_buffer(frequency);
        let capacity: usize = if buffer_length > 0 {
            2 * (buffer_length as usize)
        } else {
            0
        };
        let slots: usize = if numbuffers > 1 {
            numbuffers as usize
        } else {
            NUM_BUFFERS as usize
        };
        let mut buffers: Vec<Vec<i16>> = Vec::new();
        let mut made: usize = 0;
        while made < slots
            invariant
                made <= slots,
                buffers@.len() == made,
                forall|i: int| 0 <= i < made ==> (#[trigger] buffers@[i])@.len() == capacity,
            decreases slots - made,
        {
            buffers.push(silence(capacity));
            made += 1;
        }
        let audio = Audio {
            frequency,
            buffer_length,
            buffers,
            head: 0,
            queued: 0,
            paused: false,
            callback: None,
        };
        assert(audio@.queue =~= Seq::<Seq<i16>>::empty());
        audio
    }

    /// Registers the fill routine. A routine registered before is replaced:
    /// only one is active.
    pub fn set_buffer_callback(&mut self, f: F)
        requires
            old(self).wf(),
        ensures
            final(self).wf(),
            final(self)@ == (AudioView { callback: Some(f), ..old(self)@ }),
    {
        self.callback = Some(f);
        assert(self@.queue =~= old(self)@.queue);
    }

    /// The registered fill routine, for the caller to run when the
    /// scheduler asks for a refill.
    pub fn buffer_callback(&self) -> (f: Option<&F>)
        ensures
            match f {
                Some(routine) => self@.callback == Some(*routine),
                None => self@.callback is None,
            },
    {
        self.callback.as_ref()
    }

    /// Pauses or resumes playback. The pool and what is submitted stay.
    pub fn pause(&mut self, pause: bool)
        requires
            old(self).wf(),
        ensures
            final(self).wf(),
            final(self)@ == (AudioView { paused: pause, ..old(self)@ }),
    {
        self.paused = pause;
        assert(self@.queue =~= old(self)@.queue);
    }

    /// Whether playback is paused.
    pub fn is_paused(&self) -> (paused: bool)
        ensures
            paused == self@.paused,
    {
        self.paused
    }

    /// Offers one buffer of prepared samples, two 16-bit values for each
    /// stereo sample. If a buffer is free and `buf` fills it exactly, the
    /// samples become the newest submitted buffer. Otherwise they are
    /// dropped and nothing changes: no buffer is ever filled in part.
    pub fn write(&mut self, buf: &[i16])
        requires
            old(self).wf(),
        ensures
            final(self).wf(),
            final(self)@ == old(self)@.spec_write(buf@),
    {
        if self.queued < self.buffers.len() && buf.len() == self.capacity() {
            let mut block: Vec<i16> = Vec::new();
            let mut copied: usize = 0;
            while copied < buf.len()
                invariant
                    copied <= buf@.len(),
                    block@ == buf@.take(copied as int),
                decreases buf@.len() - copied,
            {
                block.push(buf[copied]);
                copied += 1;
                assert(block@ == buf@.take(copied as int));
            }
            assert(buf@.take(buf@.len() as int) == buf@);
            self.submit(block);
        }
    }

    /// Submits one buffer of silence if a buffer is free; else nothing
    /// changes.
    pub fn write_silence(&mut self)
        requires
            old(self).wf(),
        ensures
            final(self).wf(),
            final(self)@ == old(self)@.spec_write(old(self)@.spec_silence()),
    {
        if self.queued < self.buffers.len() {
            let block = silence(self.capacity());
            assert(block@ =~= self@.spec_silence());
            self.submit(block);
        }
    }

    /// Takes the hardware's signal that it has emptied the buffer it was
    /// playing. Unless playback is paused or nothing is submitted, the
    /// oldest submitted buffer goes back to the pool, and the answer names
    /// its slot and says whether the fill routine is to run.
    pub fn buffer_empty(&mut self) -> (event: BufferEmpty)
        requires
            old(self).wf(),
        ensures
            final(self).wf(),
            final(self)@ == old(self)@.spec_buffer_empty(),
            event == old(self)@.spec_buffer_empty_event(),
    {
        if self.paused || self.queued == 0 {
            return BufferEmpty::Idle;
        }
        let slot = self.head;
        let sample_count = self.capacity() / 2;
        let slots: usize = self.buffers.len();
        self.head = if self.head + 1 < slots {
            self.head + 1
        } else {
            0
        };
        self.queued = self.queued - 1;
        assert(self@.queue =~= old(self)@.queue.drop_first());
        match self.callback {
            Some(_) => BufferEmpty::Refill { slot, sample_count },
            None => BufferEmpty::Recycled { slot },
        }
    }

    /// The slot of the buffer that the hardware is to play: the oldest
    /// submitted one. `None` while playback is paused or nothing is
    /// submitted.
    pub fn now_playing(&self) -> (slot: Option<usize>)
        requires
            self.wf(),
        ensures
            slot == self@.spec_now_playing(),
            slot matches Some(index) ==> index < self@.slots,
    {
        if self.paused || self.queued == 0 {
            None
        } else {
            Some(self.head)
        }
    }

    /// Number of submitted buffers.
    pub fn queued(&self) -> (count: usize)
        ensures
            count == self@.queue.len(),
    {
        self.queued
    }

    /// Number of buffers in the pool.
    pub fn slots(&self) -> (count: usize)
        ensures
            count == self@.slots,
    {
        self.buffers.len()
    }

    /// The samples of the submitted buffer that is `position` places
    /// behind the oldest one.
    pub fn submitted(&self, position: usize) -> (samples: &Vec<i16>)
        requires
            self.wf(),
            position < self@.queue.len(),
        ensures
            samples@ == self@.queue[position as int],
    {
        let room: usize = self.buffers.len() - self.head;
        let slot: usize = if position < room {
            self.head + position
        } else {
            position - room
        };
        &self.buffers[slot]
    }

    /// The sample rate that the hardware achieved.
    pub fn frequency(&self) -> (rate: i32)
        ensures
            rate == self@.frequency,
    {
        self.frequency
    }

    /// The number of stereo samples that fit one buffer.
    pub fn buffer_length(&self) -> (samples: i32)
        ensures
            samples == self@.buffer_length,
    {
        self.buffer_length
    }
}

fn silence(capacity: usize) -> (block: Vec<i16>)
    ensures
        block@.len() == capacity,
        forall|i: int| 0 <= i < capacity ==> block@[i] == 0,
{
    let mut block: Vec<i16> = Vec::new();
    let mut filled: usize = 0;
    while filled < capacity
        invariant
            filled <= capacity,
            block@.len() == filled,
            forall|i: int| 0 <= i < filled ==> block@[i] == 0,
        decreases capacity - filled,
    {
        block.push(0);
        filled += 1;
    }
    block
}

/// Whether every one of `blocks` fills a buffer of the pool exactly.
pub open spec fn spec_all_fill<F>(pool: AudioView<F>, blocks: Seq<Seq<i16>>) -> bool {
    forall|i: int|
        0 <= i < blocks.len() ==> (#[trigger] blocks[i]).len() == spec_capacity(pool.buffer_length)
}

proof fn lemma_after_writes<F>(pool: AudioView<F>, blocks: Seq<Seq<i16>>, count: nat)
    requires
        pool.wf(),
        pool.queue.len() == 0,
        count <= pool.slots,
        count <= blocks.len(),
        spec_all_fill(pool, blocks),
    ensures
        pool.spec_after_writes(blocks, count) == (AudioView {
            queue: blocks.take(count as int),
            ..pool
        }),
    decreases count,
{
    if count == 0 {
        assert(pool.queue =~= blocks.take(0));
    } else {
        lemma_after_writes(pool, blocks, (count - 1) as nat);
        assert(blocks.take(count - 1).push(blocks[count - 1]) =~= blocks.take(count as int));
    }
}

proof fn lemma_after_rounds<F>(pool: AudioView<F>, refills: Seq<Seq<i16>>, count: nat)
    requires
        pool.wf(),
        !pool.paused,
        pool.queue.len() == pool.slots,
        count <= pool.slots,
        count <= refills.len(),
        spec_all_fill(pool, refills),
    ensures
        pool.spec_after_rounds(refills, count) == (AudioView {
            head: spec_slot_of(pool.head as int, count as int, pool.slots as int) as nat,
            queue: pool.queue.skip(count as int) + refills.take(count as int),
            ..pool
        }),
    decreases count,
{
    if count == 0 {
        assert(pool.queue.skip(0) + refills.take(0) =~= pool.queue);
    } else {
        lemma_after_rounds(pool, refills, (count - 1) as nat);
        let before = pool.spec_after_rounds(refills, (count - 1) as nat);
        let emptied = before.spec_buffer_empty();
        assert(emptied.queue.len() == pool.slots - 1);
        assert(emptied.spec_accepts(refills[count - 1]));
        assert(emptied.queue.push(refills[count - 1]) =~= pool.queue.skip(count as int)
            + refills.take(count as int));
    }
}

/// Buffers go back to the pool in the order in which they were submitted.
/// Fill an empty pool that is not paused with as many blocks as it has
/// buffers. Then let the hardware empty a buffer and the fill routine offer
/// a block, `round` times. The buffer that the hardware empties next is the
/// one that the submission with index `round` went to, it still holds that
/// submission's samples, and it is that slot which the scheduler names.
pub proof fn lemma_buffers_recycle_in_submission_order<F>(
    pool: AudioView<F>,
    blocks: Seq<Seq<i16>>,
    refills: Seq<Seq<i16>>,
    round: nat,
)
    requires
        pool.wf(),
        pool.queue.len() == 0,
        !pool.paused,
        blocks.len() == pool.slots,
        refills.len() == pool.slots,
        spec_all_fill(pool, blocks),
        spec_all_fill(pool, refills),
        round < pool.slots,
    ensures
        ({
            let filled = pool.spec_after_writes(blocks, pool.slots);
            let at = filled.spec_after_rounds(refills, round);
            let slot = pool.spec_after_writes(blocks, round).spec_write_slot();
            &&& at.queue.len() > 0
            &&& at.queue[0] == blocks[round as int]
            &&& at.head == slot
            &&& at.spec_buffer_empty_event() == if pool.callback is Some {
                BufferEmpty::Refill {
                    slot: slot as usize,
                    sample_count: (spec_capacity(pool.buffer_length) / 2) as usize,
                }
            } else {
                BufferEmpty::Recycled { slot: slot as usize }
            }
        }),
{
    lemma_after_writes(pool, blocks, pool.slots);
    lemma_after_writes(pool, blocks, round);
    let filled = pool.spec_after_writes(blocks, pool.slots);
    assert(blocks.take(pool.slots as int) =~= blocks);
    lemma_after_rounds(filled, refills, round);
}

} // verus!
