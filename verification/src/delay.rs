//! The circular buffer behind delay lines, comb filters and allpass delays.
//!
//! A [`DelayBuffer`] remembers the last `capacity` samples written to it.
//! Its view is that history, most recent sample first: tapping at delay `d`
//! gives the sample written `d + 1` writes ago.

use vstd::prelude::*;

verus! {

/// Circular buffer with a write cursor.
#[derive(Debug, Clone)]
pub struct DelayBuffer<T> {
    buffer: Vec<T>,
    write_pos: usize,
}

/// Slot of the sample written `k + 1` writes before a cursor at `wp`, in a
/// buffer of `n` slots (for `0 <= k < n`).
pub open spec fn slot_of(wp: int, n: int, k: int) -> int {
    if k + 1 <= wp {
        wp - 1 - k
    } else {
        wp + n - 1 - k
    }
}

impl<T> View for DelayBuffer<T> {
    type V = Seq<T>;

    /// The remembered samples, most recent first.
    closed spec fn view(&self) -> Seq<T> {
        Seq::new(
            self.buffer@.len(),
            |k: int| self.buffer@[slot_of(self.write_pos as int, self.buffer@.len() as int, k)],
        )
    }
}

impl<T> DelayBuffer<T> {
    /// The slots in storage order.
    pub closed spec fn raw_slots(&self) -> Seq<T> {
        self.buffer@
    }

    /// The slot the next sample will be written to.
    pub closed spec fn cursor(&self) -> int {
        self.write_pos as int
    }

    /// The buffer has at least one slot and its cursor is inside it.
    pub closed spec fn wf(&self) -> bool {
        &&& self.buffer@.len() >= 1
        &&& self.write_pos < self.buffer@.len()
    }
}

impl<T: Copy> DelayBuffer<T> {
    /// Create a buffer holding `max_delay_samples` copies of `fill` (at least one).
    pub fn new(max_delay_samples: usize, fill: T) -> (r: Self)
        ensures
            r.wf(),
            r.cursor() == 0,
            r@.len() == if max_delay_samples == 0 { 1 } else { max_delay_samples as nat },
            forall|k: int| 0 <= k < r@.len() ==> r@[k] == fill,
    {
        let size = if max_delay_samples == 0 { 1 } else { max_delay_samples };
        let mut buffer: Vec<T> = Vec::new();
        while buffer.len() < size
            invariant
                buffer.len() <= size,
                forall|k: int| 0 <= k < buffer.len() ==> buffer@[k] == fill,
            decreases size - buffer.len(),
        {
            buffer.push(fill);
        }
        DelayBuffer { buffer, write_pos: 0 }
    }

    /// Number of samples remembered (the longest delay plus one).
    pub fn capacity(&self) -> (r: usize)
        requires
            self.wf(),
        ensures
            r == self@.len(),
            r >= 1,
    {
        self.buffer.len()
    }

    /// Position at which the next sample will be written.
    pub fn write_position(&self) -> (r: usize)
        requires
            self.wf(),
        ensures
            r == self.cursor(),
            r < self@.len(),
    {
        self.write_pos
    }

    /// Write a sample: it becomes the most recent, and the oldest is forgotten.
    pub fn write(&mut self, sample: T)
        requires
            old(self).wf(),
        ensures
            final(self).wf(),
            final(self).cursor() == (old(self).cursor() + 1) % (old(self)@.len() as int),
            final(self)@.len() == old(self)@.len(),
            final(self)@ == seq![sample] + old(self)@.take(old(self)@.len() - 1),
    {
        let ghost old_view = self@;
        let n = self.buffer.len();
        let wp = self.write_pos;
        self.buffer.set(wp, sample);
        let next = if wp + 1 >= n { 0 } else { wp + 1 };
        self.write_pos = next;
        proof {
            if wp + 1 >= n {
                assert((wp + 1) % (n as int) == 0) by {
                    vstd::arithmetic::div_mod::lemma_mod_self_0(n as int);
                }
            } else {
                vstd::arithmetic::div_mod::lemma_small_mod((wp + 1) as nat, n as nat);
            }
            let nv = seq![sample] + old_view.take(old_view.len() - 1);
            assert forall|k: int| 0 <= k < n implies #[trigger] self@[k] == nv[k] by {
                if k == 0 {
                    assert(slot_of(next as int, n as int, 0) == wp);
                } else {
                    assert(slot_of(next as int, n as int, k) == slot_of(wp as int, n as int, k - 1));
                    assert(slot_of(wp as int, n as int, k - 1) != wp);
                }
            }
            assert(self@ =~= nv);
        }
    }

    /// The sample written `delay + 1` writes ago.
    pub fn tap(&self, delay: usize) -> (r: T)
        requires
            self.wf(),
            delay < self@.len(),
        ensures
            r == self@[delay as int],
    {
        let n = self.buffer.len();
        let wp = self.write_pos;
        let idx = if delay + 1 <= wp {
            wp - 1 - delay
        } else {
            n - 1 - (delay - wp)
        };
        self.buffer[idx]
    }

    /// Rebuild a buffer from its slots and write cursor, as saved by
    /// [`Self::slots`] and [`Self::write_position`]; `None` when there are no
    /// slots or the cursor is outside them.
    pub fn from_parts(buffer: Vec<T>, write_pos: usize) -> (r: Option<Self>)
        ensures
            r is Some <==> (buffer@.len() >= 1 && write_pos < buffer@.len()),
            r matches Some(d) ==> d.wf() && d.raw_slots() == buffer@ && d.cursor() == write_pos
                && d@ == Seq::new(
                buffer@.len(),
                |k: int| buffer@[slot_of(write_pos as int, buffer@.len() as int, k)],
            ),
    {
        if buffer.len() >= 1 && write_pos < buffer.len() {
            let d = DelayBuffer { buffer, write_pos };
            Some(d)
        } else {
            None
        }
    }

    /// The slots in storage order (not history order).
    pub fn slots(&self) -> (r: &Vec<T>)
        ensures
            r@ == self.raw_slots(),
    {
        &self.buffer
    }

    /// Overwrite every remembered sample with `value`.
    pub fn fill_all(&mut self, value: T)
        requires
            old(self).wf(),
        ensures
            final(self).wf(),
            final(self).cursor() == old(self).cursor(),
            final(self)@.len() == old(self)@.len(),
            forall|k: int| 0 <= k < final(self)@.len() ==> final(self)@[k] == value,
    {
        let n = self.buffer.len();
        let ghost wp = self.write_pos;
        let mut i: usize = 0;
        while i < n
            invariant
                0 <= i <= n,
                n == self.buffer.len(),
                n >= 1,
                self.write_pos == wp,
                wp < n,
                forall|k: int| 0 <= k < i ==> self.buffer@[k] == value,
            decreases n - i,
        {
            self.buffer.set(i, value);
            i = i + 1;
        }
        proof {
            assert forall|k: int| 0 <= k < n implies #[trigger] self@[k] == value by {
                assert(0 <= slot_of(self.write_pos as int, n as int, k) < n);
            }
        }
    }
}

/// A delay line echoes its input: after writing `x`, a tap at delay `d`
/// (with `1 <= d` below the capacity) gives what a tap at `d - 1` gave before
/// the write, and a tap at delay 0 gives `x`.
pub proof fn lemma_write_then_tap<T>(before: Seq<T>, x: T, after: Seq<T>, d: int)
    requires
        before.len() >= 1,
        after == seq![x] + before.take(before.len() - 1),
        0 <= d < before.len(),
    ensures
        after.len() == before.len(),
        d == 0 ==> after[d] == x,
        d >= 1 ==> after[d] == before[d - 1],
{
}

} // verus!
