//! Interrupt-fed keyboard input: a fixed-capacity, most-recent-first ring
//! buffer of decoded key events.
//!
//! The interrupt path records one event per key stroke with
//! [`InputBuffer::write_key`]; a polling consumer takes everything at once
//! with [`InputBuffer::read`]. Both sides must go through one exclusive
//! guard, owned by the embedding program, so a drain can never observe a
//! buffer mid-shift.

use vstd::prelude::*;

verus! {

/// A decoded keyboard event handed in by the platform scan-code decoder:
/// either a Unicode scalar value, or the decoder's numeric code for a key
/// without one (function keys, arrows, and the like).
#[derive(Clone, Copy, Debug, PartialEq, Eq, Structural)]
pub enum DecodedKey {
    Unicode(char),
    RawKey(u8),
}

/// Number of slots in the input ring buffer.
pub const INPUT_CAPACITY: usize = 255;

/// Most-recent-first ring buffer of decoded key events.
///
/// Slot 0 always holds the event written last; a write shifts every other
/// entry one slot toward the tail and the oldest entry falls off the end.
/// The unread count saturates at the capacity.
pub struct InputBuffer {
    pub buffer: Vec<DecodedKey>,
    pub unread_char_count: usize,
}

/// Snapshot handed out by [`InputBuffer::read`]: the unread count at the
/// moment of the drain and a copy of the whole buffer. Entries at or past
/// the captured count are stale and must be ignored by the caller.
pub struct InputReturn(pub usize, pub Vec<DecodedKey>);

/// The slots after one write: the new event in slot 0, every earlier entry
/// pushed one slot toward the tail, the oldest entry dropped.
pub open spec fn spec_shift(buf: Seq<DecodedKey>, key: DecodedKey) -> Seq<DecodedKey> {
    seq![key] + buf.take(buf.len() - 1)
}

/// The unread count after one write: up by one, saturating at the capacity.
pub open spec fn spec_bump(count: nat) -> nat {
    if count < 255 {
        (count + 1) as nat
    } else {
        255nat
    }
}

impl InputBuffer {
    /// A well-formed buffer has exactly one slot per unit of capacity and
    /// an unread count no larger than the capacity.
    pub open spec fn wf(self) -> bool {
        self.buffer@.len() == 255 && self.unread_char_count <= 255
    }

    /// A fresh buffer: every slot holds the sentinel event `Unicode('0')`
    /// and nothing is unread.
    pub fn new() -> (b: InputBuffer)
        ensures
            b.wf(),
            b.unread_char_count == 0,
            forall|i: int| 0 <= i < 255 ==> b.buffer@[i] == (DecodedKey::Unicode('0')),
    {
        let mut v: Vec<DecodedKey> = Vec::new();
        while v.len() < INPUT_CAPACITY
            invariant
                v@.len() <= 255,
                forall|i: int| 0 <= i < v@.len() ==> v@[i] == (DecodedKey::Unicode('0')),
            decreases 255 - v@.len(),
        {
            v.push(DecodedKey::Unicode('0'));
        }
        InputBuffer { buffer: v, unread_char_count: 0 }
    }

    /// Appends to the front of the buffer, deleting the last item in the
    /// buffer; the unread count rises by one until it saturates.
    pub fn write_key(&mut self, key: DecodedKey)
        requires
            old(self).wf(),
        ensures
            final(self).wf(),
            final(self).buffer@ == spec_shift(old(self).buffer@, key),
            final(self).unread_char_count == spec_bump(old(self).unread_char_count as nat),
    {
        self.buffer.insert(0, key);
        self.buffer.pop();
        if self.unread_char_count < INPUT_CAPACITY {
            self.unread_char_count = self.unread_char_count + 1;
        }
        proof {
            assert(self.buffer@ =~= spec_shift(old(self).buffer@, key));
        }
    }

    /// Captures the current unread count together with a copy of the whole
    /// buffer, then resets the unread count to zero. The slots themselves
    /// are left as they are, so draining twice in a row reports zero unread
    /// events the second time.
    pub fn read(&mut self) -> (r: InputReturn)
        requires
            old(self).wf(),
        ensures
            final(self).wf(),
            r.0 == old(self).unread_char_count,
            r.1@ == old(self).buffer@,
            final(self).buffer@ == old(self).buffer@,
            final(self).unread_char_count == 0,
    {
        let count = self.unread_char_count;
        let mut contents: Vec<DecodedKey> = Vec::new();
        let mut i: usize = 0;
        while i < self.buffer.len()
            invariant
                self.buffer@ == old(self).buffer@,
                self.unread_char_count == old(self).unread_char_count,
                i <= self.buffer@.len(),
                contents@ == self.buffer@.take(i as int),
            decreases self.buffer@.len() - i,
        {
            contents.push(self.buffer[i]);
            i = i + 1;
        }
        proof {
            assert(contents@ =~= self.buffer@);
        }
        self.unread_char_count = 0;
        InputReturn(count, contents)
    }
}

/// The slots after a whole sequence of writes, performed oldest first.
pub open spec fn spec_after_writes(buf: Seq<DecodedKey>, keys: Seq<DecodedKey>) -> Seq<DecodedKey>
    decreases keys.len(),
{
    if keys.len() == 0 {
        buf
    } else {
        spec_after_writes(spec_shift(buf, keys[0]), keys.drop_first())
    }
}

/// The unread count after a run of `n` writes.
pub open spec fn spec_count_after_writes(count: nat, n: nat) -> nat
    decreases n,
{
    if n == 0 {
        count
    } else {
        spec_count_after_writes(spec_bump(count), (n - 1) as nat)
    }
}

/// After any sequence of writes the buffer holds exactly the most recent
/// events in recency order: slot `i` holds the `i`-th most recent write,
/// and slots beyond the writes still hold what they held before.
pub proof fn lemma_ring_recency(buf: Seq<DecodedKey>, keys: Seq<DecodedKey>)
    requires
        buf.len() == 255,
    ensures
        spec_after_writes(buf, keys).len() == 255,
        forall|i: int|
            0 <= i < keys.len() && i < 255 ==> spec_after_writes(buf, keys)[i] == keys[keys.len()
                - 1 - i],
        forall|i: int|
            keys.len() <= i < 255 ==> spec_after_writes(buf, keys)[i] == buf[i - keys.len()],
    decreases keys.len(),
{
    if keys.len() == 0 {
    } else {
        let shifted = spec_shift(buf, keys[0]);
        let rest = keys.drop_first();
        assert(shifted.len() == 255);
        lemma_ring_recency(shifted, rest);
        let out = spec_after_writes(buf, keys);
        assert(out == spec_after_writes(shifted, rest));
        assert forall|i: int| 0 <= i < keys.len() && i < 255 implies out[i] == keys[keys.len() - 1
            - i] by {
            if i < rest.len() {
                assert(out[i] == rest[rest.len() - 1 - i]);
                assert(rest[rest.len() - 1 - i] == keys[keys.len() - 1 - i]);
            } else {
                assert(i == keys.len() - 1);
                assert(out[i] == shifted[i - rest.len()]);
                assert(shifted[0] == keys[0]);
            }
        }
        assert forall|i: int| keys.len() <= i < 255 implies out[i] == buf[i - keys.len()] by {
            assert(out[i] == shifted[i - rest.len()]);
            assert(shifted[i - rest.len()] == buf.take(254)[i - keys.len()]);
        }
    }
}

/// The unread count after `n` writes grows by one per write until it
/// saturates at the capacity, and never passes the capacity.
pub proof fn lemma_count_after_writes(count: nat, n: nat)
    requires
        count <= 255,
    ensures
        spec_count_after_writes(count, n) == if count + n <= 255 {
            (count + n) as nat
        } else {
            255nat
        },
        spec_count_after_writes(count, n) <= 255,
    decreases n,
{
    if n == 0 {
    } else {
        lemma_count_after_writes(spec_bump(count), (n - 1) as nat);
    }
}

/// Starting from a drained buffer, a run of at most capacity-many writes
/// leaves the last-written event in slot 0 and an unread count equal to
/// the number of writes.
pub proof fn lemma_writes_from_drained(buf: Seq<DecodedKey>, keys: Seq<DecodedKey>)
    requires
        buf.len() == 255,
        1 <= keys.len() <= 255,
    ensures
        spec_after_writes(buf, keys)[0] == keys.last(),
        spec_count_after_writes(0, keys.len()) == keys.len(),
{
    lemma_ring_recency(buf, keys);
    lemma_count_after_writes(0, keys.len());
}

/// Writing capacity-many events or more never grows the unread count past
/// the capacity, and afterwards the buffer holds exactly the most recent
/// 255 events in recency order.
pub proof fn lemma_saturation(buf: Seq<DecodedKey>, keys: Seq<DecodedKey>, count: nat)
    requires
        buf.len() == 255,
        count <= 255,
        keys.len() >= 255,
    ensures
        spec_count_after_writes(count, keys.len()) == 255,
        forall|i: int|
            0 <= i < 255 ==> spec_after_writes(buf, keys)[i] == keys[keys.len() - 1 - i],
{
    lemma_ring_recency(buf, keys);
    lemma_count_after_writes(count, keys.len());
}

} // verus!
