//! Handing the newest record over without locks.
//!
//! Of three slots the producer owns one, the consumer owns one, and the state byte names the third,
//! with [`FLAG_NEW`] set while nobody has taken it. Each side swaps its own slot against the third
//! in one atomic step, so neither ever waits and neither ever touches the other's slot.
use crate::layout::{FLAG_NEW, INDEX_MASK};
use vstd::prelude::*;

verus! {

/// The three bytes that say who owns which slot.
#[derive(Debug, Clone, Copy, PartialEq, Eq, Structural)]
pub struct Hands {
    pub state: u8,
    pub write_idx: u8,
    pub read_idx: u8,
}

/// Who takes a step.
#[derive(Debug, Clone, Copy, PartialEq, Eq, Structural)]
pub enum Turn {
    Publish,
    Take,
}

impl Hands {
    /// The slot that nobody owns.
    pub open spec fn ready(self) -> u8 {
        self.state & INDEX_MASK
    }

    /// The ready slot has not been taken.
    pub open spec fn fresh(self) -> bool {
        self.state & FLAG_NEW != 0
    }

    /// Each of the three slots is in one place.
    pub open spec fn wf(self) -> bool {
        &&& self.write_idx < 3
        &&& self.read_idx < 3
        &&& self.ready() < 3
        &&& self.write_idx != self.read_idx
        &&& self.write_idx != self.ready()
        &&& self.read_idx != self.ready()
    }

    /// The producer's slot becomes the ready one, and new.
    pub open spec fn published(self) -> Hands {
        Hands { state: self.write_idx | FLAG_NEW, write_idx: self.ready(), read_idx: self.read_idx }
    }

    /// The consumer takes a new ready slot; without one nothing changes.
    pub open spec fn taken(self) -> Hands {
        if self.fresh() {
            Hands { state: self.read_idx, write_idx: self.write_idx, read_idx: self.ready() }
        } else {
            self
        }
    }

    /// After one step.
    pub open spec fn after(self, turn: Turn) -> Hands {
        match turn {
            Turn::Publish => self.published(),
            Turn::Take => self.taken(),
        }
    }

    /// After any sequence of steps of both sides.
    pub open spec fn after_all(self, turns: Seq<Turn>) -> Hands
        decreases turns.len(),
    {
        if turns.len() == 0 {
            self
        } else {
            self.after_all(turns.drop_last()).after(turns.last())
        }
    }
}

/// The bits of a state byte.
pub proof fn lemma_state_bits(x: u8)
    ensures
        x & INDEX_MASK == x % 4,
        (x & FLAG_NEW != 0) == (x >= 0x80),
        x < 4 ==> (x | FLAG_NEW) == x + 0x80,
        x < 4 ==> (x | FLAG_NEW) & INDEX_MASK == x,
        x < 4 ==> (x | FLAG_NEW) & FLAG_NEW != 0,
        x < 4 ==> x & INDEX_MASK == x,
        x < 4 ==> x & FLAG_NEW == 0,
{
    assert(x & 0x03 == x % 4) by (bit_vector);
    assert((x & 0x80 != 0) == (x >= 0x80)) by (bit_vector);
    assert(x < 4 ==> (x | 0x80) == x + 0x80) by (bit_vector);
    assert(x < 4 ==> (x | 0x80) & 0x03 == x) by (bit_vector);
    assert(x < 4 ==> (x | 0x80) & 0x80 != 0) by (bit_vector);
    assert(x < 4 ==> x & 0x03 == x) by (bit_vector);
    assert(x < 4 ==> x & 0x80 == 0) by (bit_vector);
}

/// The state byte that offers the producer's slot as new.
pub fn offered(write_idx: u8) -> (r: u8)
    ensures
        r == write_idx | FLAG_NEW,
{
    write_idx | FLAG_NEW
}

/// Whether a state byte offers a record that has not been taken.
pub fn is_new(state: u8) -> (r: bool)
    ensures
        r == (state & FLAG_NEW != 0),
{
    (state & FLAG_NEW) != 0
}

/// Each slot stays in one place, whichever side takes a step.
pub proof fn law_every_step_keeps_the_hands_apart(h: Hands, turn: Turn)
    requires
        h.wf(),
    ensures
        h.after(turn).wf(),
{
    lemma_state_bits(h.state);
    lemma_state_bits(h.write_idx);
    lemma_state_bits(h.read_idx);
}

/// However the steps of both sides interleave, the producer never owns the slot that the consumer
/// reads.
pub proof fn law_producer_and_consumer_never_share_a_slot(h: Hands, turns: Seq<Turn>)
    requires
        h.wf(),
    ensures
        h.after_all(turns).wf(),
        h.after_all(turns).write_idx != h.after_all(turns).read_idx,
    decreases turns.len(),
{
    if turns.len() > 0 {
        law_producer_and_consumer_never_share_a_slot(h, turns.drop_last());
        law_every_step_keeps_the_hands_apart(h.after_all(turns.drop_last()), turns.last());
    }
}

/// The consumer takes the slot that was published last, and takes it once: a second attempt finds
/// nothing new.
pub proof fn law_take_gets_what_was_published_last_and_only_once(h: Hands)
    requires
        h.wf(),
    ensures
        h.published().fresh(),
        h.published().taken().read_idx == h.write_idx,
        !h.published().taken().fresh(),
        h.published().taken().taken() == h.published().taken(),
        h.published().published().taken().read_idx == h.published().write_idx,
{
    lemma_state_bits(h.state);
    lemma_state_bits(h.write_idx);
    lemma_state_bits(h.read_idx);
    lemma_state_bits(h.published().write_idx);
}

/// Each side moves its own slot and the ready one, and no other: publishing makes the producer's
/// slot the ready one, gives the producer the one that was ready, and leaves the consumer's; taking
/// a new slot makes the consumer's the ready one, gives the consumer the one that was ready, and
/// leaves the producer's; taking without a new slot moves nothing.
pub proof fn law_each_side_moves_its_own(h: Hands)
    requires
        h.wf(),
    ensures
        h.published().ready() == h.write_idx,
        h.published().write_idx == h.ready(),
        h.published().read_idx == h.read_idx,
        h.published().state >= 0x80,
        h.state >= 0x80 ==> h.taken().ready() == h.read_idx && h.taken().read_idx == h.ready()
            && h.taken().write_idx == h.write_idx && h.taken().state < 0x80,
        h.state < 0x80 ==> h.taken() == h,
        h.ready() == h.state % 4,
        h.fresh() <==> h.state >= 0x80,
{
    lemma_state_bits(h.state);
    lemma_state_bits(h.write_idx);
    lemma_state_bits(h.read_idx);
}

/// A state byte is new exactly where its highest bit is set, and offering a slot sets that bit.
pub proof fn law_calls_of_the_state_byte(slot: u8, state: u8, new: bool, offer: u8)
    requires
        call_ensures(is_new, (state,), new),
        call_ensures(offered, (slot,), offer),
    ensures
        new <==> state >= 0x80,
        slot < 4 ==> offer == slot + 0x80,
{
    lemma_state_bits(state);
    lemma_state_bits(slot);
}

} // verus!
