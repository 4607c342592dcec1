//! Packet identifiers handed out in turn.

use vstd::prelude::*;

verus! {

/// The identifier after `id`: one more, and 1 again after 65535, so that
/// 0 is never handed out.
pub open spec fn next_id_after(id: u16) -> u16 {
    if id == u16::MAX {
        1
    } else {
        (id + 1) as u16
    }
}

/// Hands out packet identifiers 1, 2, ..., 65535, 1, ...
#[derive(Debug, Clone)]
pub struct PacketIdCounter {
    pub next: u16,
}

impl PacketIdCounter {
    /// A counter whose first identifier is 1.
    pub fn new() -> (r: Self)
        ensures
            r.next == 1,
    {
        PacketIdCounter { next: 1 }
    }

    /// The next identifier; the counter moves on, skipping 0.
    pub fn next_packet_id(&mut self) -> (r: u16)
        ensures
            r == old(self).next,
            final(self).next == next_id_after(old(self).next),
    {
        let id = self.next;
        self.next = self.next.wrapping_add(1);
        if self.next == 0 {
            self.next = 1;
        }
        id
    }

    /// The next identifier; the counter moves on by one and wraps to 0.
    pub fn next_packet_id_wrapping(&mut self) -> (r: u16)
        ensures
            r == old(self).next,
            final(self).next == (if old(self).next == u16::MAX { 0 } else { (old(self).next + 1) as u16 }),
    {
        let id = self.next;
        self.next = self.next.wrapping_add(1);
        id
    }
}

/// A counter that starts at 1 never hands out 0, and comes back to 1
/// after 65535.
pub proof fn lemma_packet_ids_never_zero(id: u16)
    ensures
        next_id_after(id) != 0,
        next_id_after(u16::MAX) == 1,
        id < u16::MAX ==> next_id_after(id) == id + 1,
{
}

} // verus!
