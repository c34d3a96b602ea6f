//! The bounded packet queues between Discord and the browser.
//!
//! Both queues carry live audio: when one is full, the oldest packet makes room for the newest,
//! so that stale speech never waits. Waiting for a packet is the caller's part; the queues decide
//! what a caller that finds them in some state gets.

use std::collections::VecDeque;
use vstd::prelude::*;

verus! {

/// A counter after `more` further events; counters wrap around at 64 bits.
pub open spec fn counted(counter: u64, more: nat) -> u64 {
    ((counter + more) % 0x1_0000_0000_0000_0000) as u64
}

/// Adds to a counter.
pub fn count(counter: u64, more: u64) -> (result: u64)
    ensures
        result == counted(counter, more as nat),
{
    counter.wrapping_add(more)
}

/// The packets of a queue, oldest first.
pub open spec fn packet_views(packets: Seq<Vec<u8>>) -> Seq<Seq<u8>> {
    Seq::new(packets.len(), |i: int| packets[i]@)
}

/// A queue of limited capacity after `packet` was added to `packets`.
pub open spec fn with_packet(
    packets: Seq<Seq<u8>>,
    capacity: nat,
    packet: Seq<u8>,
) -> Seq<Seq<u8>> {
    if packets.len() >= capacity && packets.len() > 0 {
        packets.skip(1).push(packet)
    } else {
        packets.push(packet)
    }
}

/// A queue of limited capacity after all of `added` were added to `packets` in order.
pub open spec fn with_packets(
    packets: Seq<Seq<u8>>,
    capacity: nat,
    added: Seq<Seq<u8>>,
) -> Seq<Seq<u8>>
    decreases added.len(),
{
    if added.len() == 0 {
        packets
    } else {
        with_packet(with_packets(packets, capacity, added.drop_last()), capacity, added.last())
    }
}

/// The last `count` elements of a sequence, or all where there are fewer.
pub open spec fn newest(packets: Seq<Seq<u8>>, count: nat) -> Seq<Seq<u8>> {
    if packets.len() <= count {
        packets
    } else {
        packets.skip(packets.len() - count)
    }
}

/// Whatever is added, a queue that may hold packets keeps exactly the newest of them, in the
/// order in which they came, and never more than its capacity.
pub proof fn queue_keeps_the_newest_packets(
    packets: Seq<Seq<u8>>,
    capacity: nat,
    added: Seq<Seq<u8>>,
)
    requires
        capacity >= 1,
        packets.len() <= capacity,
    ensures
        with_packets(packets, capacity, added) == newest(packets + added, capacity),
        with_packets(packets, capacity, added).len() <= capacity,
    decreases added.len(),
{
    if added.len() == 0 {
        assert(packets + added =~= packets);
    } else {
        queue_keeps_the_newest_packets(packets, capacity, added.drop_last());
        let before = packets + added.drop_last();
        assert(packets + added =~= before.push(added.last()));
        assert(with_packets(packets, capacity, added) =~= newest(packets + added, capacity));
    }
}

/// The state that both queues share.
struct PacketBuffer {
    packets: VecDeque<Vec<u8>>,
    closed: bool,
    capacity: usize,
    peak_depth: u64,
    dropped_oldest: u64,
}

impl View for PacketBuffer {
    type V = Seq<Seq<u8>>;

    closed spec fn view(&self) -> Seq<Seq<u8>> {
        packet_views(self.packets@)
    }
}

impl PacketBuffer {
    fn new(capacity: usize) -> (buffer: Self)
        ensures
            buffer@ == Seq::<Seq<u8>>::empty(),
            !buffer.closed,
            buffer.capacity == capacity,
            buffer.peak_depth == 0,
            buffer.dropped_oldest == 0,
    {
        let buffer = PacketBuffer {
            packets: VecDeque::with_capacity(capacity),
            closed: false,
            capacity,
            peak_depth: 0,
            dropped_oldest: 0,
        };
        assert(buffer@ =~= Seq::<Seq<u8>>::empty());
        buffer
    }

    fn push(&mut self, packet: Vec<u8>) -> (dropped: Result<bool, ()>)
        ensures
            final(self).capacity == old(self).capacity,
            final(self).closed == old(self).closed,
            match dropped {
                Ok(dropped) => {
                    &&& !old(self).closed
                    &&& dropped == (old(self)@.len() >= old(self).capacity)
                    &&& final(self)@ == with_packet(old(self)@, old(self).capacity as nat, packet@)
                    &&& final(self).peak_depth == (if final(self)@.len() > old(self).peak_depth {
                        final(self)@.len() as u64
                    } else {
                        old(self).peak_depth
                    })
                    &&& final(self)@.len() <= u64::MAX
                    &&& final(self).dropped_oldest == (if dropped {
                        counted(old(self).dropped_oldest, 1)
                    } else {
                        old(self).dropped_oldest
                    })
                },
                Err(()) => old(self).closed && *final(self) == *old(self),
            },
    {
        if self.closed {
            return Err(());
        }
        let ghost before = self.packets@;
        let dropped = if self.packets.len() >= self.capacity {
            let oldest = self.packets.pop_front();
            self.dropped_oldest = count(self.dropped_oldest, 1);
            true
        } else {
            false
        };
        self.packets.push_back(packet);
        let depth: u64 = self.packets.len() as u64;
        if depth > self.peak_depth {
            self.peak_depth = depth;
        }
        assert(packet_views(self.packets@) =~= with_packet(
            packet_views(before),
            self.capacity as nat,
            packet@,
        ));
        Ok(dropped)
    }

    fn pop(&mut self) -> (packet: Option<Vec<u8>>)
        ensures
            match packet {
                Some(packet) => old(self)@.len() > 0 && packet@ == old(self)@[0] && final(self)@
                    == old(self)@.skip(1),
                None => old(self)@.len() == 0 && final(self)@ == old(self)@,
            },
            final(self).closed == old(self).closed,
            final(self).capacity == old(self).capacity,
            final(self).peak_depth == old(self).peak_depth,
            final(self).dropped_oldest == old(self).dropped_oldest,
    {
        let ghost before = self.packets@;
        let packet = self.packets.pop_front();
        proof {
            if before.len() > 0 {
                assert(packet_views(self.packets@) =~= packet_views(before).skip(1));
            } else {
                assert(packet_views(self.packets@) =~= packet_views(before));
            }
        }
        packet
    }

    fn clear(&mut self)
        ensures
            final(self)@ == Seq::<Seq<u8>>::empty(),
            final(self).closed == old(self).closed,
            final(self).capacity == old(self).capacity,
            final(self).peak_depth == old(self).peak_depth,
            final(self).dropped_oldest == old(self).dropped_oldest,
    {
        self.packets.clear();
        assert(self@ =~= Seq::<Seq<u8>>::empty());
    }

    fn close(&mut self)
        ensures
            final(self)@ == old(self)@,
            final(self).closed,
            final(self).capacity == old(self).capacity,
            final(self).peak_depth == old(self).peak_depth,
            final(self).dropped_oldest == old(self).dropped_oldest,
    {
        self.closed = true;
    }
}

/// What a queue answers to a caller that waits for a packet.
#[derive(Debug)]
pub enum Reception {
    /// The oldest packet.
    Packet(Vec<u8>),
    /// No packet will come, or none came in time.
    Ended,
    /// Nothing yet: wait for the next packet and ask again.
    Waiting,
}

/// Audio on its way from the browser to Discord.
pub struct RealtimePcmQueue {
    buffer: PacketBuffer,
}

impl View for RealtimePcmQueue {
    type V = Seq<Seq<u8>>;

    closed spec fn view(&self) -> Seq<Seq<u8>> {
        self.buffer@
    }
}

impl RealtimePcmQueue {
    /// How many packets the queue holds at most.
    pub closed spec fn capacity(&self) -> nat {
        self.buffer.capacity as nat
    }

    /// The queue accepts no further packet.
    pub closed spec fn closed(&self) -> bool {
        self.buffer.closed
    }

    /// The largest number of packets that was in the queue after an addition.
    pub closed spec fn peak_depth(&self) -> u64 {
        self.buffer.peak_depth
    }

    /// How often a packet was added to a full queue.
    pub closed spec fn dropped_oldest(&self) -> u64 {
        self.buffer.dropped_oldest
    }

    /// Nothing but the packets differs between this queue and another one.
    pub open spec fn differs_in_packets(self, other: Self) -> bool {
        &&& other.closed() == self.closed()
        &&& other.capacity() == self.capacity()
        &&& other.peak_depth() == self.peak_depth()
        &&& other.dropped_oldest() == self.dropped_oldest()
    }

    /// The other queue is this open one with a packet added, at the cost of the oldest one where
    /// the queue is full.
    pub open spec fn becomes(self, other: Self, packet: Seq<u8>) -> bool {
        &&& other@ == with_packet(self@, self.capacity(), packet)
        &&& other.closed() == self.closed()
        &&& other.capacity() == self.capacity()
        &&& other.peak_depth() == (if other@.len() > self.peak_depth() {
            other@.len() as u64
        } else {
            self.peak_depth()
        })
        &&& other.dropped_oldest() == (if self@.len() >= self.capacity() {
            counted(self.dropped_oldest(), 1)
        } else {
            self.dropped_oldest()
        })
    }

    /// The other queue is this one after it was closed.
    pub open spec fn is_closed_as(self, other: Self) -> bool {
        &&& other@ == self@
        &&& other.closed()
        &&& other.capacity() == self.capacity()
        &&& other.peak_depth() == self.peak_depth()
        &&& other.dropped_oldest() == self.dropped_oldest()
    }

    /// The queue is open, and nothing was ever added to it.
    pub open spec fn is_new(self, capacity: nat) -> bool {
        &&& self@ == Seq::<Seq<u8>>::empty()
        &&& self.capacity() == capacity
        &&& !self.closed()
        &&& self.peak_depth() == 0
        &&& self.dropped_oldest() == 0
    }

    /// An open, empty queue.
    pub fn new(capacity: usize) -> (queue: Self)
        ensures
            queue.is_new(capacity as nat),
    {
        RealtimePcmQueue { buffer: PacketBuffer::new(capacity) }
    }

    /// Adds a packet, at the cost of the oldest one where the queue is full. The answer tells
    /// whether it was full; a closed queue refuses the packet.
    pub fn push(&mut self, packet: Vec<u8>) -> (dropped: Result<bool, ()>)
        ensures
            match dropped {
                Ok(dropped) => {
                    &&& !old(self).closed()
                    &&& dropped == (old(self)@.len() >= old(self).capacity())
                    &&& old(self).becomes(*final(self), packet@)
                },
                Err(_) => old(self).closed() && *final(self) == *old(self),
            },
    {
        self.buffer.push(packet)
    }

    /// Answers a caller that waits for a packet; `expired` tells that its time is up.
    pub fn receive_timeout(&mut self, expired: bool) -> (received: Reception)
        ensures
            match received {
                Reception::Packet(packet) => old(self)@.len() > 0 && packet@ == old(self)@[0]
                    && final(self)@ == old(self)@.skip(1),
                Reception::Ended => old(self)@.len() == 0 && (old(self).closed() || expired)
                    && final(self)@ == old(self)@,
                Reception::Waiting => old(self)@.len() == 0 && !old(self).closed() && !expired
                    && final(self)@ == old(self)@,
            },
            old(self).differs_in_packets(*final(self)),
    {
        match self.buffer.pop() {
            Some(packet) => Reception::Packet(packet),
            None => if self.buffer.closed || expired {
                Reception::Ended
            } else {
                Reception::Waiting
            },
        }
    }

    /// Throws away what waits in the queue.
    pub fn clear(&mut self)
        ensures
            final(self)@ == Seq::<Seq<u8>>::empty(),
            old(self).differs_in_packets(*final(self)),
    {
        self.buffer.clear();
    }

    /// Refuses packets from now on; what waits in the queue can still be received.
    pub fn close(&mut self)
        ensures
            old(self).is_closed_as(*final(self)),
    {
        self.buffer.close();
    }
}

/// Audio on its way from Discord to the browser.
pub struct RealtimePacketQueue {
    buffer: PacketBuffer,
}

impl View for RealtimePacketQueue {
    type V = Seq<Seq<u8>>;

    closed spec fn view(&self) -> Seq<Seq<u8>> {
        self.buffer@
    }
}

impl RealtimePacketQueue {
    /// How many packets the queue holds at most.
    pub closed spec fn capacity(&self) -> nat {
        self.buffer.capacity as nat
    }

    /// The queue accepts no further packet.
    pub closed spec fn closed(&self) -> bool {
        self.buffer.closed
    }

    /// The largest number of packets that was in the queue after an addition.
    pub closed spec fn peak_depth(&self) -> u64 {
        self.buffer.peak_depth
    }

    /// How often a packet was added to a full queue.
    pub closed spec fn dropped_oldest(&self) -> u64 {
        self.buffer.dropped_oldest
    }

    /// Nothing but the packets differs between this queue and another one.
    pub open spec fn differs_in_packets(self, other: Self) -> bool {
        &&& other.closed() == self.closed()
        &&& other.capacity() == self.capacity()
        &&& other.peak_depth() == self.peak_depth()
        &&& other.dropped_oldest() == self.dropped_oldest()
    }

    /// The other queue is this open one with a packet added, at the cost of the oldest one where
    /// the queue is full.
    pub open spec fn becomes(self, other: Self, packet: Seq<u8>) -> bool {
        &&& other@ == with_packet(self@, self.capacity(), packet)
        &&& other.closed() == self.closed()
        &&& other.capacity() == self.capacity()
        &&& other.peak_depth() == (if other@.len() > self.peak_depth() {
            other@.len() as u64
        } else {
            self.peak_depth()
        })
        &&& other.dropped_oldest() == (if self@.len() >= self.capacity() {
            counted(self.dropped_oldest(), 1)
        } else {
            self.dropped_oldest()
        })
    }

    /// The other queue is this one after it was closed.
    pub open spec fn is_closed_as(self, other: Self) -> bool {
        &&& other@ == self@
        &&& other.closed()
        &&& other.capacity() == self.capacity()
        &&& other.peak_depth() == self.peak_depth()
        &&& other.dropped_oldest() == self.dropped_oldest()
    }

    /// The queue is open, and nothing was ever added to it.
    pub open spec fn is_new(self, capacity: nat) -> bool {
        &&& self@ == Seq::<Seq<u8>>::empty()
        &&& self.capacity() == capacity
        &&& !self.closed()
        &&& self.peak_depth() == 0
        &&& self.dropped_oldest() == 0
    }

    /// An open, empty queue.
    pub fn new(capacity: usize) -> (queue: Self)
        ensures
            queue.is_new(capacity as nat),
    {
        RealtimePacketQueue { buffer: PacketBuffer::new(capacity) }
    }

    /// Adds a packet, at the cost of the oldest one where the queue is full. The answer tells
    /// whether it was full; a closed queue refuses the packet.
    pub fn push(&mut self, packet: Vec<u8>) -> (dropped: Result<bool, ()>)
        ensures
            match dropped {
                Ok(dropped) => {
                    &&& !old(self).closed()
                    &&& dropped == (old(self)@.len() >= old(self).capacity())
                    &&& old(self).becomes(*final(self), packet@)
                },
                Err(_) => old(self).closed() && *final(self) == *old(self),
            },
    {
        self.buffer.push(packet)
    }

    /// Answers the writer that sends packets to the browser. A closed queue is emptied before it
    /// ends.
    pub fn pop(&mut self) -> (received: Reception)
        ensures
            match received {
                Reception::Packet(packet) => old(self)@.len() > 0 && packet@ == old(self)@[0]
                    && final(self)@ == old(self)@.skip(1),
                Reception::Ended => old(self)@.len() == 0 && old(self).closed() && final(self)@
                    == old(self)@,
                Reception::Waiting => old(self)@.len() == 0 && !old(self).closed() && final(self)@
                    == old(self)@,
            },
            old(self).differs_in_packets(*final(self)),
    {
        match self.buffer.pop() {
            Some(packet) => Reception::Packet(packet),
            None => if self.buffer.closed {
                Reception::Ended
            } else {
                Reception::Waiting
            },
        }
    }

    /// Refuses packets from now on; what waits in the queue is still handed out.
    pub fn close(&mut self)
        ensures
            old(self).is_closed_as(*final(self)),
    {
        self.buffer.close();
    }

    /// How many packets wait.
    pub fn depth(&self) -> (depth: u64)
        ensures
            depth == self@.len(),
    {
        self.buffer.packets.len() as u64
    }

    /// Reads the largest number of packets that was in the queue.
    pub fn read_peak_depth(&self) -> (peak: u64)
        ensures
            peak == self.peak_depth(),
    {
        self.buffer.peak_depth
    }

    /// Reads how often a packet was added to a full queue.
    pub fn read_dropped_oldest(&self) -> (dropped: u64)
        ensures
            dropped == self.dropped_oldest(),
    {
        self.buffer.dropped_oldest
    }
}

/// A packet that is added waits last. While there is room nothing is lost, and in a full queue the
/// oldest packet alone makes room.
pub proof fn added_packet_waits_last(packets: Seq<Seq<u8>>, capacity: nat, packet: Seq<u8>)
    requires
        0 < capacity,
        packets.len() <= capacity,
    ensures
        with_packet(packets, capacity, packet).last() == packet,
        packets.len() < capacity ==> with_packet(packets, capacity, packet).len() == packets.len()
            + 1 && forall|i: int|
            0 <= i < packets.len() ==> #[trigger] with_packet(packets, capacity, packet)[i]
                == packets[i],
        packets.len() == capacity ==> with_packet(packets, capacity, packet).len() == capacity
            && forall|i: int|
            0 <= i < capacity - 1 ==> #[trigger] with_packet(packets, capacity, packet)[i]
                == packets[i + 1],
{
}

/// Counting goes up by as much as happened, and starts again at zero behind the largest number of
/// 64 bits.
pub proof fn counters_go_up(counter: u64, more: u64)
    ensures
        counter + more <= u64::MAX ==> counted(counter, more as nat) == counter + more,
        counter + more > u64::MAX ==> counted(counter, more as nat) == counter + more
            - 0x1_0000_0000_0000_0000,
{
}

/// A queue keeps count of itself: a packet that is added to a full queue is counted as a loss and
/// no other is, and the peak is never below the number of packets that wait.
pub proof fn queues_count_their_losses(
    before: RealtimePcmQueue,
    after: RealtimePcmQueue,
    packet: Seq<u8>,
)
    requires
        before.becomes(after, packet),
        0 < before.capacity() <= u64::MAX,
        before@.len() <= before.capacity(),
        before.dropped_oldest() < u64::MAX,
    ensures
        before@.len() == before.capacity() ==> after.dropped_oldest() == before.dropped_oldest()
            + 1 && after@.len() == before@.len(),
        before@.len() < before.capacity() ==> after.dropped_oldest() == before.dropped_oldest()
            && after@.len() == before@.len() + 1,
        after.peak_depth() >= after@.len(),
        after.peak_depth() >= before.peak_depth(),
        after.peak_depth() == before.peak_depth() || after.peak_depth() == after@.len(),
        after@.last() == packet,
        after.capacity() == before.capacity(),
{
}

/// The queue to the browser keeps count of itself in the same way.
pub proof fn browser_queues_count_their_losses(
    before: RealtimePacketQueue,
    after: RealtimePacketQueue,
    packet: Seq<u8>,
)
    requires
        before.becomes(after, packet),
        0 < before.capacity() <= u64::MAX,
        before@.len() <= before.capacity(),
        before.dropped_oldest() < u64::MAX,
    ensures
        before@.len() == before.capacity() ==> after.dropped_oldest() == before.dropped_oldest()
            + 1 && after@.len() == before@.len(),
        before@.len() < before.capacity() ==> after.dropped_oldest() == before.dropped_oldest()
            && after@.len() == before@.len() + 1,
        after.peak_depth() >= after@.len(),
        after.peak_depth() >= before.peak_depth(),
        after.peak_depth() == before.peak_depth() || after.peak_depth() == after@.len(),
        after@.last() == packet,
        after.capacity() == before.capacity(),
{
}

/// A new queue is open and empty and has counted nothing, so that it has room for as many packets
/// as it was made for.
pub proof fn new_queues_are_empty(
    to_discord: RealtimePcmQueue,
    to_browser: RealtimePacketQueue,
    capacity: nat,
)
    requires
        to_discord.is_new(capacity),
        to_browser.is_new(capacity),
    ensures
        to_discord@.len() == 0 && to_browser@.len() == 0,
        !to_discord.closed() && !to_browser.closed(),
        to_discord.capacity() == capacity && to_browser.capacity() == capacity,
        to_discord.peak_depth() == 0 && to_browser.peak_depth() == 0,
        to_discord.dropped_oldest() == 0 && to_browser.dropped_oldest() == 0,
{
}

/// Receiving, clearing and closing leave the counts of a queue alone.
pub proof fn counts_change_by_additions_only(
    before: RealtimePcmQueue,
    after: RealtimePcmQueue,
    browser_before: RealtimePacketQueue,
    browser_after: RealtimePacketQueue,
)
    ensures
        before.differs_in_packets(after) || before.is_closed_as(after) ==> {
            &&& after.dropped_oldest() == before.dropped_oldest()
            &&& after.peak_depth() == before.peak_depth()
            &&& after.capacity() == before.capacity()
        },
        browser_before.differs_in_packets(browser_after) || browser_before.is_closed_as(
            browser_after,
        ) ==> {
            &&& browser_after.dropped_oldest() == browser_before.dropped_oldest()
            &&& browser_after.peak_depth() == browser_before.peak_depth()
            &&& browser_after.capacity() == browser_before.capacity()
        },
        before.is_closed_as(after) ==> after.closed() && after@ == before@,
        browser_before.is_closed_as(browser_after) ==> browser_after.closed() && browser_after@
            == browser_before@,
        before.differs_in_packets(after) ==> after.closed() == before.closed(),
        browser_before.differs_in_packets(browser_after) ==> browser_after.closed()
            == browser_before.closed(),
{
}

} // verus!
