//! The driver handle and its operations.

use vstd::prelude::*;
use crate::bus::{outcome_of, BusRead, RegisterBus};
use crate::capabilities::{capabilities_of, Capabilities};
use crate::gesture::{gesture_info_of, GestureInfo};
use crate::point::{point_of, Point};
use crate::regs::{
    point_register, ADVANCED_TOUCH_INFO, CONTACT_COUNT_MAX, MISC_INFO, POINT_BASE, POINT_SLOTS,
    POINT_STRIDE, SENSING_COUNTER_L, STATUS, XY_RESOLUTION_H,
};

verus! {

/// Address the device answers at unless it was configured otherwise.
pub const DEFAULT_ADDR: u8 = 0x55;

/// Handle of one touch controller: the bus it sits on and its address.
/// In ghost state it keeps the record of every register read it issued
/// and the state in which each of them left the bus.
pub struct TouchIC<I2C: RegisterBus> {
    i2c: I2C,
    addr: u8,
    reads: Ghost<Seq<BusRead<I2C::Error>>>,
    states: Ghost<Seq<I2C>>,
}

/// A status byte reports a busy device while its upper nibble is non-zero.
pub open spec fn busy(status: u8) -> bool {
    status >= 16
}

/// The frame counter that the two counter bytes hold, big-endian.
pub open spec fn sensor_count_of(bytes: Seq<u8>) -> int
    recommends
        bytes.len() == 2,
{
    bytes[0] as int * 256 + bytes[1] as int
}

/// `added` is exactly one read, of `len` bytes at `register` of the
/// device at `address`.
pub open spec fn one_read<E>(added: Seq<BusRead<E>>, address: u8, register: int, len: nat) -> bool {
    added.len() == 1 && added[0].targets(address, register, len)
}

/// The reads in `added` are transactions of the bus, made one after
/// another with nothing in between: the first takes the bus from `pre`
/// to `after[0]`, each later one from where the one before left it to
/// its own entry of `after`, each with the address, the register and
/// the outcome that its record holds; `post` is where the last one left
/// the bus, or `pre` where there is none.
pub open spec fn transacted<B: RegisterBus>(
    pre: B,
    added: Seq<BusRead<B::Error>>,
    after: Seq<B>,
    post: B,
) -> bool {
    &&& after.len() == added.len()
    &&& forall|i: int|
        0 <= i < added.len() ==> (if i == 0 {
            pre
        } else {
            after[i - 1]
        }).transacts(
            (#[trigger] added[i]).address,
            added[i].register,
            &after[i],
            added[i].outcome,
        )
    &&& post == if added.len() == 0 {
        pre
    } else {
        after.last()
    }
}

/// The reads of a status poll: each is a one-byte read of the status
/// register, and each but the last found the device busy.
pub open spec fn poll_reads<E>(added: Seq<BusRead<E>>, address: u8) -> bool {
    &&& forall|i: int| 0 <= i < added.len() ==> (#[trigger] added[i]).targets(address, STATUS as int, 1)
    &&& forall|i: int|
        0 <= i < added.len() - 1 ==> ((#[trigger] added[i]).outcome matches Ok(d) && busy(d[0]))
}

/// What a status poll of at most `max_polls` reads leaves behind and
/// returns. The poll ends with `Ok(true)` on the first read that finds
/// the device ready, with the error on the first read that fails, and
/// with `Ok(false)` when `max_polls` reads all found it busy.
pub open spec fn status_poll<E>(
    added: Seq<BusRead<E>>,
    address: u8,
    max_polls: nat,
    r: Result<bool, E>,
) -> bool {
    &&& added.len() <= max_polls
    &&& poll_reads(added, address)
    &&& match r {
        Ok(true) => added.len() >= 1 && (added.last().outcome matches Ok(d) && !busy(d[0])),
        Ok(false) => added.len() == max_polls && (added.len() >= 1 ==> (added.last().outcome matches Ok(
            d,
        ) && busy(d[0]))),
        Err(e) => added.len() >= 1 && added.last().outcome == Err::<Seq<u8>, E>(e),
    }
}

/// What the wait for a ready device leaves behind and returns. It reads
/// the status register until a read finds the device ready, which ends
/// it with `Ok`, or fails, which ends it with the error. The one other
/// end is the limit of the machine: `u64::MAX` reads that all found the
/// device busy end the wait with `Ok` as well.
pub open spec fn ready_wait<E>(added: Seq<BusRead<E>>, address: u8, r: Result<(), E>) -> bool {
    &&& 1 <= added.len() <= u64::MAX
    &&& poll_reads(added, address)
    &&& match r {
        Ok(_) => added.last().outcome matches Ok(d) && (!busy(d[0]) || added.len() == u64::MAX),
        Err(e) => added.last().outcome == Err::<Seq<u8>, E>(e),
    }
}

/// What a capabilities query leaves behind and returns: up to three
/// reads in a fixed order, cut short by the first that fails.
pub open spec fn capabilities_query<E>(
    added: Seq<BusRead<E>>,
    address: u8,
    r: Result<Capabilities, E>,
) -> bool {
    &&& 1 <= added.len() <= 3
    &&& added[0].targets(address, CONTACT_COUNT_MAX as int, 1)
    &&& added.len() >= 2 ==> !added[0].failed() && added[1].targets(address, MISC_INFO as int, 1)
    &&& added.len() >= 3 ==> !added[1].failed() && added[2].targets(
        address,
        XY_RESOLUTION_H as int,
        3,
    )
    &&& match r {
        Ok(c) => added.len() == 3 && !added[2].failed() && c == capabilities_of(
            added[0].answer()[0],
            added[1].answer()[0],
            added[2].answer(),
        ),
        Err(e) => added.last().outcome == Err::<Seq<u8>, E>(e),
    }
}

impl<I2C: RegisterBus> TouchIC<I2C> {
    /// The bus this handle holds, as it is now.
    pub closed spec fn bus(self) -> I2C {
        self.i2c
    }

    /// The device address this handle talks to.
    pub closed spec fn address(self) -> u8 {
        self.addr
    }

    /// Every register read this handle issued, oldest first.
    pub closed spec fn reads(self) -> Seq<BusRead<I2C::Error>> {
        self.reads@
    }

    /// The bus as each of those reads left it, oldest first.
    pub closed spec fn states(self) -> Seq<I2C> {
        self.states@
    }

    /// This handle is `before` after some further reads: the address is
    /// the same and what was recorded then is still the start of what is
    /// recorded now.
    pub open spec fn continues(self, before: Self) -> bool {
        &&& self.address() == before.address()
        &&& before.reads().is_prefix_of(self.reads())
        &&& before.states().is_prefix_of(self.states())
    }

    /// The reads issued since `before`, oldest first.
    pub open spec fn reads_since(self, before: Self) -> Seq<BusRead<I2C::Error>> {
        self.reads().skip(before.reads().len() as int)
    }

    /// The bus as each read since `before` left it, oldest first.
    pub open spec fn states_since(self, before: Self) -> Seq<I2C> {
        self.states().skip(before.states().len() as int)
    }

    /// The reads recorded since `before` are what was done on the bus
    /// since then: each is a transaction of the bus, they follow one
    /// another from the bus of `before` to the bus of this handle, and
    /// nothing else touched the bus.
    pub open spec fn follows(self, before: Self) -> bool {
        &&& self.continues(before)
        &&& transacted(
            before.bus(),
            self.reads_since(before),
            self.states_since(before),
            self.bus(),
        )
    }

    /// Makes a handle for the device at `addr` on the bus `i2c`. Nothing
    /// is read.
    pub fn new(i2c: I2C, addr: u8) -> (s: Self)
        ensures
            s.bus() == i2c,
            s.address() == addr,
            s.reads().len() == 0,
            s.states().len() == 0,
    {
        TouchIC { i2c, addr, reads: Ghost(Seq::empty()), states: Ghost(Seq::empty()) }
    }

    /// Makes a handle for the device at the default address on the bus
    /// `i2c`. Nothing is read.
    pub fn new_default(i2c: I2C) -> (s: Self)
        ensures
            s.bus() == i2c,
            s.address() == DEFAULT_ADDR,
            s.reads().len() == 0,
            s.states().len() == 0,
    {
        Self::new(i2c, DEFAULT_ADDR)
    }

    /// Reads `N` bytes starting at `reg` and records the read.
    fn read_block<const N: usize>(&mut self, reg: u8) -> (r: Result<[u8; N], I2C::Error>)
        ensures
            final(self).address() == old(self).address(),
            final(self).reads() == old(self).reads().push(
                BusRead {
                    address: old(self).address(),
                    register: reg,
                    len: N as nat,
                    outcome: outcome_of(r),
                },
            ),
            final(self).states() == old(self).states().push(final(self).bus()),
            old(self).bus().transacts(
                old(self).address(),
                reg,
                &final(self).bus(),
                outcome_of(r),
            ),
    {
        let r = self.i2c.write_read::<N>(self.addr, reg);
        proof {
            let op = BusRead {
                address: self.addr,
                register: reg,
                len: N as nat,
                outcome: outcome_of(r),
            };
            self.reads@ = self.reads@.push(op);
            self.states@ = self.states@.push(self.i2c);
        }
        r
    }

    /// Reads `N` bytes starting at `reg`, as the one read of an
    /// operation.
    fn read_once<const N: usize>(&mut self, reg: u8) -> (r: Result<[u8; N], I2C::Error>)
        ensures
            final(self).follows(*old(self)),
            one_read(final(self).reads_since(*old(self)), old(self).address(), reg as int, N as nat),
            final(self).reads().last().outcome == outcome_of(r),
    {
        let ghost before = *self;
        let r = self.read_block::<N>(reg);
        proof {
            lemma_first_step(before, *self);
        }
        r
    }

    /// Reads the one byte at `reg`.
    fn read_reg8(&mut self, reg: u8) -> (r: Result<u8, I2C::Error>)
        ensures
            final(self).follows(*old(self)),
            one_read(final(self).reads_since(*old(self)), old(self).address(), reg as int, 1),
            match r {
                Ok(v) => final(self).reads().last().outcome == Ok::<Seq<u8>, I2C::Error>(seq![v]),
                Err(e) => final(self).reads().last().outcome == Err::<Seq<u8>, I2C::Error>(e),
            },
    {
        match self.read_once::<1>(reg) {
            Ok(buf) => {
                assert(buf@ =~= seq![buf[0]]);
                Ok(buf[0])
            },
            Err(e) => Err(e),
        }
    }

    /// Waits until the device is ready: reads the status register until
    /// a read finds the upper nibble zero, and reads nothing after that
    /// one. A read that fails ends the wait with its error. The wait has
    /// no limit of its own; it also ends, with `Ok`, once `u64::MAX`
    /// reads have all found the device busy, which is where the machine's
    /// count of them ends.
    pub fn init(&mut self) -> (r: Result<(), I2C::Error>)
        ensures
            final(self).follows(*old(self)),
            ready_wait(final(self).reads_since(*old(self)), old(self).address(), r),
    {
        match self.wait_normal_status(u64::MAX) {
            Ok(_) => Ok(()),
            Err(e) => Err(e),
        }
    }

    /// Reads the gesture, proximity and water information of the last
    /// detection cycle: one read of one byte.
    pub fn get_gesture_info(&mut self) -> (r: Result<GestureInfo, I2C::Error>)
        ensures
            final(self).follows(*old(self)),
            one_read(
                final(self).reads_since(*old(self)),
                old(self).address(),
                ADVANCED_TOUCH_INFO as int,
                1,
            ),
            match r {
                Ok(info) => final(self).reads().last().outcome matches Ok(d) && info
                    == gesture_info_of(d[0]),
                Err(e) => final(self).reads().last().outcome == Err::<Seq<u8>, I2C::Error>(e),
            },
    {
        match self.read_reg8(ADVANCED_TOUCH_INFO) {
            Ok(raw) => Ok(GestureInfo::from_raw(raw)),
            Err(e) => Err(e),
        }
    }

    /// Reads the contact in slot 0.
    pub fn get_point0(&mut self) -> (r: Result<Option<Point>, I2C::Error>)
        ensures
            final(self).follows(*old(self)),
            one_read(final(self).reads_since(*old(self)), old(self).address(), point_register(0), 4),
            match r {
                Ok(p) => final(self).reads().last().outcome matches Ok(d) && p == point_of(d),
                Err(e) => final(self).reads().last().outcome == Err::<Seq<u8>, I2C::Error>(e),
            },
    {
        self.get_point(0)
    }

    /// Reads the contact in slot 1.
    pub fn get_point1(&mut self) -> (r: Result<Option<Point>, I2C::Error>)
        ensures
            final(self).follows(*old(self)),
            one_read(final(self).reads_since(*old(self)), old(self).address(), point_register(1), 4),
            match r {
                Ok(p) => final(self).reads().last().outcome matches Ok(d) && p == point_of(d),
                Err(e) => final(self).reads().last().outcome == Err::<Seq<u8>, I2C::Error>(e),
            },
    {
        self.get_point(1)
    }

    /// Reads the contact in slot `nth`. The device has ten slots, 0 to 9:
    /// for any other `nth` there is no point, nothing is read and the
    /// bus is left as it was. For a slot of the device, its four-byte
    /// record is read in one transaction and decoded.
    pub fn get_point(&mut self, nth: u8) -> (r: Result<Option<Point>, I2C::Error>)
        ensures
            final(self).follows(*old(self)),
            nth >= POINT_SLOTS ==> {
                &&& final(self).bus() == old(self).bus()
                &&& final(self).reads() == old(self).reads()
                &&& final(self).states() == old(self).states()
                &&& r matches Ok(None)
            },
            nth < POINT_SLOTS ==> one_read(
                final(self).reads_since(*old(self)),
                old(self).address(),
                point_register(nth),
                4,
            ) && match r {
                Ok(p) => final(self).reads().last().outcome matches Ok(d) && p == point_of(d),
                Err(e) => final(self).reads().last().outcome == Err::<Seq<u8>, I2C::Error>(e),
            },
    {
        if nth >= POINT_SLOTS {
            return Ok(None);
        }
        let start_reg: u8 = POINT_BASE + POINT_STRIDE * nth;
        match self.read_once::<4>(start_reg) {
            Ok(buf) => Ok(Point::from_record(&buf)),
            Err(e) => Err(e),
        }
    }

    /// Reads the frame scan counter: one read of two bytes, taken
    /// big-endian.
    pub fn get_sensor_count(&mut self) -> (r: Result<u16, I2C::Error>)
        ensures
            final(self).follows(*old(self)),
            one_read(
                final(self).reads_since(*old(self)),
                old(self).address(),
                SENSING_COUNTER_L as int,
                2,
            ),
            match r {
                Ok(n) => final(self).reads().last().outcome matches Ok(d) && n == sensor_count_of(d),
                Err(e) => final(self).reads().last().outcome == Err::<Seq<u8>, I2C::Error>(e),
            },
    {
        match self.read_once::<2>(SENSING_COUNTER_L) {
            Ok(buf) => Ok(sensor_count(&buf)),
            Err(e) => Err(e),
        }
    }

    /// Reads the static limits of the device: the contact count, the
    /// miscellaneous information byte and the three resolution bytes, in
    /// that order. The first read that fails ends the query.
    pub fn get_capabilities(&mut self) -> (r: Result<Capabilities, I2C::Error>)
        ensures
            final(self).follows(*old(self)),
            capabilities_query(final(self).reads_since(*old(self)), old(self).address(), r),
    {
        let ghost before = *self;
        let max_contacts: u8 = match self.read_reg8(CONTACT_COUNT_MAX) {
            Ok(v) => v,
            Err(e) => {
                return Err(e);
            },
        };
        let ghost first = *self;
        let r1 = self.read_block::<1>(MISC_INFO);
        proof {
            lemma_next_step(before, first, *self);
        }
        let misc_info: u8 = match r1 {
            Ok(buf) => buf[0],
            Err(e) => {
                return Err(e);
            },
        };
        let ghost second = *self;
        let res = self.read_block::<3>(XY_RESOLUTION_H);
        proof {
            lemma_next_step(before, second, *self);
        }
        match res {
            Ok(buf) => Ok(Capabilities::from_registers(max_contacts, misc_info, &buf)),
            Err(e) => Err(e),
        }
    }

    /// Polls the status register until the device is ready, for at most
    /// `max_polls` reads. Returns `Ok(true)` on the first read that finds
    /// the device ready, the bus error on the first read that fails, and
    /// `Ok(false)` when `max_polls` reads all found it busy. Nothing is
    /// read after the read that decides.
    pub fn wait_normal_status(&mut self, max_polls: u64) -> (r: Result<bool, I2C::Error>)
        ensures
            final(self).follows(*old(self)),
            status_poll(
                final(self).reads_since(*old(self)),
                old(self).address(),
                max_polls as nat,
                r,
            ),
    {
        let ghost before = *self;
        let mut polls: u64 = 0;
        proof {
            lemma_no_step(before);
        }
        while polls < max_polls
            invariant
                polls <= max_polls,
                before == *old(self),
                self.follows(before),
                self.reads().len() == before.reads().len() + polls,
                poll_reads(self.reads_since(before), before.address()),
                forall|i: int|
                    0 <= i < polls ==> ((#[trigger] self.reads_since(before)[i]).outcome matches Ok(d)
                        && busy(d[0])),
            decreases max_polls - polls,
        {
            let ghost earlier = *self;
            let res = self.read_block::<1>(STATUS);
            proof {
                lemma_next_step(before, earlier, *self);
            }
            polls = polls + 1;
            match res {
                Ok(buf) => {
                    if is_ready(buf[0]) {
                        return Ok(true);
                    }
                },
                Err(e) => {
                    return Err(e);
                },
            }
        }
        Ok(false)
    }
}

/// Tells whether a status byte reports a ready device: its upper nibble
/// is zero.
pub fn is_ready(status: u8) -> (ready: bool)
    ensures
        ready == !busy(status),
{
    assert(status & 0xf0 == 0 <==> status < 16) by (bit_vector);
    status & 0xf0 == 0
}

/// Decodes the two counter bytes, big-endian.
pub fn sensor_count(bytes: &[u8; 2]) -> (n: u16)
    ensures
        n == sensor_count_of(bytes@),
{
    let hi: u8 = bytes[0];
    let lo: u8 = bytes[1];
    let n: u16 = ((hi as u16) << 8) | (lo as u16);
    assert(n == hi as u16 * 256 + lo as u16) by (bit_vector)
        requires
            n == ((hi as u16) << 8) | (lo as u16),
    ;
    n
}

/// A handle follows itself: with no read made, nothing was done on the
/// bus.
proof fn lemma_no_step<B: RegisterBus>(h: TouchIC<B>)
    ensures
        h.follows(h),
        h.reads_since(h).len() == 0,
{
    assert(h.reads() =~= h.reads().subrange(0, h.reads().len() as int));
    assert(h.states() =~= h.states().subrange(0, h.states().len() as int));
}

/// One recorded transaction after `pre` makes a handle that follows it.
proof fn lemma_first_step<B: RegisterBus>(pre: TouchIC<B>, post: TouchIC<B>)
    requires
        post.address() == pre.address(),
        post.reads().len() == pre.reads().len() + 1,
        post.reads().drop_last() =~= pre.reads(),
        post.states() == pre.states().push(post.bus()),
        pre.bus().transacts(
            post.reads().last().address,
            post.reads().last().register,
            &post.bus(),
            post.reads().last().outcome,
        ),
    ensures
        post.follows(pre),
        post.reads_since(pre).len() == 1,
        post.reads_since(pre)[0] == post.reads().last(),
{
    lemma_no_step(pre);
    lemma_next_step(pre, pre, post);
}

/// One more recorded transaction after `mid`, which follows `pre`, makes
/// a handle that follows `pre`; the reads since `pre` are those up to
/// `mid` and the new one.
proof fn lemma_next_step<B: RegisterBus>(pre: TouchIC<B>, mid: TouchIC<B>, post: TouchIC<B>)
    requires
        mid.follows(pre),
        post.address() == mid.address(),
        post.reads().len() == mid.reads().len() + 1,
        post.reads().drop_last() =~= mid.reads(),
        post.states() == mid.states().push(post.bus()),
        mid.bus().transacts(
            post.reads().last().address,
            post.reads().last().register,
            &post.bus(),
            post.reads().last().outcome,
        ),
    ensures
        post.follows(pre),
        post.reads_since(pre) =~= mid.reads_since(pre).push(post.reads().last()),
        post.states_since(pre) =~= mid.states_since(pre).push(post.bus()),
{
    let n = pre.reads().len() as int;
    let m = pre.states().len() as int;
    assert forall|i: int| 0 <= i < mid.reads().len() implies post.reads()[i] == mid.reads()[i] by {
        assert(post.reads().drop_last()[i] == post.reads()[i]);
    }
    assert(pre.reads() =~= post.reads().subrange(0, n)) by {
        assert forall|i: int| 0 <= i < n implies pre.reads()[i] == post.reads()[i] by {
            assert(mid.reads().subrange(0, n)[i] == mid.reads()[i]);
        }
    }
    assert(pre.states() =~= post.states().subrange(0, m)) by {
        assert forall|i: int| 0 <= i < m implies pre.states()[i] == post.states()[i] by {
            assert(mid.states().subrange(0, m)[i] == mid.states()[i]);
        }
    }
    let added = post.reads_since(pre);
    let after = post.states_since(pre);
    let k = mid.reads_since(pre).len() as int;
    assert(added =~= mid.reads_since(pre).push(post.reads().last()));
    assert(after =~= mid.states_since(pre).push(post.bus()));
    assert forall|i: int| 0 <= i < added.len() implies (if i == 0 {
        pre.bus()
    } else {
        after[i - 1]
    }).transacts((#[trigger] added[i]).address, added[i].register, &after[i], added[i].outcome) by {
        if i < k {
            assert(added[i] == mid.reads_since(pre)[i]);
            assert(after[i] == mid.states_since(pre)[i]);
            if i > 0 {
                assert(after[i - 1] == mid.states_since(pre)[i - 1]);
            }
        } else {
            assert(added[i] == post.reads().last());
            assert(after[i] == post.bus());
            if k > 0 {
                assert(after[i - 1] == mid.states_since(pre).last());
            }
        }
    }
}

/// A status poll stops at the first read that finds the device ready:
/// such a read is the last one of the poll, and the poll returned
/// `Ok(true)`.
pub proof fn lemma_poll_stops_at_first_ready<E>(
    added: Seq<BusRead<E>>,
    address: u8,
    max_polls: nat,
    r: Result<bool, E>,
    i: int,
)
    requires
        status_poll(added, address, max_polls, r),
        0 <= i < added.len(),
        added[i].outcome matches Ok(d) && !busy(d[0]),
    ensures
        i == added.len() - 1,
        r matches Ok(true),
{
}

/// The wait for a ready device stops at the first read that finds it
/// ready, and at the first read that fails: such a read is the last one
/// of the wait, the first ends it with `Ok` and the second with the
/// error of that read.
pub proof fn lemma_wait_stops_at_first_ready_or_failure<E>(
    added: Seq<BusRead<E>>,
    address: u8,
    r: Result<(), E>,
    i: int,
)
    requires
        ready_wait(added, address, r),
        0 <= i < added.len(),
        !(added[i].outcome matches Ok(d) && busy(d[0])),
    ensures
        i == added.len() - 1,
        added[i].outcome matches Ok(_) ==> r is Ok,
        added[i].outcome matches Err(e) ==> r == Err::<(), E>(e),
{
}

} // verus!
