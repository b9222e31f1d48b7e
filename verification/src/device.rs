//! The device bus: peripherals registered under port numbers, and the
//! interface they offer to the core.

use vstd::prelude::*;
use crate::error::Error;

verus! {

/// Most ports a bus can hand out.
pub const PORTS: u16 = 256;

/// What a device is shown of the core when one of its hooks runs.
#[derive(Clone, Copy, Debug)]
pub struct Snapshot {
    /// The eight registers.
    pub reg: [u8; 8],
    /// The program counter.
    pub pc: u16,
    /// The stack pointer.
    pub sp: u16,
}

/// A snapshot as a mathematical value.
pub struct Core {
    /// The eight registers, by index.
    pub reg: Seq<u8>,
    /// The program counter.
    pub pc: u16,
    /// The stack pointer.
    pub sp: u16,
}

impl View for Snapshot {
    type V = Core;

    open spec fn view(&self) -> Core {
        Core { reg: self.reg@, pc: self.pc, sp: self.sp }
    }
}

/// The capability interface of a peripheral.
///
/// The bus does not interpret the bytes it moves. What a hook may do is
/// said by the device itself, in the three relations below: each hook
/// promises to stay inside its relation, and the bus and the core pass that
/// promise on to their callers. Left as they are, the relations hold of
/// every outcome: such a device promises nothing.
pub trait Device: Sized {
    /// Whether `receive`, run on `pre` with the core as in `core`, may leave
    /// the device as `post` and hand out `byte`.
    open spec fn receives(pre: Self, core: Core, post: Self, byte: u8) -> bool {
        true
    }

    /// Whether `send`, run on `pre` with `byte`, may leave the device as
    /// `post`.
    open spec fn sends(pre: Self, core: Core, byte: u8, post: Self) -> bool {
        true
    }

    /// Whether `on_remove`, run on `pre`, may leave the device as `post`.
    open spec fn removes(pre: Self, core: Core, post: Self) -> bool {
        true
    }

    /// Hands one byte to the core; runs when the core executes IN.
    fn receive(&mut self, core: &Snapshot) -> (byte: u8)
        ensures
            Self::receives(*old(self), core@, *final(self), byte),
    ;

    /// Takes one byte from the core; runs when the core executes OUT.
    fn send(&mut self, core: &Snapshot, byte: u8)
        ensures
            Self::sends(*old(self), core@, byte, *final(self)),
    ;

    /// Runs once, when the device is taken off the bus.
    fn on_remove(&mut self, core: &Snapshot)
        ensures
            Self::removes(*old(self), core@, *final(self)),
    ;
}

/// A one-byte latch: it keeps the last byte sent to it and hands that byte
/// out on every receive.
#[derive(Clone, Copy, Debug)]
pub struct Latch {
    /// The byte last sent; 0 before the first send.
    pub held: u8,
}

impl Latch {
    /// A latch that holds 0.
    pub fn new() -> (latch: Latch)
        ensures
            latch.held == 0,
    {
        Latch { held: 0 }
    }
}

impl Device for Latch {
    open spec fn receives(pre: Self, core: Core, post: Self, byte: u8) -> bool {
        post == pre && byte == pre.held
    }

    open spec fn sends(pre: Self, core: Core, byte: u8, post: Self) -> bool {
        post.held == byte
    }

    open spec fn removes(pre: Self, core: Core, post: Self) -> bool {
        post == pre
    }

    fn receive(&mut self, core: &Snapshot) -> (byte: u8) {
        self.held
    }

    fn send(&mut self, core: &Snapshot, byte: u8) {
        self.held = byte;
    }

    fn on_remove(&mut self, core: &Snapshot) {
    }
}

/// A registered device: its port, its name and the device itself.
pub struct Port<D> {
    /// The port the device answers at.
    pub id: u8,
    /// A name for people to read.
    pub name: String,
    /// The device.
    pub device: D,
}

/// A registered device as a mathematical value.
#[verifier::ext_equal]
pub struct Slot<D> {
    /// The port the device answers at.
    pub id: u8,
    /// Its name.
    pub name: Seq<char>,
    /// The device.
    pub device: D,
}

/// The bus as a mathematical value.
#[verifier::ext_equal]
pub struct Bus<D> {
    /// The registered devices, in the order of their registration.
    pub slots: Seq<Slot<D>>,
    /// The port that the next registration is given. No port at or above it
    /// was ever handed out.
    pub next: nat,
}

impl<D> Bus<D> {
    /// The shape every bus has: no port is taken twice, and every port in
    /// use lies below `next`.
    pub open spec fn wf(self) -> bool {
        &&& self.next <= PORTS
        &&& forall|i: int| 0 <= i < self.slots.len() ==> (#[trigger] self.slots[i]).id < self.next
        &&& forall|i: int, j: int|
            0 <= i < j < self.slots.len() ==> (#[trigger] self.slots[i]).id != (
            #[trigger] self.slots[j]).id
    }

    /// Whether a device is registered at `port`.
    pub open spec fn has(self, port: u8) -> bool {
        exists|i: int| 0 <= i < self.slots.len() && (#[trigger] self.slots[i]).id == port
    }

    /// The position, in registration order, of the device at `port`.
    pub open spec fn position(self, port: u8) -> int {
        choose|i: int| 0 <= i < self.slots.len() && (#[trigger] self.slots[i]).id == port
    }

    /// The device registered at `port`.
    pub open spec fn device(self, port: u8) -> D {
        self.slots[self.position(port)].device
    }

    /// The bus with `device` in the place of the device at `port`.
    pub open spec fn with_device(self, port: u8, device: D) -> Bus<D> {
        let i = self.position(port);
        Bus {
            slots: self.slots.update(i, Slot { device, ..self.slots[i] }),
            ..self
        }
    }

    /// The bus after `device` was registered at the next port.
    pub open spec fn added(self, name: Seq<char>, device: D) -> Bus<D> {
        Bus {
            slots: self.slots.push(Slot { id: self.next as u8, name, device }),
            next: self.next + 1,
        }
    }

    /// The bus after `device` was registered at a port of the caller's
    /// choice.
    pub open spec fn placed(self, port: u8, name: Seq<char>, device: D) -> Bus<D> {
        Bus {
            slots: self.slots.push(Slot { id: port, name, device }),
            next: if self.next > port {
                self.next
            } else {
                (port + 1) as nat
            },
        }
    }

    /// The bus after the device at `port` was taken off.
    pub open spec fn removed(self, port: u8) -> Bus<D> {
        Bus { slots: self.slots.remove(self.position(port)), ..self }
    }

    /// On a well-formed bus a port is held by one position only.
    pub proof fn lemma_position(self, port: u8, i: int)
        requires
            self.wf(),
            0 <= i < self.slots.len(),
            self.slots[i].id == port,
        ensures
            self.has(port),
            self.position(port) == i,
    {
        let j = self.position(port);
        assert(0 <= j < self.slots.len() && self.slots[j].id == port);
        if i < j {
            assert(self.slots[i].id != self.slots[j].id);
        } else if j < i {
            assert(self.slots[j].id != self.slots[i].id);
        }
    }
}

/// A registration takes the bus's next port, which no device holds, and
/// leaves every other registration as it was.
pub proof fn lemma_added<D>(bus: Bus<D>, name: Seq<char>, device: D, other: u8)
    requires
        bus.wf(),
        bus.next < 256,
    ensures
        bus.added(name, device).wf(),
        !bus.has(bus.next as u8),
        bus.added(name, device).has(bus.next as u8),
        bus.added(name, device).device(bus.next as u8) == device,
        other != bus.next ==> bus.added(name, device).has(other) == bus.has(other),
        bus.has(other) ==> bus.added(name, device).device(other) == bus.device(other),
{
    let after = bus.added(name, device);
    let port = bus.next as u8;
    let last = bus.slots.len() as int;
    assert(after.slots[last].id == port);
    assert forall|i: int, j: int| 0 <= i < j < after.slots.len() implies (
    #[trigger] after.slots[i]).id != (#[trigger] after.slots[j]).id by {
        if j < last {
            assert(after.slots[i] == bus.slots[i] && after.slots[j] == bus.slots[j]);
        } else {
            assert(after.slots[i] == bus.slots[i]);
        }
    }
    assert forall|i: int| 0 <= i < after.slots.len() implies (#[trigger] after.slots[i]).id
        < after.next by {
        if i < last {
            assert(after.slots[i] == bus.slots[i]);
        }
    }
    after.lemma_position(port, last);
    if bus.has(other) {
        let i = bus.position(other);
        assert(after.slots[i] == bus.slots[i]);
        after.lemma_position(other, i);
    }
    if after.has(other) && other != port {
        let i = after.position(other);
        assert(i != last);
        assert(after.slots[i] == bus.slots[i]);
    }
}

/// Replacing the device at a port keeps every registration, and every
/// other device.
pub proof fn lemma_with_device<D>(bus: Bus<D>, port: u8, device: D, other: u8)
    requires
        bus.wf(),
        bus.has(port),
    ensures
        bus.with_device(port, device).wf(),
        bus.with_device(port, device).next == bus.next,
        bus.with_device(port, device).has(other) == bus.has(other),
        bus.with_device(port, device).device(port) == device,
        other != port && bus.has(other) ==> bus.with_device(port, device).device(other)
            == bus.device(other),
{
    let after = bus.with_device(port, device);
    let at = bus.position(port);
    assert(forall|i: int| 0 <= i < bus.slots.len() ==> (#[trigger] after.slots[i]).id
        == bus.slots[i].id);
    assert forall|i: int, j: int| 0 <= i < j < after.slots.len() implies (
    #[trigger] after.slots[i]).id != (#[trigger] after.slots[j]).id by {
        assert(bus.slots[i].id != bus.slots[j].id);
    }
    assert forall|i: int| 0 <= i < after.slots.len() implies (#[trigger] after.slots[i]).id
        < after.next by {
        assert(bus.slots[i].id < bus.next);
    }
    after.lemma_position(port, at);
    if bus.has(other) {
        let i = bus.position(other);
        assert(after.slots[i].id == other);
        after.lemma_position(other, i);
    }
    if after.has(other) {
        let i = after.position(other);
        assert(bus.slots[i].id == other);
    }
}

/// A port whose device was removed holds no device, and it is not handed
/// out again: the next registration still takes a port that was never in
/// use. Every other registration is as it was.
pub proof fn lemma_removed<D>(bus: Bus<D>, port: u8, other: u8)
    requires
        bus.wf(),
        bus.has(port),
    ensures
        bus.removed(port).wf(),
        bus.removed(port).next == bus.next,
        !bus.removed(port).has(port),
        other != port ==> bus.removed(port).has(other) == bus.has(other),
        other != port && bus.has(other) ==> bus.removed(port).device(other) == bus.device(other),
{
    let after = bus.removed(port);
    let at = bus.position(port);
    assert forall|i: int| 0 <= i < after.slots.len() implies #[trigger] after.slots[i] == (if i
        < at {
        bus.slots[i]
    } else {
        bus.slots[i + 1]
    }) by {}
    assert forall|i: int, j: int| 0 <= i < j < after.slots.len() implies (
    #[trigger] after.slots[i]).id != (#[trigger] after.slots[j]).id by {
        let a = if i < at { i } else { i + 1 };
        let b = if j < at { j } else { j + 1 };
        assert(bus.slots[a].id != bus.slots[b].id);
    }
    assert forall|i: int| 0 <= i < after.slots.len() implies (#[trigger] after.slots[i]).id
        < after.next && after.slots[i].id != port by {
        let a = if i < at { i } else { i + 1 };
        assert(bus.slots[a].id < bus.next);
        if a < at {
            assert(bus.slots[a].id != bus.slots[at].id);
        } else {
            assert(bus.slots[at].id != bus.slots[a].id);
        }
    }
    if bus.has(other) && other != port {
        let i = bus.position(other);
        let a = if i < at { i } else { i - 1 };
        assert(after.slots[a] == bus.slots[i]);
        after.lemma_position(other, a);
    }
    if after.has(other) {
        let i = after.position(other);
        let a = if i < at { i } else { i + 1 };
        assert(bus.slots[a].id == other);
    }
}

/// The device bus of one machine.
///
/// The bus holds devices of one type. A machine with several kinds of
/// device gives the bus an enum of them, which implements `Device` by
/// handing each call on to the kind at hand.
pub struct Devices<D: Device> {
    ports: Vec<Port<D>>,
    next: u16,
}

impl<D: Device> View for Devices<D> {
    type V = Bus<D>;

    closed spec fn view(&self) -> Bus<D> {
        Bus {
            slots: Seq::new(
                self.ports@.len(),
                |i: int|
                    Slot {
                        id: self.ports@[i].id,
                        name: self.ports@[i].name@,
                        device: self.ports@[i].device,
                    },
            ),
            next: self.next as nat,
        }
    }
}

impl<D: Device> Devices<D> {
    /// A bus with no device; the first registration gets port 0.
    pub fn new() -> (bus: Devices<D>)
        ensures
            bus@.wf(),
            bus@.slots.len() == 0,
            bus@.next == 0,
    {
        Devices { ports: Vec::new(), next: 0 }
    }

    /// The number of registered devices.
    pub fn len(&self) -> (n: usize)
        ensures
            n == self@.slots.len(),
    {
        self.ports.len()
    }

    /// The port that the next registration is given; 256 when none is left.
    pub fn next_port(&self) -> (next: u16)
        ensures
            next == self@.next,
    {
        self.next
    }

    /// Looks `port` up, device by device in registration order.
    pub fn find(&self, port: u8) -> (at: Option<usize>)
        requires
            self@.wf(),
        ensures
            at is Some <==> self@.has(port),
            at matches Some(i) ==> i == self@.position(port) && i < self@.slots.len(),
    {
        let mut i: usize = 0;
        while i < self.ports.len()
            invariant
                i <= self.ports@.len(),
                self@.wf(),
                forall|j: int| 0 <= j < i ==> (#[trigger] self@.slots[j]).id != port,
            decreases self.ports@.len() - i,
        {
            if self.ports[i].id == port {
                proof {
                    assert(self@.slots[i as int].id == port);
                    self@.lemma_position(port, i as int);
                }
                return Some(i);
            }
            assert(self@.slots[i as int].id != port);
            i += 1;
        }
        None
    }

    /// Whether a device is registered at `port`.
    pub fn contains(&self, port: u8) -> (found: bool)
        requires
            self@.wf(),
        ensures
            found == self@.has(port),
    {
        self.find(port).is_some()
    }

    /// The port and the name of the device at position `i` of the
    /// registration order.
    pub fn entry(&self, i: usize) -> (e: (u8, String))
        requires
            i < self@.slots.len(),
        ensures
            e.0 == self@.slots[i as int].id,
            e.1@ == self@.slots[i as int].name,
    {
        (self.ports[i].id, self.ports[i].name.clone())
    }

    /// Registers `device` at the next port and returns that port.
    ///
    /// Ports are handed out in rising order and never a second time. When
    /// all 256 have been handed out nothing is registered and `None` is
    /// returned.
    pub fn add(&mut self, name: String, device: D) -> (port: Option<u8>)
        requires
            old(self)@.wf(),
        ensures
            final(self)@.wf(),
            old(self)@.next < PORTS ==> port == Some(old(self)@.next as u8)
                && final(self)@ == old(self)@.added(name@, device),
            old(self)@.next >= PORTS ==> port is None && final(self)@ == old(self)@,
            port matches Some(p) ==> !old(self)@.has(p) && final(self)@.has(p)
                && final(self)@.device(p) == device,
            forall|q: u8| #[trigger]
                old(self)@.has(q) ==> final(self)@.has(q)
                    && final(self)@.device(q) == old(self)@.device(q),
    {
        if self.next >= PORTS {
            return None;
        }
        let id: u8 = self.next as u8;
        proof {
            let after = old(self)@.added(name@, device);
            assert forall|q: u8| #[trigger] old(self)@.has(q) implies after.has(q)
                && after.device(q) == old(self)@.device(q) by {
                lemma_added(old(self)@, name@, device, q);
                assert(old(self)@.slots[old(self)@.position(q)].id < old(self)@.next);
            }
            lemma_added(old(self)@, name@, device, id);
        }
        self.ports.push(Port { id, name, device });
        self.next = self.next + 1;
        assert(self@.slots =~= old(self)@.added(name@, device).slots);
        Some(id)
    }

    /// Registers `device` at `port`, a port of the caller's choice.
    ///
    /// Nothing is registered, and `false` is returned, when a device is
    /// registered at `port` already.
    pub fn add_at(&mut self, port: u8, name: String, device: D) -> (done: bool)
        requires
            old(self)@.wf(),
        ensures
            final(self)@.wf(),
            done == !old(self)@.has(port),
            done ==> final(self)@ == old(self)@.placed(port, name@, device),
            !done ==> final(self)@ == old(self)@,
    {
        if self.find(port).is_some() {
            return false;
        }
        self.ports.push(Port { id: port, name, device });
        if self.next <= port as u16 {
            self.next = port as u16 + 1;
        }
        assert(self@.slots =~= old(self)@.placed(port, name@, device).slots);
        assert(forall|i: int|
            0 <= i < old(self)@.slots.len() ==> self@.slots[i] == old(self)@.slots[i]);
        true
    }

    /// Runs the removal hook of the device at `port`, takes the device off
    /// the bus and hands it back.
    ///
    /// Fails with `DeviceNotPresent`, and changes nothing, exactly when no
    /// device is registered at `port`.
    pub fn remove(&mut self, port: u8, core: &Snapshot) -> (r: Result<D, Error>)
        requires
            old(self)@.wf(),
        ensures
            final(self)@.wf(),
            old(self)@.has(port) ==> r is Ok && D::removes(
                old(self)@.device(port),
                core@,
                r->Ok_0,
            ) && final(self)@ == old(self)@.removed(port),
            !old(self)@.has(port) ==> r == Err::<D, Error>(Error::DeviceNotPresent) && final(self)@
                == old(self)@,
            !final(self)@.has(port),
            final(self)@.next == old(self)@.next,
            forall|q: u8| q != port ==> #[trigger] final(self)@.has(q) == old(self)@.has(q),
            forall|q: u8|
                q != port && old(self)@.has(q) ==> #[trigger] final(self)@.device(q)
                    == old(self)@.device(q),
    {
        match self.find(port) {
            None => Err(Error::DeviceNotPresent),
            Some(i) => {
                self.ports[i].device.on_remove(core);
                let entry = self.ports.remove(i);
                proof {
                    assert(self@.slots =~= old(self)@.removed(port).slots);
                    assert(self@ == old(self)@.removed(port));
                    lemma_removed(old(self)@, port, port);
                    assert forall|q: u8| q != port implies #[trigger] self@.has(q)
                        == old(self)@.has(q) by {
                        lemma_removed(old(self)@, port, q);
                    }
                    assert forall|q: u8| q != port && old(self)@.has(q) implies
                        #[trigger] self@.device(q) == old(self)@.device(q) by {
                        lemma_removed(old(self)@, port, q);
                    }
                }
                Ok(entry.device)
            },
        }
    }

    /// Asks the device at `port` for one byte.
    ///
    /// Fails with `DeviceNotPresent`, and changes nothing, exactly when no
    /// device is registered at `port`. Otherwise the device's `receive` hook
    /// runs once; no other device and no registration changes.
    pub fn receive(&mut self, port: u8, core: &Snapshot) -> (r: Result<u8, Error>)
        requires
            old(self)@.wf(),
        ensures
            final(self)@.wf(),
            old(self)@.has(port) ==> r is Ok && D::receives(
                old(self)@.device(port),
                core@,
                final(self)@.device(port),
                r->Ok_0,
            ) && final(self)@ == old(self)@.with_device(port, final(self)@.device(port)),
            !old(self)@.has(port) ==> r == Err::<u8, Error>(Error::DeviceNotPresent)
                && final(self)@ == old(self)@,
            forall|q: u8| #[trigger] final(self)@.has(q) == old(self)@.has(q),
            forall|q: u8|
                q != port && old(self)@.has(q) ==> #[trigger] final(self)@.device(q)
                    == old(self)@.device(q),
    {
        match self.find(port) {
            None => Err(Error::DeviceNotPresent),
            Some(i) => {
                let byte = self.ports[i].device.receive(core);
                proof {
                    assert(self@.slots[i as int].id == port);
                    assert(self@.slots =~= old(self)@.slots.update(
                        i as int,
                        self@.slots[i as int],
                    ));
                    self@.lemma_position(port, i as int);
                    assert forall|q: u8| #[trigger] self@.has(q) == old(self)@.has(q) by {
                        lemma_with_device(old(self)@, port, self@.device(port), q);
                    }
                    assert forall|q: u8| q != port && old(self)@.has(q) implies
                        #[trigger] self@.device(q) == old(self)@.device(q) by {
                        lemma_with_device(old(self)@, port, self@.device(port), q);
                    }
                }
                Ok(byte)
            },
        }
    }

    /// Hands `byte` to the device at `port`.
    ///
    /// Fails with `DeviceNotPresent`, and changes nothing, exactly when no
    /// device is registered at `port`. Otherwise the device's `send` hook
    /// runs once, with `byte`; no other device and no registration changes.
    pub fn send(&mut self, port: u8, core: &Snapshot, byte: u8) -> (r: Result<(), Error>)
        requires
            old(self)@.wf(),
        ensures
            final(self)@.wf(),
            old(self)@.has(port) ==> r == Ok::<(), Error>(()) && D::sends(
                old(self)@.device(port),
                core@,
                byte,
                final(self)@.device(port),
            ) && final(self)@ == old(self)@.with_device(port, final(self)@.device(port)),
            !old(self)@.has(port) ==> r == Err::<(), Error>(Error::DeviceNotPresent)
                && final(self)@ == old(self)@,
            forall|q: u8| #[trigger] final(self)@.has(q) == old(self)@.has(q),
            forall|q: u8|
                q != port && old(self)@.has(q) ==> #[trigger] final(self)@.device(q)
                    == old(self)@.device(q),
    {
        match self.find(port) {
            None => Err(Error::DeviceNotPresent),
            Some(i) => {
                self.ports[i].device.send(core, byte);
                proof {
                    assert(self@.slots[i as int].id == port);
                    assert(self@.slots =~= old(self)@.slots.update(
                        i as int,
                        self@.slots[i as int],
                    ));
                    self@.lemma_position(port, i as int);
                    assert forall|q: u8| #[trigger] self@.has(q) == old(self)@.has(q) by {
                        lemma_with_device(old(self)@, port, self@.device(port), q);
                    }
                    assert forall|q: u8| q != port && old(self)@.has(q) implies
                        #[trigger] self@.device(q) == old(self)@.device(q) by {
                        lemma_with_device(old(self)@, port, self@.device(port), q);
                    }
                }
                Ok(())
            },
        }
    }
}

} // verus!
