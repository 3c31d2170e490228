//! The 4-bit bidirectional data bus and its arbitration.
//!
//! The bus carries addresses (three nibbles), instructions (two nibbles)
//! and data. Every device that may drive it registers a driver; after
//! each change the four lines show what the active drivers resolve to.

use vstd::prelude::*;
use crate::nibble;
use crate::sim::signal::{
    drive_lines,
    line_states,
    lines_driven,
    lines_nibble,
    lines_ordered_until,
    lines_set,
    lines_wf,
    lemma_lines_driven,
    lemma_lines_set,
    read_lines,
    set_lines,
    Signal,
    SignalLevel,
    SignalState,
};
use crate::sim::timing::Time;

verus! {

/// A device that can drive the bus.
#[derive(Debug)]
pub struct BusDriver {
    /// Name of the device.
    pub name: String,
    /// Whether the device is driving.
    pub active: bool,
    /// The nibble it drives when active.
    pub value: u8,
}

impl Clone for BusDriver {
    fn clone(&self) -> (copy: BusDriver)
        ensures
            copy == *self,
    {
        BusDriver { name: self.name.clone(), active: self.active, value: self.value }
    }
}

/// What a set of drivers puts on the bus.
pub enum Resolution {
    /// No driver is active.
    Floating,
    /// Two active drivers disagree.
    Contention,
    /// All active drivers drive this nibble.
    Value(u8),
}

/// Whether any of the drivers is active.
pub open spec fn any_active(drivers: Seq<BusDriver>) -> bool {
    exists|i: int| 0 <= i < drivers.len() && (#[trigger] drivers[i]).active
}

/// Whether every active driver drives `value`.
pub open spec fn all_drive(drivers: Seq<BusDriver>, value: u8) -> bool {
    forall|i: int| 0 <= i < drivers.len() && (#[trigger] drivers[i]).active ==> drivers[i].value == value
}

/// Bus resolution: floating without an active driver, contention where two
/// active drivers differ, else the value that all active drivers share.
pub open spec fn resolved(drivers: Seq<BusDriver>) -> Resolution {
    if !any_active(drivers) {
        Resolution::Floating
    } else {
        let k = choose|i: int| 0 <= i < drivers.len() && (#[trigger] drivers[i]).active;
        if all_drive(drivers, drivers[k].value) {
            Resolution::Value(drivers[k].value)
        } else {
            Resolution::Contention
        }
    }
}

/// Any active driver decides the resolution: either all active drivers
/// share its value, or there is contention.
pub proof fn lemma_resolved_by(drivers: Seq<BusDriver>, k: int)
    requires
        0 <= k < drivers.len(),
        drivers[k].active,
    ensures
        resolved(drivers) == (if all_drive(drivers, drivers[k].value) {
            Resolution::Value(drivers[k].value)
        } else {
            Resolution::Contention
        }),
{
    let c = choose|i: int| 0 <= i < drivers.len() && (#[trigger] drivers[i]).active;
    assert(drivers[c].active);
    if all_drive(drivers, drivers[c].value) {
        assert(drivers[k].value == drivers[c].value);
    } else if all_drive(drivers, drivers[k].value) {
        assert(drivers[c].value == drivers[k].value);
    }
}

/// What a data bus is: four lines and the registered drivers.
pub struct BusState {
    /// Lines D0 to D3.
    pub lines: Seq<SignalState>,
    /// Drivers in order of registration.
    pub drivers: Seq<BusDriver>,
}

impl BusState {
    /// Whether all four lines have level `level`.
    pub open spec fn all_lines(self, level: SignalLevel) -> bool {
        forall|i: int| 0 <= i < 4 ==> (#[trigger] self.lines[i]).current == level
    }

    /// Whether all four lines are `Low` or `High`.
    pub open spec fn valid(self) -> bool {
        forall|i: int| 0 <= i < 4 ==> (#[trigger] self.lines[i]).current.defined()
    }

    /// Whether a line is `X`.
    pub open spec fn contended(self) -> bool {
        exists|i: int| 0 <= i < 4 && (#[trigger] self.lines[i]).current == SignalLevel::X
    }

    /// The nibble on the lines.
    pub open spec fn nibble(self) -> int {
        lines_nibble(self.lines)
    }

    /// Whether the lines show what the drivers resolve to: all `Z` when
    /// floating, all `X` under contention, else the resolved nibble.
    pub open spec fn shows_resolution(self) -> bool {
        match resolved(self.drivers) {
            Resolution::Floating => self.all_lines(SignalLevel::Z),
            Resolution::Contention => self.all_lines(SignalLevel::X),
            Resolution::Value(v) => self.valid() && self.nibble() == v,
        }
    }

    /// Four bounded lines that show what the drivers resolve to, and
    /// drivers that hold nibbles.
    pub open spec fn wf(self) -> bool {
        &&& lines_wf(self.lines)
        &&& forall|i: int| 0 <= i < self.drivers.len() ==> (#[trigger] self.drivers[i]).value < 16
        &&& self.shows_resolution()
    }

    /// Whether every line has an ordered history that ends at or before
    /// `time`.
    pub open spec fn ordered_until(self, time: Time) -> bool {
        lines_ordered_until(self.lines, time)
    }

    /// The bus with the lines brought to what the drivers resolve to.
    pub open spec fn settled(self, time: Time) -> BusState {
        BusState {
            lines: match resolved(self.drivers) {
                Resolution::Floating => lines_set(self.lines, time, SignalLevel::Z),
                Resolution::Contention => lines_set(self.lines, time, SignalLevel::X),
                Resolution::Value(v) => lines_driven(self.lines, time, v as int),
            },
            ..self
        }
    }

    /// The drivers after driver `id` was switched: a registered driver
    /// becomes active with the low nibble of `value`; an unknown `id`
    /// changes nothing.
    pub open spec fn drivers_with(self, id: int, value: u8) -> Seq<BusDriver> {
        if 0 <= id < self.drivers.len() {
            self.drivers.update(
                id,
                BusDriver { name: self.drivers[id].name, active: true, value: value % 16 },
            )
        } else {
            self.drivers
        }
    }

    /// The drivers after driver `id` was released: it keeps its value
    /// and becomes inactive; an unknown `id` changes nothing.
    pub open spec fn drivers_without(self, id: int) -> Seq<BusDriver> {
        if 0 <= id < self.drivers.len() {
            self.drivers.update(
                id,
                BusDriver {
                    name: self.drivers[id].name,
                    active: false,
                    value: self.drivers[id].value,
                },
            )
        } else {
            self.drivers
        }
    }

    /// The bus after driver `id` drove `value` at `time`.
    pub open spec fn driven(self, id: int, value: u8, time: Time) -> BusState {
        (BusState { drivers: self.drivers_with(id, value), ..self }).settled(time)
    }

    /// The bus after driver `id` let go at `time`.
    pub open spec fn released(self, id: int, time: Time) -> BusState {
        (BusState { drivers: self.drivers_without(id), ..self }).settled(time)
    }

    /// Whether driver `id` is the only active one.
    pub open spec fn driven_only_by(self, id: int) -> bool {
        &&& 0 <= id < self.drivers.len()
        &&& forall|i: int| 0 <= i < self.drivers.len() ==> ((#[trigger] self.drivers[i]).active <==> i == id)
    }

    /// Whether no driver is active.
    pub open spec fn idle(self) -> bool {
        !any_active(self.drivers)
    }

    /// A bus without drivers whose lines D0 to D3 float and have no
    /// history.
    pub open spec fn initial() -> BusState {
        BusState {
            lines: seq![
                SignalState::fresh("D0"@, SignalLevel::Z, 10_000),
                SignalState::fresh("D1"@, SignalLevel::Z, 10_000),
                SignalState::fresh("D2"@, SignalLevel::Z, 10_000),
                SignalState::fresh("D3"@, SignalLevel::Z, 10_000),
            ],
            drivers: Seq::empty(),
        }
    }
}

/// A settled bus shows its resolution and stays well formed.
pub proof fn lemma_settled(bus: BusState, time: Time)
    requires
        lines_wf(bus.lines),
        forall|i: int| 0 <= i < bus.drivers.len() ==> (#[trigger] bus.drivers[i]).value < 16,
    ensures
        bus.settled(time).wf(),
        bus.settled(time).drivers == bus.drivers,
        bus.ordered_until(time) ==> bus.settled(time).ordered_until(time),
{
    match resolved(bus.drivers) {
        Resolution::Floating => {
            lemma_lines_set(bus.lines, time, SignalLevel::Z);
        },
        Resolution::Contention => {
            lemma_lines_set(bus.lines, time, SignalLevel::X);
        },
        Resolution::Value(v) => {
            let k = choose|i: int| 0 <= i < bus.drivers.len() && (#[trigger] bus.drivers[i]).active;
            assert(bus.drivers[k].active);
            assert(v == bus.drivers[k].value);
            lemma_lines_driven(bus.lines, time, v as int);
        },
    }
}

/// The bus is always in one of three conditions: all lines `Z`, all
/// lines defined, or all lines `X`.
pub proof fn lemma_three_conditions(bus: BusState)
    requires
        bus.wf(),
    ensures
        bus.all_lines(SignalLevel::Z) || bus.valid() || bus.all_lines(SignalLevel::X),
        bus.valid() ==> exists|v: u8| resolved(bus.drivers) == Resolution::Value(v) && bus.nibble() == v,
        bus.contended() <==> resolved(bus.drivers) == Resolution::Contention,
{
    match resolved(bus.drivers) {
        Resolution::Floating => {
            assert(bus.lines[0].current == SignalLevel::Z);
            assert(!bus.contended());
        },
        Resolution::Contention => {
            assert(bus.lines[0].current == SignalLevel::X);
        },
        Resolution::Value(v) => {
            assert(!bus.contended());
        },
    }
}

/// A sole active driver's nibble is what the bus carries.
pub proof fn lemma_sole_driver(bus: BusState, id: int)
    requires
        bus.wf(),
        bus.driven_only_by(id),
    ensures
        resolved(bus.drivers) == Resolution::Value(bus.drivers[id].value),
        bus.valid(),
        bus.nibble() == bus.drivers[id].value,
{
    assert(bus.drivers[id].active);
    lemma_resolved_by(bus.drivers, id);
}

/// Two active drivers with different nibbles put the bus in contention:
/// every line is `X`, and the bus reads as 0.
pub proof fn lemma_disagreement_is_contention(bus: BusState, a: int, b: int)
    requires
        bus.wf(),
        0 <= a < bus.drivers.len(),
        0 <= b < bus.drivers.len(),
        bus.drivers[a].active,
        bus.drivers[b].active,
        bus.drivers[a].value != bus.drivers[b].value,
    ensures
        resolved(bus.drivers) == Resolution::Contention,
        bus.contended(),
        !bus.valid(),
        bus.nibble() == 0,
{
    lemma_resolved_by(bus.drivers, a);
    assert(bus.lines[0].current == SignalLevel::X);
}

/// 4-bit bidirectional data bus.
#[derive(Debug)]
pub struct DataBus {
    /// Lines D0 to D3.
    pub lines: [Signal; 4],
    /// Registered drivers.
    drivers: Vec<BusDriver>,
}

impl View for DataBus {
    type V = BusState;

    closed spec fn view(&self) -> BusState {
        BusState { lines: line_states(self.lines), drivers: self.drivers@ }
    }
}

impl DataBus {
    /// A bus without drivers; its lines D0 to D3 float.
    pub fn new() -> (bus: DataBus)
        ensures
            bus@ == BusState::initial(),
            bus@.wf(),
            bus@.idle(),
            bus@.all_lines(SignalLevel::Z),
            bus@.ordered_until(0),
    {
        let bus = DataBus {
            lines: [
                Signal::new("D0", SignalLevel::Z),
                Signal::new("D1", SignalLevel::Z),
                Signal::new("D2", SignalLevel::Z),
                Signal::new("D3", SignalLevel::Z),
            ],
            drivers: Vec::new(),
        };
        assert(bus@.lines =~= BusState::initial().lines);
        assert(bus@.drivers =~= BusState::initial().drivers);
        bus
    }

    /// Registers a driver, inactive at first, and returns its id: the
    /// number of drivers registered before it.
    pub fn add_driver(&mut self, name: &str) -> (id: usize)
        requires
            old(self)@.wf(),
        ensures
            id == old(self)@.drivers.len(),
            final(self)@.lines == old(self)@.lines,
            final(self)@.drivers == old(self)@.drivers.push(
                BusDriver { name: final(self)@.drivers[id as int].name, active: false, value: 0 },
            ),
            final(self)@.drivers[id as int].name@ == name@,
            final(self)@.wf(),
    {
        let id: usize = self.drivers.len();
        let ghost before = self.drivers@;
        self.drivers.push(BusDriver { name: name.to_owned(), active: false, value: 0 });
        proof {
            let after = self.drivers@;
            if any_active(after) {
                let k = choose|i: int| 0 <= i < after.len() && (#[trigger] after[i]).active;
                assert(before[k].active);
                lemma_resolved_by(before, k);
                lemma_resolved_by(after, k);
                if all_drive(before, before[k].value) {
                    assert forall|i: int| 0 <= i < after.len() && (#[trigger] after[i]).active implies after[i].value
                        == after[k].value by {
                        assert(before[i].active);
                    }
                } else {
                    let j = choose|j: int|
                        0 <= j < before.len() && (#[trigger] before[j]).active && before[j].value
                            != before[k].value;
                    assert(after[j].active);
                }
            } else {
                assert forall|i: int| 0 <= i < before.len() implies !(#[trigger] before[i]).active by {
                    assert(after[i] == before[i]);
                }
            }
        }
        id
    }

    /// Driver `driver_id` starts to drive the low nibble of `value`; the
    /// lines then show what all active drivers resolve to. An unknown id
    /// switches no driver.
    pub fn drive(&mut self, driver_id: usize, value: u8, time: Time)
        requires
            old(self)@.wf(),
        ensures
            final(self)@ == old(self)@.driven(driver_id as int, value, time),
            final(self)@.wf(),
            old(self)@.ordered_until(time) ==> final(self)@.ordered_until(time),
    {
        if driver_id < self.drivers.len() {
            let name: String = self.drivers[driver_id].name.clone();
            self.drivers.set(driver_id, BusDriver { name, active: true, value: nibble::low(value) });
        }
        assert(self.drivers@ =~= old(self)@.drivers_with(driver_id as int, value));
        self.resolve(time);
    }

    /// Driver `driver_id` stops driving; the lines then show what the
    /// remaining active drivers resolve to.
    pub fn release(&mut self, driver_id: usize, time: Time)
        requires
            old(self)@.wf(),
        ensures
            final(self)@ == old(self)@.released(driver_id as int, time),
            final(self)@.wf(),
            old(self)@.ordered_until(time) ==> final(self)@.ordered_until(time),
    {
        if driver_id < self.drivers.len() {
            let name: String = self.drivers[driver_id].name.clone();
            let value: u8 = self.drivers[driver_id].value;
            self.drivers.set(driver_id, BusDriver { name, active: false, value });
        }
        assert(self.drivers@ =~= old(self)@.drivers_without(driver_id as int));
        self.resolve(time);
    }

    /// Brings the lines to what the active drivers resolve to: `Z`
    /// without an active driver, `X` where two disagree, else their
    /// common nibble.
    fn resolve(&mut self, time: Time)
        requires
            lines_wf(old(self)@.lines),
            forall|i: int| 0 <= i < old(self)@.drivers.len() ==> (#[trigger] old(self)@.drivers[i]).value < 16,
        ensures
            final(self)@ == old(self)@.settled(time),
            final(self)@.wf(),
            old(self)@.ordered_until(time) ==> final(self)@.ordered_until(time),
    {
        proof {
            lemma_settled(self@, time);
        }
        let mut first: Option<u8> = None;
        let mut contention: bool = false;
        let ghost mut first_at: int = 0;
        let mut i: usize = 0;
        while i < self.drivers.len()
            invariant
                i <= self.drivers@.len(),
                *self == *old(self),
                first is None ==> forall|j: int| 0 <= j < i ==> !(#[trigger] self.drivers@[j]).active,
                first is None ==> !contention,
                first is Some ==> 0 <= first_at < i && self.drivers@[first_at].active
                    && self.drivers@[first_at].value == first->0,
                first is Some ==> (contention <==> exists|j: int|
                    0 <= j < i && (#[trigger] self.drivers@[j]).active && self.drivers@[j].value
                        != first->0),
            decreases self.drivers@.len() - i,
        {
            if self.drivers[i].active {
                match first {
                    None => {
                        first = Some(self.drivers[i].value);
                        proof {
                            first_at = i as int;
                        }
                    },
                    Some(v) => {
                        if self.drivers[i].value != v {
                            contention = true;
                        }
                    },
                }
            }
            i += 1;
        }
        match first {
            None => {
                assert(!any_active(self.drivers@));
                set_lines(&mut self.lines, time, SignalLevel::Z);
            },
            Some(v) => {
                proof {
                    lemma_resolved_by(self.drivers@, first_at);
                    if contention {
                        let j = choose|j: int|
                            0 <= j < i && (#[trigger] self.drivers@[j]).active && self.drivers@[j].value
                                != v;
                        assert(self.drivers@[j].active && self.drivers@[j].value != v);
                    }
                }
                if contention {
                    set_lines(&mut self.lines, time, SignalLevel::X);
                } else {
                    assert(v % 16 == v);
                    drive_lines(&mut self.lines, time, v);
                }
            },
        }
    }

    /// The nibble on the bus: bit `i` is set where line `i` is `High`.
    pub fn read(&self) -> (value: u8)
        ensures
            value == self@.nibble(),
            value < 16,
    {
        read_lines(&self.lines)
    }

    /// Whether every line is `Low` or `High`.
    pub fn is_valid(&self) -> (valid: bool)
        ensures
            valid == self@.valid(),
    {
        let valid: bool = self.lines[0].level().is_defined() && self.lines[1].level().is_defined()
            && self.lines[2].level().is_defined() && self.lines[3].level().is_defined();
        proof {
            if !valid {
                if !self@.lines[0].current.defined() {
                } else if !self@.lines[1].current.defined() {
                } else if !self@.lines[2].current.defined() {
                } else {
                    assert(!self@.lines[3].current.defined());
                }
            }
        }
        valid
    }

    /// Whether a line is `X`.
    pub fn has_contention(&self) -> (contended: bool)
        ensures
            contended == self@.contended(),
    {
        let l0: SignalLevel = self.lines[0].level();
        let l1: SignalLevel = self.lines[1].level();
        let l2: SignalLevel = self.lines[2].level();
        let l3: SignalLevel = self.lines[3].level();
        let contended: bool = l0 == SignalLevel::X || l1 == SignalLevel::X || l2 == SignalLevel::X
            || l3 == SignalLevel::X;
        proof {
            if l0 == SignalLevel::X {
                assert(self@.lines[0].current == SignalLevel::X);
            } else if l1 == SignalLevel::X {
                assert(self@.lines[1].current == SignalLevel::X);
            } else if l2 == SignalLevel::X {
                assert(self@.lines[2].current == SignalLevel::X);
            } else if l3 == SignalLevel::X {
                assert(self@.lines[3].current == SignalLevel::X);
            }
        }
        contended
    }

    /// Line `index`, for `index` below 4.
    pub fn line(&self, index: usize) -> (line: Option<&Signal>)
        ensures
            index < 4 ==> line is Some && line->0@ == self@.lines[index as int],
            index >= 4 ==> line is None,
    {
        if index < 4 {
            Some(&self.lines[index])
        } else {
            None
        }
    }

    /// The ids of the drivers that are active, in ascending order: under
    /// contention, the devices that fight for the bus.
    pub fn active_drivers(&self) -> (ids: Vec<usize>)
        ensures
            forall|k: int| 0 <= k < ids@.len() ==> (#[trigger] ids@[k]) < self@.drivers.len() && self@.drivers[ids@[k] as int].active,
            forall|k: int, l: int| 0 <= k < l < ids@.len() ==> ids@[k] < ids@[l],
            forall|id: int|
                0 <= id < self@.drivers.len() && (#[trigger] self@.drivers[id]).active ==> ids@.contains(
                    id as usize,
                ),
    {
        let mut ids: Vec<usize> = Vec::new();
        let mut i: usize = 0;
        while i < self.drivers.len()
            invariant
                i <= self.drivers@.len(),
                forall|k: int| 0 <= k < ids@.len() ==> (#[trigger] ids@[k]) < i && self.drivers@[ids@[k] as int].active,
                forall|k: int, l: int| 0 <= k < l < ids@.len() ==> ids@[k] < ids@[l],
                forall|id: int| 0 <= id < i && (#[trigger] self.drivers@[id]).active ==> ids@.contains(id as usize),
            decreases self.drivers@.len() - i,
        {
            if self.drivers[i].active {
                let ghost before = ids@;
                ids.push(i);
                proof {
                    assert(ids@[ids@.len() - 1] == i);
                    assert forall|id: int| 0 <= id < i + 1 && (#[trigger] self.drivers@[id]).active implies ids@.contains(
                        id as usize,
                    ) by {
                        if id < i {
                            let k = choose|k: int| 0 <= k < before.len() && before[k] == id as usize;
                            assert(ids@[k] == id as usize);
                        }
                    }
                }
            }
            i += 1;
        }
        ids
    }

    /// The name of driver `id`, if it is registered.
    pub fn driver_name(&self, id: usize) -> (name: Option<&str>)
        ensures
            id < self@.drivers.len() ==> name is Some && name->0@ == self@.drivers[id as int].name@,
            id >= self@.drivers.len() ==> name is None,
    {
        if id < self.drivers.len() {
            Some(self.drivers[id].name.as_str())
        } else {
            None
        }
    }

    /// The number of registered drivers.
    pub fn driver_count(&self) -> (count: usize)
        ensures
            count == self@.drivers.len(),
    {
        self.drivers.len()
    }
}

impl Clone for DataBus {
    fn clone(&self) -> (copy: DataBus)
        ensures
            copy@ == self@,
    {
        let mut drivers: Vec<BusDriver> = Vec::new();
        let mut i: usize = 0;
        while i < self.drivers.len()
            invariant
                i <= self.drivers@.len(),
                drivers@ == self.drivers@.subrange(0, i as int),
            decreases self.drivers@.len() - i,
        {
            drivers.push(
                BusDriver {
                    name: self.drivers[i].name.clone(),
                    active: self.drivers[i].active,
                    value: self.drivers[i].value,
                },
            );
            i += 1;
            assert(drivers@ =~= self.drivers@.subrange(0, i as int));
        }
        assert(drivers@ =~= self.drivers@);
        let copy = DataBus {
            lines: [
                self.lines[0].clone(),
                self.lines[1].clone(),
                self.lines[2].clone(),
                self.lines[3].clone(),
            ],
            drivers,
        };
        assert(copy@.lines =~= self@.lines);
        copy
    }
}

impl Default for DataBus {
    fn default() -> (bus: DataBus)
        ensures
            bus@ == BusState::initial(),
            bus@.wf(),
    {
        DataBus::new()
    }
}

/// A 12-bit address, sent over the bus as three nibbles.
#[derive(Clone, Copy, Debug)]
pub struct Address12 {
    pub value: u16,
}

impl Address12 {
    /// The address `value` modulo 4096.
    pub fn new(value: u16) -> (addr: Address12)
        ensures
            addr.value == value % 4096,
    {
        Address12 { value: value % 4096 }
    }

    /// The address whose bits 0 to 3 are `a1`, bits 4 to 7 `a2` and bits
    /// 8 to 11 `a3`. Bits of an argument above its fourth are not
    /// dropped: they are or-ed into the higher positions.
    pub fn from_nibbles(a1: u8, a2: u8, a3: u8) -> (addr: Address12)
        ensures
            addr.value == (a1 as u16) | ((a2 as u16) << 4) | ((a3 as u16) << 8),
            a1 < 16 && a2 < 16 && a3 < 16 ==> addr.value == a1 + 16 * a2 + 256 * a3,
    {
        let value: u16 = (a1 as u16) | ((a2 as u16) << 4) | ((a3 as u16) << 8);
        assert(a1 < 16 && a2 < 16 && a3 < 16 ==> ((a1 as u16) | ((a2 as u16) << 4) | ((a3 as u16)
            << 8)) == a1 + 16 * a2 + 256 * a3) by (bit_vector);
        Address12 { value }
    }

    /// The ROM page: bits 8 to 11.
    pub fn page(&self) -> (page: u8)
        ensures
            page == (self.value / 256) % 16,
    {
        ((self.value / 256) % 16) as u8
    }

    /// The offset within the page: bits 0 to 7.
    pub fn offset(&self) -> (offset: u8)
        ensures
            offset == self.value % 256,
    {
        (self.value % 256) as u8
    }

    /// The nibble sent at A1: bits 0 to 3.
    pub fn nibble_a1(&self) -> (n: u8)
        ensures
            n == self.value % 16,
    {
        (self.value % 16) as u8
    }

    /// The nibble sent at A2: bits 4 to 7.
    pub fn nibble_a2(&self) -> (n: u8)
        ensures
            n == (self.value / 16) % 16,
    {
        ((self.value / 16) % 16) as u8
    }

    /// The nibble sent at A3: bits 8 to 11.
    pub fn nibble_a3(&self) -> (n: u8)
        ensures
            n == (self.value / 256) % 16,
    {
        ((self.value / 256) % 16) as u8
    }
}

impl Default for Address12 {
    fn default() -> (addr: Address12)
        ensures
            addr.value == 0,
    {
        Address12 { value: 0 }
    }
}

/// The three nibbles of a 12-bit address put it together again.
pub proof fn lemma_address_nibbles(value: u16)
    requires
        value < 4096,
    ensures
        value % 16 + 16 * ((value / 16) % 16) + 256 * ((value / 256) % 16) == value,
{
}

/// A byte, sent over the bus as two nibbles.
#[derive(Clone, Copy, Debug)]
pub struct Byte8 {
    pub value: u8,
}

impl Byte8 {
    pub fn new(value: u8) -> (byte: Byte8)
        ensures
            byte.value == value,
    {
        Byte8 { value }
    }

    /// The byte whose low nibble is that of `m1` and whose high nibble
    /// is the low nibble of `m2`.
    pub fn from_nibbles(m1: u8, m2: u8) -> (byte: Byte8)
        ensures
            byte.value == (m2 % 16) * 16 + m1 % 16,
    {
        Byte8 { value: nibble::join(m2, m1) }
    }

    /// OPR: the upper nibble.
    pub fn opr(&self) -> (n: u8)
        ensures
            n == self.value / 16,
    {
        self.value / 16
    }

    /// OPA: the lower nibble.
    pub fn opa(&self) -> (n: u8)
        ensures
            n == self.value % 16,
    {
        self.value % 16
    }

    /// The nibble sent at M1: bits 0 to 3.
    pub fn nibble_m1(&self) -> (n: u8)
        ensures
            n == self.value % 16,
    {
        self.value % 16
    }

    /// The nibble sent at M2: bits 4 to 7.
    pub fn nibble_m2(&self) -> (n: u8)
        ensures
            n == self.value / 16,
    {
        self.value / 16
    }
}

impl Default for Byte8 {
    fn default() -> (byte: Byte8)
        ensures
            byte.value == 0,
    {
        Byte8 { value: 0 }
    }
}

} // verus!
