//! The role-capability registry: which pin, in which alternate-function mode,
//! can fill which role for which peripheral instance, on the selected chip
//! variant.

use vstd::prelude::*;

use crate::pin::{AltPin, Pin, Port, Role};
use crate::variant::{ChipVariant, Peripheral, VariantGroup};

verus! {

/// "This pin, in this alternate-function mode, can fill this role for this
/// peripheral instance."
#[derive(Clone, Copy, Debug, PartialEq, Eq, Structural)]
pub struct CapabilityFact {
    pub pin: AltPin,
    pub peripheral: Peripheral,
    pub role: Role,
}

/// The datasheet table of the whole family: for a (peripheral, role, pin)
/// slot, the alternate function that routes the signal to the pin and the
/// variants on which that routing exists.
pub open spec fn table_entry(per: Peripheral, role: Role, port: Port, number: u8) -> Option<
    (u8, VariantGroup),
> {
    match (per, role, port, number) {
            (Peripheral::Spi2, Role::MasterClock, Port::C, 6) => Some((5, VariantGroup::All)),
            (Peripheral::Spi2, Role::MasterClock, Port::A, 3) => Some((5, VariantGroup::F411Line)),
            (Peripheral::Spi2, Role::MasterClock, Port::A, 6) => Some((6, VariantGroup::F411Line)),
            (Peripheral::Spi3, Role::MasterClock, Port::B, 10) => Some((6, VariantGroup::F411Line)),
            (Peripheral::Spi1, Role::MasterClock, Port::C, 4) => Some((5, VariantGroup::F412Line)),
            (Peripheral::Spi3, Role::MasterClock, Port::C, 7) => Some((6, VariantGroup::AllButF410)),
            (Peripheral::Spi1, Role::MasterClock, Port::C, 7) => Some((6, VariantGroup::F410Only)),
            (Peripheral::Spi1, Role::MasterClock, Port::B, 10) => Some((6, VariantGroup::F410Only)),

            (Peripheral::Spi2, Role::WordSelect, Port::B, 9) => Some((5, VariantGroup::All)),
            (Peripheral::Spi2, Role::WordSelect, Port::B, 12) => Some((5, VariantGroup::All)),
            (Peripheral::Spi3, Role::WordSelect, Port::A, 4) => Some((6, VariantGroup::AllButF410)),
            (Peripheral::Spi3, Role::WordSelect, Port::A, 15) => Some((6, VariantGroup::AllButF410)),
            (Peripheral::Spi1, Role::WordSelect, Port::A, 4) => Some((5, VariantGroup::F410LineAndF446)),
            (Peripheral::Spi1, Role::WordSelect, Port::A, 15) => Some((5, VariantGroup::F410LineAndF446)),
            (Peripheral::Spi4, Role::WordSelect, Port::B, 12) => Some((6, VariantGroup::F411Line)),
            (Peripheral::Spi4, Role::WordSelect, Port::E, 4) => Some((5, VariantGroup::F411Line)),
            (Peripheral::Spi4, Role::WordSelect, Port::E, 11) => Some((5, VariantGroup::F411Line)),
            (Peripheral::Spi5, Role::WordSelect, Port::E, 4) => Some((6, VariantGroup::F411Line)),
            (Peripheral::Spi5, Role::WordSelect, Port::E, 11) => Some((6, VariantGroup::F411Line)),
            (Peripheral::Spi2, Role::WordSelect, Port::A, 11) => Some((5, VariantGroup::F413Line)),
            (Peripheral::Spi5, Role::WordSelect, Port::B, 1) => Some((6, VariantGroup::F410Line)),
            (Peripheral::Spi2, Role::WordSelect, Port::B, 4) => Some((7, VariantGroup::F446Only)),
            (Peripheral::Spi2, Role::WordSelect, Port::D, 1) => Some((7, VariantGroup::F446Only)),
            (Peripheral::Spi2, Role::WordSelect, Port::I, 0) => Some((5, VariantGroup::PortI)),

            (Peripheral::Spi1, Role::BitClock, Port::A, 5) => Some((5, VariantGroup::All)),
            (Peripheral::Spi1, Role::BitClock, Port::B, 3) => Some((5, VariantGroup::All)),
            (Peripheral::Spi2, Role::BitClock, Port::B, 10) => Some((5, VariantGroup::All)),
            (Peripheral::Spi2, Role::BitClock, Port::B, 13) => Some((5, VariantGroup::All)),
            (Peripheral::Spi2, Role::BitClock, Port::I, 1) => Some((5, VariantGroup::PortI)),
            (Peripheral::Spi3, Role::BitClock, Port::B, 3) => Some((6, VariantGroup::All)),
            (Peripheral::Spi3, Role::BitClock, Port::C, 10) => Some((6, VariantGroup::All)),
            (Peripheral::Spi4, Role::BitClock, Port::E, 2) => Some((5, VariantGroup::All)),
            (Peripheral::Spi4, Role::BitClock, Port::E, 12) => Some((5, VariantGroup::All)),
            (Peripheral::Spi5, Role::BitClock, Port::B, 0) => Some((6, VariantGroup::All)),
            (Peripheral::Spi5, Role::BitClock, Port::E, 2) => Some((6, VariantGroup::F411Line)),
            (Peripheral::Spi5, Role::BitClock, Port::E, 12) => Some((6, VariantGroup::F411Line)),

            (Peripheral::Spi1, Role::DataLine, Port::A, 7) => Some((5, VariantGroup::All)),
            (Peripheral::Spi1, Role::DataLine, Port::B, 5) => Some((5, VariantGroup::All)),
            (Peripheral::Spi2, Role::DataLine, Port::B, 15) => Some((5, VariantGroup::All)),
            (Peripheral::Spi2, Role::DataLine, Port::C, 3) => Some((5, VariantGroup::All)),
            (Peripheral::Spi2, Role::DataLine, Port::I, 3) => Some((5, VariantGroup::PortI)),
            (Peripheral::Spi3, Role::DataLine, Port::B, 5) => Some((6, VariantGroup::All)),
            (Peripheral::Spi3, Role::DataLine, Port::C, 12) => Some((6, VariantGroup::All)),
            (Peripheral::Spi4, Role::DataLine, Port::E, 6) => Some((5, VariantGroup::All)),
            (Peripheral::Spi4, Role::DataLine, Port::E, 14) => Some((5, VariantGroup::All)),
            (Peripheral::Spi5, Role::DataLine, Port::A, 10) => Some((6, VariantGroup::All)),
            (Peripheral::Spi5, Role::DataLine, Port::B, 8) => Some((6, VariantGroup::All)),
            (Peripheral::Spi5, Role::DataLine, Port::E, 6) => Some((6, VariantGroup::F411Line)),
            (Peripheral::Spi5, Role::DataLine, Port::E, 14) => Some((6, VariantGroup::F411Line)),
        _ => None,
    }
}

/// Whether `f` holds on variant `v`: its peripheral exists there, the table
/// has its slot for `v`, with the fact's alternate function.
pub open spec fn fact_holds(v: ChipVariant, f: CapabilityFact) -> bool {
    &&& f.peripheral.spec_declared_on(v)
    &&& match table_entry(f.peripheral, f.role, f.pin.pin.port, f.pin.pin.number) {
        Some((af, g)) => af == f.pin.af && g.spec_contains(v),
        None => false,
    }
}

/// Every capability fact of variant `v`.
pub open spec fn facts_of(v: ChipVariant) -> Set<CapabilityFact> {
    Set::new(|f: CapabilityFact| fact_holds(v, f))
}

/// The alternate function through which `pin` fills `role` for `per` on
/// variant `v`, if it can.
pub open spec fn af_of(v: ChipVariant, per: Peripheral, role: Role, pin: Pin) -> Option<u8> {
    if per.spec_declared_on(v) {
        match table_entry(per, role, pin.port, pin.number) {
            Some((af, g)) => if g.spec_contains(v) {
                Some(af)
            } else {
                None
            },
            None => None,
        }
    } else {
        None
    }
}

fn table_lookup(per: Peripheral, role: Role, port: Port, number: u8) -> (r: Option<
    (u8, VariantGroup),
>)
    ensures
        r == table_entry(per, role, port, number),
{
    match (per, role, port, number) {
            (Peripheral::Spi2, Role::MasterClock, Port::C, 6) => Some((5, VariantGroup::All)),
            (Peripheral::Spi2, Role::MasterClock, Port::A, 3) => Some((5, VariantGroup::F411Line)),
            (Peripheral::Spi2, Role::MasterClock, Port::A, 6) => Some((6, VariantGroup::F411Line)),
            (Peripheral::Spi3, Role::MasterClock, Port::B, 10) => Some((6, VariantGroup::F411Line)),
            (Peripheral::Spi1, Role::MasterClock, Port::C, 4) => Some((5, VariantGroup::F412Line)),
            (Peripheral::Spi3, Role::MasterClock, Port::C, 7) => Some((6, VariantGroup::AllButF410)),
            (Peripheral::Spi1, Role::MasterClock, Port::C, 7) => Some((6, VariantGroup::F410Only)),
            (Peripheral::Spi1, Role::MasterClock, Port::B, 10) => Some((6, VariantGroup::F410Only)),

            (Peripheral::Spi2, Role::WordSelect, Port::B, 9) => Some((5, VariantGroup::All)),
            (Peripheral::Spi2, Role::WordSelect, Port::B, 12) => Some((5, VariantGroup::All)),
            (Peripheral::Spi3, Role::WordSelect, Port::A, 4) => Some((6, VariantGroup::AllButF410)),
            (Peripheral::Spi3, Role::WordSelect, Port::A, 15) => Some((6, VariantGroup::AllButF410)),
            (Peripheral::Spi1, Role::WordSelect, Port::A, 4) => Some((5, VariantGroup::F410LineAndF446)),
            (Peripheral::Spi1, Role::WordSelect, Port::A, 15) => Some((5, VariantGroup::F410LineAndF446)),
            (Peripheral::Spi4, Role::WordSelect, Port::B, 12) => Some((6, VariantGroup::F411Line)),
            (Peripheral::Spi4, Role::WordSelect, Port::E, 4) => Some((5, VariantGroup::F411Line)),
            (Peripheral::Spi4, Role::WordSelect, Port::E, 11) => Some((5, VariantGroup::F411Line)),
            (Peripheral::Spi5, Role::WordSelect, Port::E, 4) => Some((6, VariantGroup::F411Line)),
            (Peripheral::Spi5, Role::WordSelect, Port::E, 11) => Some((6, VariantGroup::F411Line)),
            (Peripheral::Spi2, Role::WordSelect, Port::A, 11) => Some((5, VariantGroup::F413Line)),
            (Peripheral::Spi5, Role::WordSelect, Port::B, 1) => Some((6, VariantGroup::F410Line)),
            (Peripheral::Spi2, Role::WordSelect, Port::B, 4) => Some((7, VariantGroup::F446Only)),
            (Peripheral::Spi2, Role::WordSelect, Port::D, 1) => Some((7, VariantGroup::F446Only)),
            (Peripheral::Spi2, Role::WordSelect, Port::I, 0) => Some((5, VariantGroup::PortI)),

            (Peripheral::Spi1, Role::BitClock, Port::A, 5) => Some((5, VariantGroup::All)),
            (Peripheral::Spi1, Role::BitClock, Port::B, 3) => Some((5, VariantGroup::All)),
            (Peripheral::Spi2, Role::BitClock, Port::B, 10) => Some((5, VariantGroup::All)),
            (Peripheral::Spi2, Role::BitClock, Port::B, 13) => Some((5, VariantGroup::All)),
            (Peripheral::Spi2, Role::BitClock, Port::I, 1) => Some((5, VariantGroup::PortI)),
            (Peripheral::Spi3, Role::BitClock, Port::B, 3) => Some((6, VariantGroup::All)),
            (Peripheral::Spi3, Role::BitClock, Port::C, 10) => Some((6, VariantGroup::All)),
            (Peripheral::Spi4, Role::BitClock, Port::E, 2) => Some((5, VariantGroup::All)),
            (Peripheral::Spi4, Role::BitClock, Port::E, 12) => Some((5, VariantGroup::All)),
            (Peripheral::Spi5, Role::BitClock, Port::B, 0) => Some((6, VariantGroup::All)),
            (Peripheral::Spi5, Role::BitClock, Port::E, 2) => Some((6, VariantGroup::F411Line)),
            (Peripheral::Spi5, Role::BitClock, Port::E, 12) => Some((6, VariantGroup::F411Line)),

            (Peripheral::Spi1, Role::DataLine, Port::A, 7) => Some((5, VariantGroup::All)),
            (Peripheral::Spi1, Role::DataLine, Port::B, 5) => Some((5, VariantGroup::All)),
            (Peripheral::Spi2, Role::DataLine, Port::B, 15) => Some((5, VariantGroup::All)),
            (Peripheral::Spi2, Role::DataLine, Port::C, 3) => Some((5, VariantGroup::All)),
            (Peripheral::Spi2, Role::DataLine, Port::I, 3) => Some((5, VariantGroup::PortI)),
            (Peripheral::Spi3, Role::DataLine, Port::B, 5) => Some((6, VariantGroup::All)),
            (Peripheral::Spi3, Role::DataLine, Port::C, 12) => Some((6, VariantGroup::All)),
            (Peripheral::Spi4, Role::DataLine, Port::E, 6) => Some((5, VariantGroup::All)),
            (Peripheral::Spi4, Role::DataLine, Port::E, 14) => Some((5, VariantGroup::All)),
            (Peripheral::Spi5, Role::DataLine, Port::A, 10) => Some((6, VariantGroup::All)),
            (Peripheral::Spi5, Role::DataLine, Port::B, 8) => Some((6, VariantGroup::All)),
            (Peripheral::Spi5, Role::DataLine, Port::E, 6) => Some((6, VariantGroup::F411Line)),
            (Peripheral::Spi5, Role::DataLine, Port::E, 14) => Some((6, VariantGroup::F411Line)),
        _ => None,
    }
}

/// The place of `port` in the order A, B, C, D, E, I.
pub open spec fn port_index(port: Port) -> int {
    match port {
        Port::A => 0,
        Port::B => 1,
        Port::C => 2,
        Port::D => 3,
        Port::E => 4,
        Port::I => 5,
    }
}

/// Whether pin `p` comes before port number `i`, pin `n` in the order of
/// ports, then of pin numbers.
pub open spec fn pin_before(p: Pin, i: int, n: int) -> bool {
    port_index(p.port) < i || (port_index(p.port) == i && p.number < n)
}

fn port_at(i: usize) -> (r: Port)
    requires
        i < 6,
    ensures
        port_index(r) == i,
{
    match i {
        0 => Port::A,
        1 => Port::B,
        2 => Port::C,
        3 => Port::D,
        4 => Port::E,
        _ => Port::I,
    }
}

/// On every variant the facts never contradict one another: a pin fills one
/// (peripheral, role) slot through a single alternate function. Every fact
/// also names an instance the variant has, a role that a pin can carry, and a
/// pin number below 16.
pub proof fn lemma_facts_consistent(v: ChipVariant, f1: CapabilityFact, f2: CapabilityFact)
    requires
        facts_of(v).contains(f1),
        facts_of(v).contains(f2),
    ensures
        (f1.pin.pin == f2.pin.pin && f1.peripheral == f2.peripheral && f1.role == f2.role)
            ==> f1.pin.af == f2.pin.af,
        f1.peripheral.spec_declared_on(v),
        f1.role != Role::NoMasterClock,
        f1.pin.pin.number < 16,
{
}

/// The capability facts of one chip variant, fixed when it is built.
pub struct Registry {
    variant: ChipVariant,
}

impl View for Registry {
    type V = ChipVariant;

    closed spec fn view(&self) -> ChipVariant {
        self.variant
    }
}

impl Registry {
    /// The registry of variant `variant`.
    pub fn new(variant: ChipVariant) -> (r: Registry)
        ensures
            r@ == variant,
    {
        Registry { variant }
    }

    /// The variant this registry describes.
    pub fn variant(&self) -> (r: ChipVariant)
        ensures
            r == self@,
    {
        self.variant
    }

    /// Whether the variant has peripheral instance `per`.
    pub fn declares(&self, per: Peripheral) -> (r: bool)
        ensures
            r == per.spec_declared_on(self@),
    {
        per.declared_on(self.variant)
    }

    /// The alternate function through which `pin` fills `role` for `per`, or
    /// `None` where it cannot.
    pub fn alternate_function(&self, per: Peripheral, role: Role, pin: Pin) -> (r: Option<u8>)
        ensures
            r == af_of(self@, per, role, pin),
    {
        if !per.declared_on(self.variant) {
            return None;
        }
        match table_lookup(per, role, pin.port, pin.number) {
            Some((af, g)) => if g.contains(self.variant) {
                Some(af)
            } else {
                None
            },
            None => None,
        }
    }

    /// Every pin, with its alternate function, that can fill `role` for
    /// `per`, in the order of ports, then of pin numbers; empty where the
    /// variant has no such slot.
    pub fn pins_for(&self, per: Peripheral, role: Role) -> (r: Vec<AltPin>)
        ensures
            forall|a: AltPin|
                r@.contains(a) <==> facts_of(self@).contains(
                    CapabilityFact { pin: a, peripheral: per, role },
                ),
            r@.no_duplicates(),
    {
        let mut r: Vec<AltPin> = Vec::new();
        let mut i: usize = 0;
        while i < 6
            invariant
                i <= 6,
                forall|a: AltPin|
                    r@.contains(a) <==> (facts_of(self@).contains(
                        CapabilityFact { pin: a, peripheral: per, role },
                    ) && port_index(a.pin.port) < i),
                forall|k: int| 0 <= k < r@.len() ==> port_index(#[trigger] r@[k].pin.port) < i,
                r@.no_duplicates(),
            decreases 6 - i,
        {
            let port = port_at(i);
            let mut n: u8 = 0;
            while n < 16
                invariant
                    i < 6,
                    n <= 16,
                    port_index(port) == i,
                    forall|a: AltPin|
                        r@.contains(a) <==> (facts_of(self@).contains(
                            CapabilityFact { pin: a, peripheral: per, role },
                        ) && pin_before(a.pin, i as int, n as int)),
                    forall|k: int| 0 <= k < r@.len() ==> pin_before(#[trigger] r@[k].pin, i as int, n as int),
                    r@.no_duplicates(),
                decreases 16 - n,
            {
                let pin = Pin { port, number: n };
                if let Some(af) = self.alternate_function(per, role, pin) {
                    let a = AltPin { pin, af };
                    assert(!r@.contains(a)) by {
                        if r@.contains(a) {
                            let k = r@.index_of(a);
                            assert(pin_before(r@[k].pin, i as int, n as int));
                        }
                    }
                    let ghost before = r@;
                    r.push(a);
                    assert(r@ == before.push(a));
                    assert forall|b: AltPin|
                        r@.contains(b) <==> (facts_of(self@).contains(
                            CapabilityFact { pin: b, peripheral: per, role },
                        ) && pin_before(b.pin, i as int, n + 1)) by {
                        if r@.contains(b) && b != a {
                            let k = r@.index_of(b);
                            assert(r@[k] == b);
                            assert(k < r@.len() - 1);
                            assert(before[k] == b);
                            assert(before.contains(b));
                        }
                        if facts_of(self@).contains(CapabilityFact { pin: b, peripheral: per, role })
                            && pin_before(b.pin, i as int, n + 1) {
                            if pin_before(b.pin, i as int, n as int) {
                                assert(before.contains(b));
                                let k = before.index_of(b);
                                assert(r@[k] == b);
                            } else {
                                assert(b.pin.port == port);
                                assert(b.pin == pin);
                                assert(b.af == af);
                                assert(r@[r@.len() - 1] == a);
                            }
                        }
                    }
                }
                n = n + 1;
            }
            i = i + 1;
        }
        r
    }

    /// Whether the registry holds `fact`.
    pub fn has_fact(&self, fact: CapabilityFact) -> (r: bool)
        ensures
            r == facts_of(self@).contains(fact),
    {
        match self.alternate_function(fact.peripheral, fact.role, fact.pin.pin) {
            Some(af) => af == fact.pin.af,
            None => false,
        }
    }
}

} // verus!
