//! The pin-set validator: checks four pins against the registry for one
//! peripheral instance and, when every role is covered, hands out an opaque
//! bundle that stands for the validated wiring.

use vstd::prelude::*;

use crate::enable::Sealed;
use crate::pin::{AltPin, Role};
use crate::registry::{facts_of, CapabilityFact, Registry};
use crate::variant::{ChipVariant, Peripheral};

verus! {

/// The placeholder for a master-clock slot left unused: every peripheral
/// instance can run without a master-clock output.
#[derive(Clone, Copy, Debug, PartialEq, Eq, Structural)]
pub struct NoMasterClock;

/// What can fill the master-clock slot of a bundle: a pin, or the
/// [`NoMasterClock`] placeholder.
pub trait PinMck: Sealed {
    /// The pin in the slot, `None` for the placeholder.
    spec fn spec_master_clock(&self) -> Option<AltPin>;

    /// The pin in the slot, `None` for the placeholder.
    fn master_clock(&self) -> (r: Option<AltPin>)
        ensures
            r == self.spec_master_clock(),
    ;
}

impl Sealed for AltPin {
}

impl Sealed for NoMasterClock {
}

impl PinMck for AltPin {
    open spec fn spec_master_clock(&self) -> Option<AltPin> {
        Some(*self)
    }

    fn master_clock(&self) -> (r: Option<AltPin>) {
        Some(*self)
    }
}

impl PinMck for NoMasterClock {
    open spec fn spec_master_clock(&self) -> Option<AltPin> {
        None
    }

    fn master_clock(&self) -> (r: Option<AltPin>) {
        None
    }
}

/// Why a set of pins cannot be bound to a peripheral instance.
#[derive(Clone, Copy, Debug, PartialEq, Eq, Structural)]
pub enum BindError {
    /// The pin supplied for this role has no capability fact for it on the
    /// requested peripheral instance.
    CapabilityMismatch(Role),
}

/// The contents of a bundle.
#[derive(Clone, Copy, Debug, PartialEq, Eq, Structural)]
pub struct BundleView {
    pub peripheral: Peripheral,
    pub ws: AltPin,
    pub ck: AltPin,
    pub mck: Option<AltPin>,
    pub sd: AltPin,
}

/// A set of pins (word select, bit clock, master clock or none, serial data)
/// validated for one peripheral instance. Only [`bind`] makes one.
pub struct PinBundle {
    peripheral: Peripheral,
    ws: AltPin,
    ck: AltPin,
    mck: Option<AltPin>,
    sd: AltPin,
}

impl View for PinBundle {
    type V = BundleView;

    closed spec fn view(&self) -> BundleView {
        BundleView {
            peripheral: self.peripheral,
            ws: self.ws,
            ck: self.ck,
            mck: self.mck,
            sd: self.sd,
        }
    }
}

impl Sealed for PinBundle {
}

/// A validated set of pins bound to one peripheral instance.
pub trait Pins: Sealed {
    /// The instance the pins are bound to.
    spec fn bound_peripheral(&self) -> Peripheral;

    /// The instance the pins are bound to.
    fn peripheral(&self) -> (r: Peripheral)
        ensures
            r == self.bound_peripheral(),
    ;
}

impl Pins for PinBundle {
    open spec fn bound_peripheral(&self) -> Peripheral {
        self@.peripheral
    }

    fn peripheral(&self) -> (r: Peripheral) {
        self.peripheral
    }
}

impl PinBundle {
    /// The word-select pin.
    pub fn word_select(&self) -> (r: AltPin)
        ensures
            r == self@.ws,
    {
        self.ws
    }

    /// The bit-clock pin.
    pub fn bit_clock(&self) -> (r: AltPin)
        ensures
            r == self@.ck,
    {
        self.ck
    }

    /// The master-clock pin, `None` where the slot holds the placeholder.
    pub fn master_clock(&self) -> (r: Option<AltPin>)
        ensures
            r == self@.mck,
    {
        self.mck
    }

    /// The serial-data pin.
    pub fn data_line(&self) -> (r: AltPin)
        ensures
            r == self@.sd,
    {
        self.sd
    }
}

/// Whether variant `v` lets `pin` fill `role` for `per`.
pub open spec fn can_fill(v: ChipVariant, pin: AltPin, per: Peripheral, role: Role) -> bool {
    facts_of(v).contains(CapabilityFact { pin, peripheral: per, role })
}

/// Whether every pin has a capability fact for its role on `per`, the
/// master-clock slot being free to hold the placeholder (`None`).
pub open spec fn pins_capable(
    v: ChipVariant,
    per: Peripheral,
    ws: AltPin,
    ck: AltPin,
    mck: Option<AltPin>,
    sd: AltPin,
) -> bool {
    &&& can_fill(v, ws, per, Role::WordSelect)
    &&& can_fill(v, ck, per, Role::BitClock)
    &&& match mck {
        Some(m) => can_fill(v, m, per, Role::MasterClock),
        None => true,
    }
    &&& can_fill(v, sd, per, Role::DataLine)
}

/// The outcome of binding: the bundle, or the first role, in the order word
/// select, bit clock, master clock, serial data, whose pin lacks the
/// capability.
pub open spec fn bind_result(
    v: ChipVariant,
    per: Peripheral,
    ws: AltPin,
    ck: AltPin,
    mck: Option<AltPin>,
    sd: AltPin,
) -> Result<BundleView, BindError> {
    if !can_fill(v, ws, per, Role::WordSelect) {
        Err(BindError::CapabilityMismatch(Role::WordSelect))
    } else if !can_fill(v, ck, per, Role::BitClock) {
        Err(BindError::CapabilityMismatch(Role::BitClock))
    } else if mck is Some && !can_fill(v, mck->0, per, Role::MasterClock) {
        Err(BindError::CapabilityMismatch(Role::MasterClock))
    } else if !can_fill(v, sd, per, Role::DataLine) {
        Err(BindError::CapabilityMismatch(Role::DataLine))
    } else {
        Ok(BundleView { peripheral: per, ws, ck, mck, sd })
    }
}

/// What a call of [`bind`] gave, with the bundle seen through its view.
pub open spec fn outcome(r: Result<PinBundle, BindError>) -> Result<BundleView, BindError> {
    match r {
        Ok(b) => Ok(b@),
        Err(e) => Err(e),
    }
}

/// Binds the pins `ws`, `ck`, `mck`, `sd` to `peripheral` after checking each
/// against `registry` for its role.
pub fn bind<M: PinMck>(
    registry: &Registry,
    peripheral: Peripheral,
    ws: AltPin,
    ck: AltPin,
    mck: M,
    sd: AltPin,
) -> (r: Result<PinBundle, BindError>)
    ensures
        r.is_ok() <==> pins_capable(registry@, peripheral, ws, ck, mck.spec_master_clock(), sd),
        outcome(r) == bind_result(registry@, peripheral, ws, ck, mck.spec_master_clock(), sd),
{
    if !registry.has_fact(CapabilityFact { pin: ws, peripheral, role: Role::WordSelect }) {
        return Err(BindError::CapabilityMismatch(Role::WordSelect));
    }
    if !registry.has_fact(CapabilityFact { pin: ck, peripheral, role: Role::BitClock }) {
        return Err(BindError::CapabilityMismatch(Role::BitClock));
    }
    let m = mck.master_clock();
    if let Some(pin) = m {
        if !registry.has_fact(CapabilityFact { pin, peripheral, role: Role::MasterClock }) {
            return Err(BindError::CapabilityMismatch(Role::MasterClock));
        }
    }
    if !registry.has_fact(CapabilityFact { pin: sd, peripheral, role: Role::DataLine }) {
        return Err(BindError::CapabilityMismatch(Role::DataLine));
    }
    Ok(PinBundle { peripheral, ws, ck, mck: m, sd })
}

/// Binding fails exactly when one of the pins lacks a capability fact for its
/// role on the peripheral; the master-clock placeholder never makes it fail.
pub proof fn lemma_bind_succeeds_iff_capable(
    v: ChipVariant,
    per: Peripheral,
    ws: AltPin,
    ck: AltPin,
    mck: Option<AltPin>,
    sd: AltPin,
)
    ensures
        bind_result(v, per, ws, ck, mck, sd).is_ok() <==> pins_capable(v, per, ws, ck, mck, sd),
        bind_result(v, per, ws, ck, None, sd).is_ok() <==> (can_fill(v, ws, per, Role::WordSelect)
            && can_fill(v, ck, per, Role::BitClock) && can_fill(v, sd, per, Role::DataLine)),
{
}

/// Binding is deterministic: two calls of [`bind`] with the same registry
/// variant and the same pins both give bundles with equal contents, or both
/// fail with the same error.
pub proof fn lemma_bind_deterministic(
    v: ChipVariant,
    per: Peripheral,
    ws: AltPin,
    ck: AltPin,
    mck: Option<AltPin>,
    sd: AltPin,
    r1: Result<PinBundle, BindError>,
    r2: Result<PinBundle, BindError>,
)
    requires
        outcome(r1) == bind_result(v, per, ws, ck, mck, sd),
        outcome(r2) == bind_result(v, per, ws, ck, mck, sd),
    ensures
        r1.is_ok() == r2.is_ok(),
        r1 matches Ok(b1) ==> (r2 matches Ok(b2) && b1@ == b2@),
        r1 matches Err(e1) ==> (r2 matches Err(e2) && e1 == e2),
{
}

} // verus!
