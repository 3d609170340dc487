//! Chip variants of the family, the groups of variants that share a pin
//! mapping, and the serial peripheral instances.

use vstd::prelude::*;

verus! {

/// One member of the chip family.
#[derive(Clone, Copy, Debug, PartialEq, Eq, Structural)]
pub enum ChipVariant {
    F401,
    F405,
    F407,
    F410,
    F411,
    F412,
    F413,
    F415,
    F417,
    F423,
    F427,
    F429,
    F437,
    F439,
    F446,
    F469,
    F479,
}

/// A set of chip variants that share one part of the pin mapping.
#[derive(Clone, Copy, Debug, PartialEq, Eq, Structural)]
pub enum VariantGroup {
    /// Every variant.
    All,
    /// Every variant but the F410.
    AllButF410,
    /// The F410 alone.
    F410Only,
    /// The F446 alone.
    F446Only,
    /// F411, F412, F413, F423.
    F411Line,
    /// F412, F413, F423, F446.
    F412Line,
    /// F413, F423.
    F413Line,
    /// F410, F411, F412, F413, F423.
    F410Line,
    /// F410, F411, F412, F413, F423, F446.
    F410LineAndF446,
    /// The large-package variants with port I:
    /// F405, F407, F415, F417, F427, F429, F437, F439, F469, F479.
    PortI,
}

impl VariantGroup {
    /// Whether the group holds variant `v`.
    pub open spec fn spec_contains(self, v: ChipVariant) -> bool {
        match self {
            VariantGroup::All => true,
            VariantGroup::AllButF410 => v != ChipVariant::F410,
            VariantGroup::F410Only => v == ChipVariant::F410,
            VariantGroup::F446Only => v == ChipVariant::F446,
            VariantGroup::F411Line => matches!(v,
                ChipVariant::F411 | ChipVariant::F412 | ChipVariant::F413 | ChipVariant::F423),
            VariantGroup::F412Line => matches!(v,
                ChipVariant::F412 | ChipVariant::F413 | ChipVariant::F423 | ChipVariant::F446),
            VariantGroup::F413Line => matches!(v, ChipVariant::F413 | ChipVariant::F423),
            VariantGroup::F410Line => matches!(v,
                ChipVariant::F410 | ChipVariant::F411 | ChipVariant::F412 | ChipVariant::F413
                | ChipVariant::F423),
            VariantGroup::F410LineAndF446 => matches!(v,
                ChipVariant::F410 | ChipVariant::F411 | ChipVariant::F412 | ChipVariant::F413
                | ChipVariant::F423 | ChipVariant::F446),
            VariantGroup::PortI => matches!(v,
                ChipVariant::F405 | ChipVariant::F407 | ChipVariant::F415 | ChipVariant::F417
                | ChipVariant::F427 | ChipVariant::F429 | ChipVariant::F437 | ChipVariant::F439
                | ChipVariant::F469 | ChipVariant::F479),
        }
    }

    /// Whether the group holds variant `v`.
    pub fn contains(self, v: ChipVariant) -> (r: bool)
        ensures
            r == self.spec_contains(v),
    {
        match self {
            VariantGroup::All => true,
            VariantGroup::AllButF410 => v != ChipVariant::F410,
            VariantGroup::F410Only => v == ChipVariant::F410,
            VariantGroup::F446Only => v == ChipVariant::F446,
            VariantGroup::F411Line => matches!(v,
                ChipVariant::F411 | ChipVariant::F412 | ChipVariant::F413 | ChipVariant::F423),
            VariantGroup::F412Line => matches!(v,
                ChipVariant::F412 | ChipVariant::F413 | ChipVariant::F423 | ChipVariant::F446),
            VariantGroup::F413Line => matches!(v, ChipVariant::F413 | ChipVariant::F423),
            VariantGroup::F410Line => matches!(v,
                ChipVariant::F410 | ChipVariant::F411 | ChipVariant::F412 | ChipVariant::F413
                | ChipVariant::F423),
            VariantGroup::F410LineAndF446 => matches!(v,
                ChipVariant::F410 | ChipVariant::F411 | ChipVariant::F412 | ChipVariant::F413
                | ChipVariant::F423 | ChipVariant::F446),
            VariantGroup::PortI => matches!(v,
                ChipVariant::F405 | ChipVariant::F407 | ChipVariant::F415 | ChipVariant::F417
                | ChipVariant::F427 | ChipVariant::F429 | ChipVariant::F437 | ChipVariant::F439
                | ChipVariant::F469 | ChipVariant::F479),
        }
    }
}

/// A serial peripheral instance that can run in word-clocked audio mode.
#[derive(Clone, Copy, Debug, PartialEq, Eq, Structural)]
pub enum Peripheral {
    Spi1,
    Spi2,
    Spi3,
    Spi4,
    Spi5,
}

impl Peripheral {
    /// The variants on which this instance has the audio mode.
    pub open spec fn spec_variants(self) -> VariantGroup {
        match self {
            Peripheral::Spi1 => VariantGroup::F410LineAndF446,
            Peripheral::Spi2 => VariantGroup::All,
            Peripheral::Spi3 => VariantGroup::AllButF410,
            Peripheral::Spi4 => VariantGroup::F411Line,
            Peripheral::Spi5 => VariantGroup::F410Line,
        }
    }

    /// Whether variant `v` has this instance.
    pub open spec fn spec_declared_on(self, v: ChipVariant) -> bool {
        self.spec_variants().spec_contains(v)
    }

    /// Whether variant `v` has this instance.
    pub fn declared_on(self, v: ChipVariant) -> (r: bool)
        ensures
            r == self.spec_declared_on(v),
    {
        let g = match self {
            Peripheral::Spi1 => VariantGroup::F410LineAndF446,
            Peripheral::Spi2 => VariantGroup::All,
            Peripheral::Spi3 => VariantGroup::AllButF410,
            Peripheral::Spi4 => VariantGroup::F411Line,
            Peripheral::Spi5 => VariantGroup::F410Line,
        };
        g.contains(v)
    }
}

} // verus!
