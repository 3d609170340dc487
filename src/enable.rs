//! The enable sequencer: the three single-bit register operations that switch
//! a peripheral instance on, and a model of the shared clock-control
//! registers they act on.

use vstd::prelude::*;

use crate::variant::Peripheral;

verus! {

/// A register of the shared clock-control block.
#[derive(Clone, Copy, Debug, PartialEq, Eq, Structural)]
pub enum Register {
    /// Clock enables of the peripherals on the first peripheral bus.
    Apb1Enr,
    /// Clock enables of the peripherals on the second peripheral bus.
    Apb2Enr,
    /// Resets of the peripherals on the first peripheral bus.
    Apb1Rstr,
    /// Resets of the peripherals on the second peripheral bus.
    Apb2Rstr,
}

/// What a single-bit operation does to its bit.
#[derive(Clone, Copy, Debug, PartialEq, Eq, Structural)]
pub enum BitAction {
    SetBit,
    ClearBit,
}

/// An atomic single-bit modification of one clock-control register.
#[derive(Clone, Copy, Debug, PartialEq, Eq, Structural)]
pub struct RegisterOp {
    pub register: Register,
    pub bit: u8,
    pub action: BitAction,
}

impl Peripheral {
    /// The register that holds this instance's clock-enable bit.
    pub open spec fn spec_enable_register(self) -> Register {
        match self {
            Peripheral::Spi2 | Peripheral::Spi3 => Register::Apb1Enr,
            _ => Register::Apb2Enr,
        }
    }

    /// The register that holds this instance's reset bit.
    pub open spec fn spec_reset_register(self) -> Register {
        match self {
            Peripheral::Spi2 | Peripheral::Spi3 => Register::Apb1Rstr,
            _ => Register::Apb2Rstr,
        }
    }

    /// The position of this instance's clock-enable bit.
    pub open spec fn spec_enable_bit(self) -> u8 {
        match self {
            Peripheral::Spi1 => 12,
            Peripheral::Spi2 => 14,
            Peripheral::Spi3 => 15,
            Peripheral::Spi4 => 13,
            Peripheral::Spi5 => 20,
        }
    }

    /// The position of this instance's reset bit; the whole family puts it at
    /// the same position as the clock-enable bit.
    pub open spec fn spec_reset_bit(self) -> u8 {
        self.spec_enable_bit()
    }

    /// Whether `op` modifies one of this instance's two bits.
    pub open spec fn touched_by(self, op: RegisterOp) -> bool {
        ||| (op.register == self.spec_enable_register() && op.bit == self.spec_enable_bit())
        ||| (op.register == self.spec_reset_register() && op.bit == self.spec_reset_bit())
    }

    /// The register that holds this instance's clock-enable bit.
    pub fn enable_register(self) -> (r: Register)
        ensures
            r == self.spec_enable_register(),
    {
        match self {
            Peripheral::Spi2 | Peripheral::Spi3 => Register::Apb1Enr,
            _ => Register::Apb2Enr,
        }
    }

    /// The register that holds this instance's reset bit.
    pub fn reset_register(self) -> (r: Register)
        ensures
            r == self.spec_reset_register(),
    {
        match self {
            Peripheral::Spi2 | Peripheral::Spi3 => Register::Apb1Rstr,
            _ => Register::Apb2Rstr,
        }
    }

    /// The position of this instance's clock-enable bit.
    pub fn enable_bit(self) -> (r: u8)
        ensures
            r == self.spec_enable_bit(),
    {
        match self {
            Peripheral::Spi1 => 12,
            Peripheral::Spi2 => 14,
            Peripheral::Spi3 => 15,
            Peripheral::Spi4 => 13,
            Peripheral::Spi5 => 20,
        }
    }

    /// The position of this instance's reset bit.
    pub fn reset_bit(self) -> (r: u8)
        ensures
            r == self.spec_reset_bit(),
    {
        self.enable_bit()
    }
}

/// The enable protocol of `p`: set its clock-enable bit, then pulse its reset
/// bit (set, then clear) while the clock runs.
pub open spec fn enable_sequence(p: Peripheral) -> Seq<RegisterOp> {
    seq![
        RegisterOp {
            register: p.spec_enable_register(),
            bit: p.spec_enable_bit(),
            action: BitAction::SetBit,
        },
        RegisterOp {
            register: p.spec_reset_register(),
            bit: p.spec_reset_bit(),
            action: BitAction::SetBit,
        },
        RegisterOp {
            register: p.spec_reset_register(),
            bit: p.spec_reset_bit(),
            action: BitAction::ClearBit,
        },
    ]
}

/// Closes the set of types that may stand for a peripheral instance or a
/// master-clock slot to those of this library.
pub trait Sealed {
}

impl Sealed for Peripheral {
}

/// A peripheral that can be switched on for word-clocked audio mode.
pub trait Enable: Sealed {
    /// The register operations that switch this peripheral on, in order.
    spec fn enable_ops(&self) -> Seq<RegisterOp>;

    /// Appends to `ops` the operations that switch this peripheral on; the
    /// caller performs them, in order, on the clock-control block.
    fn enable(&self, ops: &mut Vec<RegisterOp>)
        ensures
            final(ops)@ == old(ops)@ + self.enable_ops(),
    ;
}

impl Enable for Peripheral {
    open spec fn enable_ops(&self) -> Seq<RegisterOp> {
        enable_sequence(*self)
    }

    fn enable(&self, ops: &mut Vec<RegisterOp>) {
        let en = self.enable_register();
        let rst = self.reset_register();
        let en_bit = self.enable_bit();
        let rst_bit = self.reset_bit();
        ops.push(RegisterOp { register: en, bit: en_bit, action: BitAction::SetBit });
        ops.push(RegisterOp { register: rst, bit: rst_bit, action: BitAction::SetBit });
        ops.push(RegisterOp { register: rst, bit: rst_bit, action: BitAction::ClearBit });
        assert(ops@ =~= old(ops)@ + enable_sequence(*self));
    }
}

/// Whether bit `b` of `w` is set.
pub open spec fn bit_is_set(w: u32, b: u8) -> bool {
    (w >> b) & 1u32 == 1u32
}

/// `w` after `action` on bit `b`.
pub open spec fn modify_bit(w: u32, b: u8, action: BitAction) -> u32 {
    match action {
        BitAction::SetBit => w | (1u32 << b),
        BitAction::ClearBit => w & !(1u32 << b),
    }
}

/// An image of the shared clock-control registers.
#[derive(Clone, Copy, Debug, PartialEq, Eq, Structural)]
pub struct ClockControl {
    pub apb1enr: u32,
    pub apb2enr: u32,
    pub apb1rstr: u32,
    pub apb2rstr: u32,
}

impl ClockControl {
    /// The value of register `r`.
    pub open spec fn word(self, r: Register) -> u32 {
        match r {
            Register::Apb1Enr => self.apb1enr,
            Register::Apb2Enr => self.apb2enr,
            Register::Apb1Rstr => self.apb1rstr,
            Register::Apb2Rstr => self.apb2rstr,
        }
    }

    /// The block after `op`: its register modified in its bit alone.
    pub open spec fn after(self, op: RegisterOp) -> ClockControl {
        let w = modify_bit(self.word(op.register), op.bit, op.action);
        match op.register {
            Register::Apb1Enr => ClockControl { apb1enr: w, ..self },
            Register::Apb2Enr => ClockControl { apb2enr: w, ..self },
            Register::Apb1Rstr => ClockControl { apb1rstr: w, ..self },
            Register::Apb2Rstr => ClockControl { apb2rstr: w, ..self },
        }
    }

    /// The block after `ops`, performed in order.
    pub open spec fn after_all(self, ops: Seq<RegisterOp>) -> ClockControl
        decreases ops.len(),
    {
        if ops.len() == 0 {
            self
        } else {
            self.after(ops[0]).after_all(ops.drop_first())
        }
    }

    /// Performs `op` on this image.
    pub fn apply(&mut self, op: RegisterOp)
        requires
            op.bit < 32,
        ensures
            *final(self) == old(self).after(op),
    {
        let mask: u32 = 1u32 << op.bit;
        let w = match op.register {
            Register::Apb1Enr => self.apb1enr,
            Register::Apb2Enr => self.apb2enr,
            Register::Apb1Rstr => self.apb1rstr,
            Register::Apb2Rstr => self.apb2rstr,
        };
        let w = match op.action {
            BitAction::SetBit => w | mask,
            BitAction::ClearBit => w & !mask,
        };
        match op.register {
            Register::Apb1Enr => self.apb1enr = w,
            Register::Apb2Enr => self.apb2enr = w,
            Register::Apb1Rstr => self.apb1rstr = w,
            Register::Apb2Rstr => self.apb2rstr = w,
        }
    }

    /// Whether bit `b` of register `r` is set.
    pub fn is_set(&self, r: Register, b: u8) -> (res: bool)
        requires
            b < 32,
        ensures
            res == bit_is_set(self.word(r), b),
    {
        let w = match r {
            Register::Apb1Enr => self.apb1enr,
            Register::Apb2Enr => self.apb2enr,
            Register::Apb1Rstr => self.apb1rstr,
            Register::Apb2Rstr => self.apb2rstr,
        };
        (w >> b) & 1u32 == 1u32
    }
}

/// A single-bit modification sets or clears its own bit and leaves every
/// other bit of the word as it was.
pub proof fn lemma_modify_bit(w: u32, b: u8, c: u8, action: BitAction)
    requires
        b < 32,
        c < 32,
    ensures
        c != b ==> bit_is_set(modify_bit(w, b, action), c) == bit_is_set(w, c),
        bit_is_set(modify_bit(w, b, action), b) == (action == BitAction::SetBit),
{
    match action {
        BitAction::SetBit => {
            assert(c != b ==> ((w | (1u32 << b)) >> c) & 1u32 == (w >> c) & 1u32)
                by (bit_vector)
                requires
                    b < 32,
                    c < 32,
            ;
            assert(((w | (1u32 << b)) >> b) & 1u32 == 1u32) by (bit_vector)
                requires
                    b < 32,
            ;
        },
        BitAction::ClearBit => {
            assert(c != b ==> ((w & !(1u32 << b)) >> c) & 1u32 == (w >> c) & 1u32)
                by (bit_vector)
                requires
                    b < 32,
                    c < 32,
            ;
            assert(((w & !(1u32 << b)) >> b) & 1u32 == 0u32) by (bit_vector)
                requires
                    b < 32,
            ;
        },
    }
}

/// Enabling `p` takes exactly three operations, in the fixed order: set the
/// clock-enable bit, set the reset bit, clear the reset bit; none of them
/// touches a bit of another instance. Performed on any image of the block,
/// they leave `p` clocked and out of reset and every bit of every other
/// instance as it was.
pub proof fn lemma_enable_sequence(c: ClockControl, p: Peripheral, q: Peripheral)
    ensures
        enable_sequence(p).len() == 3,
        enable_sequence(p)[0] == (RegisterOp {
            register: p.spec_enable_register(),
            bit: p.spec_enable_bit(),
            action: BitAction::SetBit,
        }),
        enable_sequence(p)[1] == (RegisterOp {
            register: p.spec_reset_register(),
            bit: p.spec_reset_bit(),
            action: BitAction::SetBit,
        }),
        enable_sequence(p)[2] == (RegisterOp {
            register: p.spec_reset_register(),
            bit: p.spec_reset_bit(),
            action: BitAction::ClearBit,
        }),
        q != p ==> forall|i: int| 0 <= i < 3 ==> !q.touched_by(#[trigger] enable_sequence(p)[i]),
        bit_is_set(c.after_all(enable_sequence(p)).word(p.spec_enable_register()), p.spec_enable_bit()),
        !bit_is_set(c.after_all(enable_sequence(p)).word(p.spec_reset_register()), p.spec_reset_bit()),
        q != p ==> bit_is_set(c.after_all(enable_sequence(p)).word(q.spec_enable_register()), q.spec_enable_bit())
            == bit_is_set(c.word(q.spec_enable_register()), q.spec_enable_bit()),
        q != p ==> bit_is_set(c.after_all(enable_sequence(p)).word(q.spec_reset_register()), q.spec_reset_bit())
            == bit_is_set(c.word(q.spec_reset_register()), q.spec_reset_bit()),
{
    let s = enable_sequence(p);
    let c1 = c.after(s[0]);
    let c2 = c1.after(s[1]);
    let c3 = c2.after(s[2]);
    let s1 = s.drop_first();
    let s2 = s1.drop_first();
    let s3 = s2.drop_first();
    assert(s1[0] == s[1]);
    assert(s2[0] == s[2]);
    assert(s3.len() == 0);
    assert(c3.after_all(s3) == c3);
    assert(c2.after_all(s2) == c3);
    assert(c1.after_all(s1) == c3);
    assert(c.after_all(s) == c3);
    let (pe, pb, pr) = (p.spec_enable_register(), p.spec_enable_bit(), p.spec_reset_register());
    let (qe, qb, qr) = (q.spec_enable_register(), q.spec_enable_bit(), q.spec_reset_register());
    lemma_modify_bit(c.word(pe), pb, pb, BitAction::SetBit);
    lemma_modify_bit(c1.word(pr), pb, pb, BitAction::SetBit);
    lemma_modify_bit(c2.word(pr), pb, pb, BitAction::ClearBit);
    lemma_modify_bit(c.word(pe), pb, qb, BitAction::SetBit);
    lemma_modify_bit(c1.word(pr), pb, qb, BitAction::SetBit);
    lemma_modify_bit(c2.word(pr), pb, qb, BitAction::ClearBit);
}

/// Enabling `p` twice in succession appends six operations: two identical
/// groups of three, each the whole enable protocol.
pub proof fn lemma_enable_twice(log: Seq<RegisterOp>, p: Peripheral)
    ensures
        ({
            let n = log.len() as int;
            let twice = log + enable_sequence(p) + enable_sequence(p);
            &&& twice.len() == n + 6
            &&& twice.subrange(0, n) == log
            &&& twice.subrange(n, n + 3) == enable_sequence(p)
            &&& twice.subrange(n + 3, n + 6) == enable_sequence(p)
        }),
{
    let n = log.len() as int;
    let twice = log + enable_sequence(p) + enable_sequence(p);
    assert(twice.subrange(0, n) =~= log);
    assert(twice.subrange(n, n + 3) =~= enable_sequence(p));
    assert(twice.subrange(n + 3, n + 6) =~= enable_sequence(p));
}

} // verus!
