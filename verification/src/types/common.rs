//! The eight-attribute model: attack power, defense power and the
//! fixed-point scaling vectors used by every damage computation.
//!
//! Fractional multipliers are held in hundredths: a scaling of `100` is a
//! factor of one, `0` wipes the scaled contribution out.  The products are
//! computed in 64 bits and saturate at `u32::MAX`, so no formula can
//! overflow.

use vstd::prelude::*;

verus! {

/// One of the eight damage attributes.
pub enum Attribute {
    Slash,
    Strike,
    Thrust,
    Impact,
    Magic,
    Fire,
    Lightning,
    Chaos,
}

/// Clamps a non-negative mathematical integer into the `u32` range.
pub open spec fn sat32(x: int) -> u32 {
    if x > u32::MAX as int {
        u32::MAX
    } else {
        x as u32
    }
}

/// `v` multiplied by a factor given in hundredths, rounded down.
pub open spec fn scale_per_cent(v: u32, factor: u32) -> u32 {
    sat32((v * factor) / 100)
}

/// A flat value plus a base value scaled by a factor in hundredths.
pub open spec fn flat_plus_scaled(flat: u32, base: u32, factor: u32) -> u32 {
    sat32(flat + (base * factor) / 100)
}

/// Multiplies `v` by `factor` hundredths, saturating at `u32::MAX`.
pub fn mul_per_cent(v: u32, factor: u32) -> (r: u32)
    ensures
        r == scale_per_cent(v, factor),
{
    proof {
        assert((v as int) * (factor as int) <= (u32::MAX as int) * (u32::MAX as int))
            by (nonlinear_arith)
            requires
                v <= u32::MAX,
                factor <= u32::MAX,
        ;
    }
    let wide: u64 = (v as u64) * (factor as u64);
    let q: u64 = wide / 100;
    if q > u32::MAX as u64 {
        u32::MAX
    } else {
        q as u32
    }
}

/// Adds `flat` to `base` scaled by `factor` hundredths, saturating.
pub fn add_scaled(flat: u32, base: u32, factor: u32) -> (r: u32)
    ensures
        r == flat_plus_scaled(flat, base, factor),
{
    proof {
        assert((base as int) * (factor as int) <= (u32::MAX as int) * (u32::MAX as int))
            by (nonlinear_arith)
            requires
                base <= u32::MAX,
                factor <= u32::MAX,
        ;
    }
    let wide: u64 = (base as u64) * (factor as u64);
    let total: u64 = (flat as u64) + wide / 100;
    if total > u32::MAX as u64 {
        u32::MAX
    } else {
        total as u32
    }
}

/// Attack power, one component per attribute.
#[derive(Clone, Copy)]
pub struct AttackPower {
    pub slash: u32,
    pub strike: u32,
    pub thrust: u32,
    pub impact: u32,
    pub magic: u32,
    pub fire: u32,
    pub lightning: u32,
    pub chaos: u32,
}

impl AttackPower {
    /// The zero attack power.
    pub fn default() -> (r: Self)
        ensures
            r == (AttackPower {
                slash: 0u32,
                strike: 0u32,
                thrust: 0u32,
                impact: 0u32,
                magic: 0u32,
                fire: 0u32,
                lightning: 0u32,
                chaos: 0u32,
            }),
    {
        AttackPower {
            slash: 0,
            strike: 0,
            thrust: 0,
            impact: 0,
            magic: 0,
            fire: 0,
            lightning: 0,
            chaos: 0,
        }
    }

    /// The value of the component named by `attribute`.
    pub open spec fn spec_get(self, attribute: Attribute) -> u32 {
        match attribute {
            Attribute::Slash => self.slash,
            Attribute::Strike => self.strike,
            Attribute::Thrust => self.thrust,
            Attribute::Impact => self.impact,
            Attribute::Magic => self.magic,
            Attribute::Fire => self.fire,
            Attribute::Lightning => self.lightning,
            Attribute::Chaos => self.chaos,
        }
    }

    /// `self` with `value` added, saturating, to the one component named
    /// by `attribute`.
    pub open spec fn spec_with_added(self, attribute: Attribute, value: u32) -> AttackPower {
        match attribute {
            Attribute::Slash => AttackPower { slash: sat32(self.slash + value), ..self },
            Attribute::Strike => AttackPower { strike: sat32(self.strike + value), ..self },
            Attribute::Thrust => AttackPower { thrust: sat32(self.thrust + value), ..self },
            Attribute::Impact => AttackPower { impact: sat32(self.impact + value), ..self },
            Attribute::Magic => AttackPower { magic: sat32(self.magic + value), ..self },
            Attribute::Fire => AttackPower { fire: sat32(self.fire + value), ..self },
            Attribute::Lightning => AttackPower { lightning: sat32(self.lightning + value), ..self },
            Attribute::Chaos => AttackPower { chaos: sat32(self.chaos + value), ..self },
        }
    }

    /// Adds `value` to the component named by `attribute`, saturating.
    pub fn add_attribute(&mut self, attribute: &Attribute, value: u32)
        ensures
            *final(self) == old(self).spec_with_added(*attribute, value),
    {
        match attribute {
            Attribute::Slash => self.slash = sat_add(self.slash, value),
            Attribute::Strike => self.strike = sat_add(self.strike, value),
            Attribute::Thrust => self.thrust = sat_add(self.thrust, value),
            Attribute::Impact => self.impact = sat_add(self.impact, value),
            Attribute::Magic => self.magic = sat_add(self.magic, value),
            Attribute::Fire => self.fire = sat_add(self.fire, value),
            Attribute::Lightning => self.lightning = sat_add(self.lightning, value),
            Attribute::Chaos => self.chaos = sat_add(self.chaos, value),
        }
    }

    /// Every component of `self` multiplied by `factor` hundredths.
    pub open spec fn spec_multiplied(self, factor: u32) -> AttackPower {
        AttackPower {
            slash: scale_per_cent(self.slash, factor),
            strike: scale_per_cent(self.strike, factor),
            thrust: scale_per_cent(self.thrust, factor),
            impact: scale_per_cent(self.impact, factor),
            magic: scale_per_cent(self.magic, factor),
            fire: scale_per_cent(self.fire, factor),
            lightning: scale_per_cent(self.lightning, factor),
            chaos: scale_per_cent(self.chaos, factor),
        }
    }

    /// Multiplies every component by `factor` hundredths.
    pub fn multiply(&mut self, factor: u32)
        ensures
            *final(self) == old(self).spec_multiplied(factor),
    {
        self.slash = mul_per_cent(self.slash, factor);
        self.strike = mul_per_cent(self.strike, factor);
        self.thrust = mul_per_cent(self.thrust, factor);
        self.impact = mul_per_cent(self.impact, factor);
        self.magic = mul_per_cent(self.magic, factor);
        self.fire = mul_per_cent(self.fire, factor);
        self.lightning = mul_per_cent(self.lightning, factor);
        self.chaos = mul_per_cent(self.chaos, factor);
    }
}

/// Adds two `u32` values, saturating at `u32::MAX`.
pub fn sat_add(a: u32, b: u32) -> (r: u32)
    ensures
        r == sat32(a + b),
{
    let wide: u64 = (a as u64) + (b as u64);
    if wide > u32::MAX as u64 {
        u32::MAX
    } else {
        wide as u32
    }
}

/// Per-attribute attack-power scaling, in hundredths of the multiplier.
#[derive(Clone, Copy)]
pub struct AttackPowerScaling {
    pub slash: u32,
    pub strike: u32,
    pub thrust: u32,
    pub impact: u32,
    pub magic: u32,
    pub fire: u32,
    pub lightning: u32,
    pub chaos: u32,
}

impl AttackPowerScaling {
    /// The zero scaling: every scaled contribution vanishes.
    pub fn default() -> (r: Self)
        ensures
            r == (AttackPowerScaling {
                slash: 0u32,
                strike: 0u32,
                thrust: 0u32,
                impact: 0u32,
                magic: 0u32,
                fire: 0u32,
                lightning: 0u32,
                chaos: 0u32,
            }),
    {
        AttackPowerScaling {
            slash: 0,
            strike: 0,
            thrust: 0,
            impact: 0,
            magic: 0,
            fire: 0,
            lightning: 0,
            chaos: 0,
        }
    }

    /// `self` with `value` hundredths added to the component named by
    /// `attribute`.
    pub open spec fn spec_with_added(self, attribute: Attribute, value: u32) -> AttackPowerScaling {
        match attribute {
            Attribute::Slash => AttackPowerScaling { slash: sat32(self.slash + value), ..self },
            Attribute::Strike => AttackPowerScaling { strike: sat32(self.strike + value), ..self },
            Attribute::Thrust => AttackPowerScaling { thrust: sat32(self.thrust + value), ..self },
            Attribute::Impact => AttackPowerScaling { impact: sat32(self.impact + value), ..self },
            Attribute::Magic => AttackPowerScaling { magic: sat32(self.magic + value), ..self },
            Attribute::Fire => AttackPowerScaling { fire: sat32(self.fire + value), ..self },
            Attribute::Lightning => (AttackPowerScaling {
                lightning: sat32(self.lightning + value),
                ..self
            }),
            Attribute::Chaos => AttackPowerScaling { chaos: sat32(self.chaos + value), ..self },
        }
    }

    /// Adds `value` hundredths to the component named by `attribute`.
    pub fn add_attribute(&mut self, attribute: &Attribute, value: u32)
        ensures
            *final(self) == old(self).spec_with_added(*attribute, value),
    {
        match attribute {
            Attribute::Slash => self.slash = sat_add(self.slash, value),
            Attribute::Strike => self.strike = sat_add(self.strike, value),
            Attribute::Thrust => self.thrust = sat_add(self.thrust, value),
            Attribute::Impact => self.impact = sat_add(self.impact, value),
            Attribute::Magic => self.magic = sat_add(self.magic, value),
            Attribute::Fire => self.fire = sat_add(self.fire, value),
            Attribute::Lightning => self.lightning = sat_add(self.lightning, value),
            Attribute::Chaos => self.chaos = sat_add(self.chaos, value),
        }
    }
}

/// Per-ability scaling coefficients, in hundredths of the multiplier.
#[derive(Clone, Copy)]
pub struct AbilityScaling {
    pub strength: u32,
    pub dexterity: u32,
    pub intelligence: u32,
    pub faith: u32,
    pub arcane: u32,
    pub agility: u32,
}

/// Defense power, one component per attribute.  The damage formula divides
/// by each component, so a well-formed value has every component at one or
/// above.
#[derive(Clone, Copy)]
pub struct DefensePower {
    pub slash: u32,
    pub strike: u32,
    pub thrust: u32,
    pub impact: u32,
    pub magic: u32,
    pub fire: u32,
    pub lightning: u32,
    pub chaos: u32,
}

impl DefensePower {
    /// Every component is at least one, so per-attribute division is defined.
    pub open spec fn wf(self) -> bool {
        &&& self.slash >= 1
        &&& self.strike >= 1
        &&& self.thrust >= 1
        &&& self.impact >= 1
        &&& self.magic >= 1
        &&& self.fire >= 1
        &&& self.lightning >= 1
        &&& self.chaos >= 1
    }
}

} // verus!
