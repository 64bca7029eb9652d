//! Delay sequences for retrying: exponential, Fibonacci and constant steps,
//! each ending at an optional bound. A sequence also ends where its next
//! value no longer fits in a `u64`.

use vstd::prelude::*;

verus! {

/// `factor * base^power`.
pub open spec fn scaled_power(factor: nat, base: nat, power: nat) -> nat
    decreases power,
{
    if power == 0 {
        factor
    } else {
        scaled_power(factor, base, (power - 1) as nat) * base
    }
}

/// Whether `value` is below the bound `max`, if there is one.
pub open spec fn below(value: nat, max: Option<u64>) -> bool {
    max is None || value < max->Some_0
}

proof fn lemma_scaled_power_grows(factor: nat, base: nat, i: nat, j: nat)
    requires
        base >= 1,
        i <= j,
    ensures
        scaled_power(factor, base, i) <= scaled_power(factor, base, j),
    decreases j,
{
    if i < j {
        lemma_scaled_power_grows(factor, base, i, (j - 1) as nat);
        let x = scaled_power(factor, base, (j - 1) as nat);
        assert(x <= x * base) by (nonlinear_arith)
            requires
                base >= 1,
        ;
    }
}

/// `factor * base^power`, when it fits in a `u64`.
fn scaled_power_value(factor: u64, base: u64, power: usize) -> (r: Option<u64>)
    ensures
        r == if scaled_power(factor as nat, base as nat, power as nat) <= u64::MAX {
            Some(scaled_power(factor as nat, base as nat, power as nat) as u64)
        } else {
            None::<u64>
        },
{
    let mut acc: u64 = factor;
    let mut i: usize = 0;
    while i < power
        invariant
            0 <= i <= power,
            acc == scaled_power(factor as nat, base as nat, i as nat),
        decreases power - i,
    {
        match acc.checked_mul(base) {
            Some(next) => {
                acc = next;
            },
            None => {
                proof {
                    assert(base >= 1) by (nonlinear_arith)
                        requires
                            acc as nat * base as nat > u64::MAX,
                    ;
                    lemma_scaled_power_grows(factor as nat, base as nat, (i + 1) as nat, power as nat);
                }
                return None;
            },
        }
        i = i + 1;
    }
    Some(acc)
}

/// The model of an `Expo`.
pub struct ExpoView {
    pub base: u64,
    pub factor: u64,
    pub power: usize,
    pub max: Option<u64>,
}

impl ExpoView {
    /// The value that comes next: `factor * base^power`.
    pub open spec fn value(self) -> nat {
        scaled_power(self.factor as nat, self.base as nat, self.power as nat)
    }

    /// Whether the sequence goes on.
    pub open spec fn continues(self) -> bool {
        self.value() <= u64::MAX && below(self.value(), self.max) && self.power < usize::MAX
    }
}

/// Exponential steps: `factor * base^power` for successive powers.
pub struct Expo {
    base: u64,
    factor: u64,
    power: usize,
    max: Option<u64>,
}

impl View for Expo {
    type V = ExpoView;

    closed spec fn view(&self) -> ExpoView {
        ExpoView { base: self.base, factor: self.factor, power: self.power, max: self.max }
    }
}

impl Expo {
    /// The powers of 2 from 1, below `max`.
    pub fn new(max: Option<u64>) -> (r: Self)
        ensures
            r@ == (ExpoView { base: 2, factor: 1, power: 0, max }),
    {
        Expo { base: 2, factor: 1, power: 0, max }
    }

    pub fn with(base: u64, factor: u64, power: usize, max: Option<u64>) -> (r: Self)
        ensures
            r@ == (ExpoView { base, factor, power, max }),
    {
        Expo { base, factor, power, max }
    }

    /// The next step, or `None` once the sequence has ended.
    pub fn next(&mut self) -> (r: Option<u64>)
        ensures
            old(self)@.continues() ==> r == Some(old(self)@.value() as u64) && final(self)@ == (ExpoView {
                power: (old(self)@.power + 1) as usize,
                ..old(self)@
            }),
            !old(self)@.continues() ==> r is None && final(self)@ == old(self)@,
    {
        if self.power == usize::MAX {
            return None;
        }
        match scaled_power_value(self.factor, self.base, self.power) {
            Some(value) => {
                let go_on = match self.max {
                    Some(max) => value < max,
                    None => true,
                };
                if go_on {
                    self.power = self.power + 1;
                    Some(value)
                } else {
                    None
                }
            },
            None => None,
        }
    }
}

/// The model of a `Fibo`: the next value, the one after, and the bound.
/// `None` stands for a value that does not fit in a `u64`.
pub struct FiboView {
    pub a: Option<u64>,
    pub b: Option<u64>,
    pub max: Option<u64>,
}

/// Fibonacci steps: each value is the sum of the two before.
pub struct Fibo {
    a: Option<u64>,
    b: Option<u64>,
    max: Option<u64>,
}

impl View for Fibo {
    type V = FiboView;

    closed spec fn view(&self) -> FiboView {
        FiboView { a: self.a, b: self.b, max: self.max }
    }
}

/// `a + b`, when both are there and the sum fits in a `u64`.
pub open spec fn sum(a: u64, b: Option<u64>) -> Option<u64> {
    match b {
        Some(b) => if a + b <= u64::MAX {
            Some((a + b) as u64)
        } else {
            None
        },
        None => None,
    }
}

impl Fibo {
    /// The Fibonacci numbers from 0, below `max`.
    pub fn new(max: Option<u64>) -> (r: Self)
        ensures
            r@ == (FiboView { a: Some(0), b: Some(1), max }),
    {
        Fibo { a: Some(0), b: Some(1), max }
    }

    pub fn with(a: u64, b: u64, max: Option<u64>) -> (r: Self)
        ensures
            r@ == (FiboView { a: Some(a), b: Some(b), max }),
    {
        Fibo { a: Some(a), b: Some(b), max }
    }

    /// The next step, or `None` once the sequence has ended.
    pub fn next(&mut self) -> (r: Option<u64>)
        ensures
            old(self)@.a is Some && below(old(self)@.a->Some_0 as nat, old(self)@.max) ==> r == old(self)@.a
                && final(self)@ == (FiboView {
                a: old(self)@.b,
                b: sum(old(self)@.a->Some_0, old(self)@.b),
                max: old(self)@.max,
            }),
            !(old(self)@.a is Some && below(old(self)@.a->Some_0 as nat, old(self)@.max)) ==> r is None
                && final(self)@ == old(self)@,
    {
        let a = match self.a {
            Some(a) => a,
            None => {
                return None;
            },
        };
        let go_on = match self.max {
            Some(max) => a < max,
            None => true,
        };
        if !go_on {
            return None;
        }
        let next = match self.b {
            Some(b) => a.checked_add(b),
            None => None,
        };
        self.a = self.b;
        self.b = next;
        Some(a)
    }
}

/// The model of a `Constant`.
pub struct ConstantView {
    pub multiplier: u64,
    pub multiplicand: u64,
    pub max: Option<u64>,
}

impl ConstantView {
    /// The value that comes next.
    pub open spec fn value(self) -> nat {
        self.multiplier as nat * self.multiplicand as nat
    }

    /// Whether the sequence goes on.
    pub open spec fn continues(self) -> bool {
        self.value() <= u64::MAX && below(self.value(), self.max) && self.multiplier < u64::MAX
    }
}

/// Constant steps: the multiples of `multiplicand`.
pub struct Constant {
    multiplier: u64,
    multiplicand: u64,
    max: Option<u64>,
}

impl View for Constant {
    type V = ConstantView;

    closed spec fn view(&self) -> ConstantView {
        ConstantView { multiplier: self.multiplier, multiplicand: self.multiplicand, max: self.max }
    }
}

impl Constant {
    /// The multiples of `multiplicand` from 0, below `max`.
    pub fn new(multiplicand: u64, max: Option<u64>) -> (r: Self)
        ensures
            r@ == (ConstantView { multiplier: 0, multiplicand, max }),
    {
        Constant { multiplier: 0, multiplicand, max }
    }

    pub fn with(multiplier: u64, multiplicand: u64, max: Option<u64>) -> (r: Self)
        ensures
            r@ == (ConstantView { multiplier, multiplicand, max }),
    {
        Constant { multiplier, multiplicand, max }
    }

    /// The next step, or `None` once the sequence has ended.
    pub fn next(&mut self) -> (r: Option<u64>)
        ensures
            old(self)@.continues() ==> r == Some(old(self)@.value() as u64) && final(self)@ == (ConstantView {
                multiplier: (old(self)@.multiplier + 1) as u64,
                ..old(self)@
            }),
            !old(self)@.continues() ==> r is None && final(self)@ == old(self)@,
    {
        if self.multiplier == u64::MAX {
            return None;
        }
        match self.multiplier.checked_mul(self.multiplicand) {
            Some(value) => {
                let go_on = match self.max {
                    Some(max) => value < max,
                    None => true,
                };
                if go_on {
                    self.multiplier = self.multiplier + 1;
                    Some(value)
                } else {
                    None
                }
            },
            None => None,
        }
    }
}

} // verus!
