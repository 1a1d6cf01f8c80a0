//! Scene-construction helpers: a color ramp that spreads `n` bodies
//! evenly over a fixed red-to-green-to-blue gradient.

use vstd::prelude::*;
use crate::render::Color;

verus! {

/// Number of steps in the gradient table.
pub const GRADIENT_LEN: usize = 1021;

/// Largest body count the ramp serves; keeps the table index arithmetic
/// inside `usize` on every platform.
pub const MAX_GRADIENT_DIVISOR: usize = 2000000;

/// Hands out `n` colors, one per call, spread evenly over a fixed
/// 1021-entry gradient.
pub struct ColorIncrement {
    n: usize,
    colors: Vec<Color>,
    count: usize,
}

impl ColorIncrement {
    /// The gradient entry at `i`: red fading through green then into blue.
    pub open spec fn gradient(i: int) -> Color {
        if i <= 255 {
            Color { r: 255, g: i as u8, b: 0 }
        } else if i <= 510 {
            Color { r: (510 - i) as u8, g: 255, b: 0 }
        } else if i <= 765 {
            Color { r: 0, g: 255, b: (i - 510) as u8 }
        } else {
            Color { r: 0, g: (1020 - i) as u8, b: 255 }
        }
    }

    /// How many callers the ramp is divided among.
    pub closed spec fn divisor(self) -> int {
        self.n as int
    }

    /// How many colors were handed out so far.
    pub closed spec fn handed_out(self) -> int {
        self.count as int
    }

    /// Whether the table holds the full gradient.
    pub closed spec fn wf(self) -> bool {
        &&& self.colors@.len() == GRADIENT_LEN
        &&& self.n <= MAX_GRADIENT_DIVISOR
        &&& forall|i: int|
            0 <= i < GRADIENT_LEN ==> self.colors@[i] == ColorIncrement::gradient(i)
    }

    /// The gradient entry at `i`, computed.
    fn gradient_at(i: usize) -> (c: Color)
        requires
            i < GRADIENT_LEN,
        ensures
            c == ColorIncrement::gradient(i as int),
    {
        if i <= 255 {
            Color { r: 255, g: i as u8, b: 0 }
        } else if i <= 510 {
            Color { r: (510 - i) as u8, g: 255, b: 0 }
        } else if i <= 765 {
            Color { r: 0, g: 255, b: (i - 510) as u8 }
        } else {
            Color { r: 0, g: (1020 - i) as u8, b: 255 }
        }
    }

    /// Builds the gradient table for `n` bodies.
    pub fn new(n: usize) -> (r: Self)
        requires
            n <= MAX_GRADIENT_DIVISOR,
        ensures
            r.wf(),
            r.divisor() == n,
            r.handed_out() == 0,
    {
        let mut colors: Vec<Color> = Vec::new();
        let cap: usize = GRADIENT_LEN;
        for i in 0..cap
            invariant
                cap == GRADIENT_LEN,
                colors@.len() == i,
                forall|j: int| 0 <= j < i ==> colors@[j] == ColorIncrement::gradient(j),
        {
            colors.push(Self::gradient_at(i));
        }
        ColorIncrement { count: 0, n, colors }
    }

    /// The next color: entry `count · 1021 / n` of the gradient.
    pub fn get(&mut self) -> (r: Color)
        requires
            old(self).wf(),
            0 < old(self).divisor(),
            old(self).handed_out() < old(self).divisor(),
        ensures
            final(self).wf(),
            final(self).divisor() == old(self).divisor(),
            final(self).handed_out() == old(self).handed_out() + 1,
            r == ColorIncrement::gradient(
                old(self).handed_out() * GRADIENT_LEN as int / old(self).divisor(),
            ),
    {
        proof {
            assert(self.count * GRADIENT_LEN < self.n * GRADIENT_LEN) by (nonlinear_arith)
                requires
                    self.count < self.n,
            ;
            assert(self.n * GRADIENT_LEN <= MAX_GRADIENT_DIVISOR * GRADIENT_LEN)
                by (nonlinear_arith)
                requires
                    self.n <= MAX_GRADIENT_DIVISOR,
            ;
            vstd::arithmetic::div_mod::lemma_multiply_divide_lt(
                self.count * GRADIENT_LEN,
                self.n as int,
                GRADIENT_LEN as int,
            );
        }
        let index = self.count * self.colors.len() / self.n;
        self.count = self.count + 1;
        let r = self.colors[index];
        r
    }
}

} // verus!
