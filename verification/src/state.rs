//! The mutable document: the filter chain and the global scalars around it.
//!
//! Input handling edits a `State` between frames; rendering only reads it.
//! The builder methods shape the pending filter, and `push` appends a copy of
//! it to the chain; chains only ever grow by appending and shrink by popping.

use vstd::prelude::*;
use crate::field::Field;
use crate::filter::Filter;
use crate::matrix::{invert_color, Mat3, Mat4, spec_mat3_scaling, spec_mat4_diagonal, NEG_ONE_BITS, ONE_BITS};
use crate::parameter::Parameter;

verus! {

/// A line of overlay text: its content, size and position as fractions of
/// the overlay bounds. The fractional fields hold IEEE 754 single-precision
/// bit patterns.
#[derive(Debug)]
pub struct Text {
    /// Glyph size as a fraction of the overlay height (bit pattern).
    pub size: u32,
    pub string: String,
    /// Horizontal offset as a fraction of the overlay width (bit pattern).
    pub x: u32,
    /// Vertical offset as a fraction of the overlay height (bit pattern).
    pub y: u32,
}

/// One element of the overlay status line.
#[derive(Clone, Copy, Debug, PartialEq, Eq, Structural)]
pub enum HudItem {
    /// The measured frame rate, rounded down.
    Fps(u32),
    /// The most recent control value, shown signed.
    Level(i8),
    /// One filter of the chain, shown as its field's icon.
    Icon(char),
}

/// Everything the user edits: the chain, the filter being shaped, and the
/// global scalars.
#[derive(Debug)]
pub struct State {
    /// Smoothing coefficient for the loudness estimate.
    pub alpha: Parameter,
    /// Gain in decibels.
    pub db: i32,
    /// The filter the builder methods shape; `push` appends a copy of it.
    pub filter: Filter,
    /// The chain, in application order.
    pub filters: Vec<Filter>,
    /// The most recently received control value.
    pub parameter: Parameter,
    /// Overlay text overriding the status line, if any.
    pub text: Option<Text>,
}

impl Default for State {
    fn default() -> (r: Self)
        ensures
            r.alpha.wf() && r.alpha.spec_value() == 0,
            r.db == 0,
            r.filter.spec_is_default(),
            r.filters@.len() == 0,
            r.parameter.wf() && r.parameter.spec_value() == 0,
            r.text is None,
    {
        State {
            alpha: Parameter::default(),
            db: 0,
            filter: Filter::default(),
            filters: Vec::new(),
            parameter: Parameter::default(),
            text: None,
        }
    }
}

/// The builder methods only touch the named part of the state.
pub open spec fn same_but_filter(new: State, old: State) -> bool {
    &&& new.alpha == old.alpha
    &&& new.db == old.db
    &&& new.filters == old.filters
    &&& new.parameter == old.parameter
    &&& new.text == old.text
}

pub open spec fn same_but_field(new: State, old: State) -> bool {
    &&& same_but_filter(new, old)
    &&& new.filter.color == old.filter.color
    &&& new.filter.coordinates == old.filter.coordinates
    &&& new.filter.position == old.filter.position
    &&& new.filter.wrap == old.filter.wrap
}

pub open spec fn same_but_color(new: State, old: State) -> bool {
    &&& same_but_filter(new, old)
    &&& new.filter.field == old.filter.field
    &&& new.filter.coordinates == old.filter.coordinates
    &&& new.filter.position == old.filter.position
    &&& new.filter.wrap == old.filter.wrap
}

pub open spec fn same_but_position(new: State, old: State) -> bool {
    &&& same_but_filter(new, old)
    &&& new.filter.field == old.filter.field
    &&& new.filter.coordinates == old.filter.coordinates
    &&& new.filter.color == old.filter.color
    &&& new.filter.wrap == old.filter.wrap
}

impl State {
    pub fn all(self) -> (r: Self)
        ensures
            same_but_field(r, self),
            r.filter.field == Field::All,
    {
        let mut s = self;
        s.filter.field = Field::All;
        s
    }

    pub fn bottom(self) -> (r: Self)
        ensures
            same_but_field(r, self),
            r.filter.field == Field::Bottom,
    {
        let mut s = self;
        s.filter.field = Field::Bottom;
        s
    }

    pub fn circle(self) -> (r: Self)
        ensures
            same_but_field(r, self),
            r.filter.field == Field::Circle,
    {
        let mut s = self;
        s.filter.field = Field::Circle;
        s
    }

    /// Set the gain in decibels.
    pub fn db(self, db: i8) -> (r: Self)
        ensures
            r.db == db as int,
            r.alpha == self.alpha,
            r.filter == self.filter,
            r.filters == self.filters,
            r.parameter == self.parameter,
            r.text == self.text,
    {
        let mut s = self;
        s.db = db as i32;
        s
    }

    pub fn frequencies(self) -> (r: Self)
        ensures
            same_but_field(r, self),
            r.filter.field == Field::Frequencies,
    {
        let mut s = self;
        s.filter.field = Field::Frequencies;
        s
    }

    /// Give the pending filter the color transform that inverts red, green
    /// and blue.
    pub fn invert(self) -> (r: Self)
        ensures
            same_but_color(r, self),
            r.filter.color.entries@ == spec_mat4_diagonal(
                NEG_ONE_BITS,
                NEG_ONE_BITS,
                NEG_ONE_BITS,
                ONE_BITS,
            ),
    {
        let mut s = self;
        s.filter.color = invert_color();
        s
    }

    /// Give the pending filter the color transform that inverts the red
    /// channel only.
    pub fn invert_r(self) -> (r: Self)
        ensures
            same_but_color(r, self),
            r.filter.color.entries@ == spec_mat4_diagonal(
                NEG_ONE_BITS,
                ONE_BITS,
                ONE_BITS,
                ONE_BITS,
            ),
    {
        let mut s = self;
        s.filter.color = Mat4::from_diagonal(NEG_ONE_BITS, ONE_BITS, ONE_BITS, ONE_BITS);
        s
    }

    /// Append a copy of the pending filter to the chain.
    pub fn push(self) -> (r: Self)
        requires
            self.filters@.len() < usize::MAX,
        ensures
            r.filters@ == self.filters@.push(self.filter),
            r.alpha == self.alpha,
            r.db == self.db,
            r.filter == self.filter,
            r.parameter == self.parameter,
            r.text == self.text,
    {
        let mut s = self;
        let filter = s.filter;
        s.filters.push(filter);
        s
    }

    pub fn samples(self) -> (r: Self)
        ensures
            same_but_field(r, self),
            r.filter.field == Field::Samples,
    {
        let mut s = self;
        s.filter.field = Field::Samples;
        s
    }

    /// Give the pending filter a uniform scaling by the value whose bit
    /// pattern is `factor`.
    pub fn scale(self, factor: u32) -> (r: Self)
        ensures
            same_but_position(r, self),
            r.filter.position.entries@ == spec_mat3_scaling(factor),
    {
        let mut s = self;
        s.filter.position = Mat3::scaling(factor);
        s
    }

    /// Set or clear the overlay text.
    pub fn text(self, text: Option<Text>) -> (r: Self)
        ensures
            r.text == text,
            r.alpha == self.alpha,
            r.db == self.db,
            r.filter == self.filter,
            r.filters == self.filters,
            r.parameter == self.parameter,
    {
        let mut s = self;
        s.text = text;
        s
    }

    /// Append `n` copies of the pending filter to the chain.
    pub fn times(self, n: usize) -> (r: Self)
        requires
            self.filters@.len() + n <= usize::MAX,
        ensures
            r.filters@.len() == self.filters@.len() + n,
            forall|j: int|
                0 <= j < self.filters@.len() ==> r.filters@[j] == self.filters@[j],
            forall|j: int|
                self.filters@.len() <= j < r.filters@.len() ==> r.filters@[j] == self.filter,
            r.alpha == self.alpha,
            r.db == self.db,
            r.filter == self.filter,
            r.parameter == self.parameter,
            r.text == self.text,
    {
        let mut s = self;
        let ghost orig = s.filters@;
        let ghost pending = s.filter;
        let mut k: usize = 0;
        while k < n
            invariant
                k <= n,
                orig.len() + n <= usize::MAX,
                s.filters@.len() == orig.len() + k,
                forall|j: int| 0 <= j < orig.len() ==> s.filters@[j] == orig[j],
                forall|j: int| orig.len() <= j < s.filters@.len() ==> s.filters@[j] == pending,
                s.alpha == self.alpha,
                s.db == self.db,
                s.filter == self.filter,
                s.filter == pending,
                s.parameter == self.parameter,
                s.text == self.text,
            decreases n - k,
        {
            s = s.push();
            k += 1;
        }
        s
    }

    pub fn top(self) -> (r: Self)
        ensures
            same_but_field(r, self),
            r.filter.field == Field::Top,
    {
        let mut s = self;
        s.filter.field = Field::Top;
        s
    }

    pub fn x(self) -> (r: Self)
        ensures
            same_but_field(r, self),
            r.filter.field == Field::X,
    {
        let mut s = self;
        s.filter.field = Field::X;
        s
    }

    /// The status line shown when no explicit overlay text overrides it: the
    /// frame rate when one is known, then the last control value, then one
    /// icon per filter of the chain, in chain order.
    pub fn hud_items(&self, fps: Option<u32>) -> (r: Vec<HudItem>)
        requires
            self.filters@.len() + 2 <= usize::MAX,
        ensures
            ({
                let lead: int = if fps is Some {
                    2
                } else {
                    1
                };
                &&& r@.len() == lead + self.filters@.len()
                &&& (fps matches Some(f) ==> r@[0] == HudItem::Fps(f))
                &&& r@[lead - 1] == HudItem::Level(self.parameter.spec_value() as i8)
                &&& forall|j: int|
                    0 <= j < self.filters@.len() ==> r@[lead + j] == HudItem::Icon(
                        self.filters@[j].field.spec_icon(),
                    )
            }),
    {
        let mut r: Vec<HudItem> = Vec::new();
        if let Some(f) = fps {
            r.push(HudItem::Fps(f));
        }
        r.push(HudItem::Level(self.parameter.value()));
        let ghost lead = r@.len() as int;

        let mut j: usize = 0;
        while j < self.filters.len()
            invariant
                j <= self.filters@.len(),
                lead >= 1,
                r@.len() == lead + j,
                fps is Some ==> lead == 2 && r@[0] == HudItem::Fps(fps->0),
                fps is None ==> lead == 1,
                r@[lead - 1] == HudItem::Level(self.parameter.spec_value() as i8),
                forall|k: int|
                    0 <= k < j ==> r@[lead + k] == HudItem::Icon(
                        self.filters@[k].field.spec_icon(),
                    ),
            decreases self.filters@.len() - j,
        {
            let icon = self.filters[j].field.icon();
            r.push(HudItem::Icon(icon));
            j += 1;
        }
        r
    }
}

} // verus!
