//! Screen geometry: where the four columns and the text box sit, and how
//! much room each one has.

use vstd::prelude::*;

use crate::input::Context;

verus! {

/// Right edge of the workspace column on a screen of width `x`.
pub open spec fn spec_col1(x: int) -> int {
    if x / 5 > 25 {
        25
    } else {
        x / 5
    }
}

/// Right edge of the category column on a screen of width `x`.
pub open spec fn spec_col2(x: int) -> int {
    if x * 2 / 5 > 50 {
        50
    } else {
        x * 2 / 5
    }
}

/// Right edge of the channel column on a screen of width `x`.
pub open spec fn spec_col3(x: int) -> int {
    if x * 3 / 5 > 75 {
        75
    } else {
        x * 3 / 5
    }
}

/// Height cap of the text box on a screen of height `y`.
pub open spec fn spec_box_len(y: int) -> int {
    let v = if y / 2 > 15 {
        15
    } else {
        y / 2
    };
    if v < 1 {
        1
    } else {
        v
    }
}

/// The layout of the terminal: column borders, the line splitting the
/// message area from the text box, and the focused column.
#[derive(Clone, Copy)]
pub struct Grid {
    pub start_y: usize,
    pub border_y: usize,
    pub end_y: usize,
    /// Maximum height of the text box.
    pub max_box_len: usize,
    /// Beginning of the screen; the workspace column starts here.
    pub start_x: usize,
    /// Workspace column ends, category column begins.
    pub border_1: usize,
    /// Category column ends, channel column begins.
    pub border_2: usize,
    /// Channel column ends, message column begins.
    pub border_3: usize,
    /// Message column ends; right edge of the screen.
    pub end_x: usize,
    pub context: Context,
}

impl Grid {
    /// The width of the message column.
    pub open spec fn spec_len_messages(&self) -> int {
        self.end_x - self.border_3
    }

    /// Horizontal sanity: the columns sit in order and every column,
    /// the message column included, is at least one cell wide.
    pub open spec fn wf(&self) -> bool {
        &&& self.start_x == 0
        &&& self.start_y == 0
        &&& self.border_1 <= self.border_2
        &&& self.border_2 <= self.border_3
        &&& self.border_3 < self.end_x
        &&& self.max_box_len >= 1
    }

    /// The borders cut the width in order and leave the message column room.
    proof fn lemma_cols_ordered(x: int)
        requires
            x >= 1,
        ensures
            0 <= spec_col1(x) <= spec_col2(x) <= spec_col3(x) < x,
    {
        assert(x / 5 <= x * 2 / 5 <= x * 3 / 5 < x) by (nonlinear_arith)
            requires
                x >= 1,
        ;
    }

    fn columns(max_x: usize) -> (r: (usize, usize, usize))
        requires
            max_x >= 1,
        ensures
            r.0 == spec_col1(max_x as int),
            r.1 == spec_col2(max_x as int),
            r.2 == spec_col3(max_x as int),
            r.0 <= r.1 <= r.2 < max_x,
    {
        proof {
            Self::lemma_cols_ordered(max_x as int);
        }
        let b1: usize = max_x / 5;
        let b1: usize = if b1 > 25 { 25 } else { b1 };
        let b2: usize = ((max_x as u128) * 2 / 5) as usize;
        let b2: usize = if b2 > 50 { 50 } else { b2 };
        let b3: usize = ((max_x as u128) * 3 / 5) as usize;
        let b3: usize = if b3 > 75 { 75 } else { b3 };
        (b1, b2, b3)
    }

    fn box_cap(max_y: usize) -> (r: usize)
        ensures
            r == spec_box_len(max_y as int),
    {
        let mbl: usize = max_y / 2;
        let mbl: usize = if mbl > 15 { 15 } else { mbl };
        if mbl < 1 { 1 } else { mbl }
    }

    pub fn new(max_x: usize, max_y: usize) -> (r: Grid)
        requires
            max_x >= 1,
            max_y >= 1,
        ensures
            r.wf(),
            r.border_y == max_y - 1,
            r.end_y == max_y,
            r.end_x == max_x,
            r.max_box_len == spec_box_len(max_y as int),
            r.border_1 == spec_col1(max_x as int),
            r.border_2 == spec_col2(max_x as int),
            r.border_3 == spec_col3(max_x as int),
            r.context is Server,
    {
        let (b1, b2, b3) = Self::columns(max_x);
        Grid {
            start_y: 0,
            border_y: max_y - 1,
            end_y: max_y,
            max_box_len: Self::box_cap(max_y),
            start_x: 0,
            border_1: b1,
            border_2: b2,
            border_3: b3,
            end_x: max_x,
            context: Context::Server,
        }
    }

    pub fn len_servers(&self) -> (r: usize)
        ensures
            r == self.border_1,
    {
        self.border_1
    }

    pub fn len_categories(&self) -> (r: usize)
        requires
            self.wf(),
        ensures
            r == self.border_2 - self.border_1,
    {
        self.border_2 - self.border_1
    }

    pub fn len_channels(&self) -> (r: usize)
        requires
            self.wf(),
        ensures
            r == self.border_3 - self.border_2,
    {
        self.border_3 - self.border_2
    }

    pub fn len_messages(&self) -> (r: usize)
        requires
            self.wf(),
        ensures
            r == self.end_x - self.border_3,
            r >= 1,
    {
        self.end_x - self.border_3
    }

    pub fn height(&self) -> (r: usize)
        requires
            self.start_y <= self.border_y,
        ensures
            r == self.border_y - self.start_y,
    {
        self.border_y - self.start_y
    }

    pub fn set_lines(&mut self, lines: usize)
        requires
            lines <= old(self).end_y,
        ensures
            *final(self) == (Grid { border_y: (old(self).end_y - lines) as usize, ..*old(self) }),
    {
        self.border_y = self.end_y - lines;
    }

    pub fn servers_selected(&self) -> (r: bool)
        ensures
            r == (self.context is Server),
    {
        matches!(self.context, Context::Server)
    }

    pub fn categories_selected(&self) -> (r: bool)
        ensures
            r == (self.context is Category),
    {
        matches!(self.context, Context::Category)
    }

    pub fn channels_selected(&self) -> (r: bool)
        ensures
            r == (self.context is Channel),
    {
        matches!(self.context, Context::Channel)
    }

    pub fn messages_selected(&self) -> (r: bool)
        ensures
            r == (self.context is Message),
    {
        matches!(self.context, Context::Message)
    }

    pub fn total_across(&self) -> (r: usize)
        requires
            self.start_x <= self.end_x,
        ensures
            r == self.end_x - self.start_x,
    {
        self.end_x - self.start_x
    }

    /// Recomputes the layout after a resize; the text box keeps `lines`
    /// rows measured from the bottom edge that was current before the call.
    pub fn update(&mut self, lines: usize, max_y: usize, max_x: usize)
        requires
            lines <= old(self).end_y,
            old(self).start_x <= old(self).end_x,
            max_x >= 1,
        ensures
            final(self).wf() || old(self).start_x != 0 || old(self).start_y != 0,
            final(self).border_y == old(self).end_y - lines,
            final(self).end_y == max_y,
            final(self).end_x == max_x,
            final(self).max_box_len == spec_box_len(max_y as int),
            final(self).border_1 == spec_col1(max_x as int),
            final(self).border_2 == spec_col2(max_x as int),
            final(self).border_3 == spec_col3(max_x as int),
            final(self).start_y == old(self).start_y,
            final(self).start_x == old(self).start_x,
            final(self).context == old(self).context,
    {
        self.border_y = self.end_y - lines;
        self.end_y = max_y;
        self.max_box_len = Self::box_cap(max_y);
        let (b1, b2, b3) = Self::columns(max_x);
        self.border_1 = b1;
        self.border_2 = b2;
        self.border_3 = b3;
        self.end_x = max_x;
    }

    pub fn update_msg(&mut self, lines: usize)
        requires
            lines <= old(self).end_y,
        ensures
            *final(self) == (Grid { border_y: (old(self).end_y - lines) as usize, ..*old(self) }),
    {
        self.border_y = self.end_y - lines;
    }
}

} // verus!
