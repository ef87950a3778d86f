//! Per-user and per-label colors, rendered as ANSI escape sequences.

use vstd::prelude::*;

use crate::ansi;
use crate::text::{dec_string, spec_dec};

verus! {

/// A color of the 6x6x6 terminal cube; every component stays below 6.
#[derive(Clone, Copy)]
pub struct Color {
    pub red: usize,
    pub blue: usize,
    pub green: usize,
}

impl Color {
    pub open spec fn wf(&self) -> bool {
        self.red < 6 && self.blue < 6 && self.green < 6
    }

    /// The cube index the terminal understands, offset by the 16 base colors.
    pub open spec fn spec_code(&self) -> int {
        16 + self.blue + self.green * 6 + self.red * 36
    }

    pub fn new() -> (r: Color)
        ensures
            r.wf(),
            r.red == 5 && r.blue == 5 && r.green == 5,
            r.spec_code() == 16 + 5 + 5 * 6 + 5 * 36,
    {
        Color { red: 5, blue: 5, green: 5 }
    }

    /// The escape sequence selecting this color: `ESC [38;5;<code>m`.
    pub fn to_ansi_value(&self) -> (r: String)
        requires
            self.wf(),
        ensures
            r@ == seq!['\u{001b}', '[', '3', '8', ';', '5', ';'] + spec_dec(self.spec_code())
                + seq!['m'],
    {
        let code: usize = 16 + self.blue + self.green * 6 + self.red * 36;
        let mut s = String::new();
        s.append("\u{001b}[38;5;");
        let digits = dec_string(code as u64);
        s.append(digits.as_str());
        s.append("m");
        proof {
            reveal_strlit("\u{001b}[38;5;");
            reveal_strlit("m");
        }
        s
    }

    /// Steps the red component, wrapping from 5 back to 0.
    pub fn red(&mut self)
        requires
            old(self).wf(),
        ensures
            final(self).wf(),
            final(self).red == if old(self).red == 5 { 0int } else { old(self).red + 1 },
            final(self).blue == old(self).blue,
            final(self).green == old(self).green,
    {
        self.red = self.red + 1;
        if self.red == 6 {
            self.red = 0;
        }
    }

    /// Steps the blue component, wrapping from 5 back to 0.
    pub fn blue(&mut self)
        requires
            old(self).wf(),
        ensures
            final(self).wf(),
            final(self).blue == if old(self).blue == 5 { 0int } else { old(self).blue + 1 },
            final(self).red == old(self).red,
            final(self).green == old(self).green,
    {
        self.blue = self.blue + 1;
        if self.blue == 6 {
            self.blue = 0;
        }
    }

    /// Steps the green component, wrapping from 5 back to 0.
    pub fn green(&mut self)
        requires
            old(self).wf(),
        ensures
            final(self).wf(),
            final(self).green == if old(self).green == 5 { 0int } else { old(self).green + 1 },
            final(self).red == old(self).red,
            final(self).blue == old(self).blue,
    {
        self.green = self.green + 1;
        if self.green == 6 {
            self.green = 0;
        }
    }
}

/// A label color: one of the rotating foreground colors, possibly bold.
#[derive(Clone, Copy)]
pub struct SimpleColor {
    pub color: usize,
    pub bold: bool,
}

impl SimpleColor {
    pub open spec fn wf(&self) -> bool {
        self.color < ansi::COLOR_COUNT
    }

    pub open spec fn spec_color(&self) -> int {
        self.color as int
    }

    pub open spec fn spec_bold(&self) -> bool {
        self.bold
    }

    pub fn new() -> (r: SimpleColor)
        ensures
            r.wf(),
            r.spec_color() == 0,
            !r.spec_bold(),
    {
        SimpleColor { color: 0, bold: false }
    }

    /// The escape sequence: the rotating color, then bold when selected.
    pub fn to_ansi_value(&self) -> (r: String)
        requires
            self.wf(),
        ensures
            r@ == ansi::spec_color_code(self.color as int) + if self.bold {
                ansi::HIGH_INTENSITY@
            } else {
                Seq::<char>::empty()
            },
    {
        let mut s = String::new();
        s.append(ansi::color_code(self.color));
        if self.bold {
            s.append(ansi::HIGH_INTENSITY);
        }
        s
    }

    /// Steps to the next rotating color, wrapping at the end of the palette.
    pub fn switch_color(&mut self)
        requires
            old(self).wf(),
        ensures
            final(self).wf(),
            final(self).spec_color() == if old(self).color + 1 >= ansi::COLOR_COUNT {
                0int
            } else {
                old(self).color + 1
            },
            final(self).spec_bold() == old(self).spec_bold(),
    {
        self.color = self.color + 1;
        if self.color >= ansi::COLOR_COUNT {
            self.color = 0;
        }
    }

    pub fn select(&mut self)
        ensures
            *final(self) == (SimpleColor { bold: true, ..*old(self) }),
    {
        self.bold = true;
    }

    pub fn deselect(&mut self)
        ensures
            *final(self) == (SimpleColor { bold: false, ..*old(self) }),
    {
        self.bold = false;
    }

    pub fn toggle(&mut self)
        ensures
            *final(self) == (SimpleColor { bold: !old(self).bold, ..*old(self) }),
    {
        self.bold = !self.bold;
    }
}

} // verus!
