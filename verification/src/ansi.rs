//! ANSI escape sequences used by the styled-text builders.

use vstd::prelude::*;

verus! {

pub const RESET: &'static str = "\u{001B}[0m\u{001B}[37m\u{001B}[40m";

pub const HIGH_INTENSITY: &'static str = "\u{001B}[1m";

pub const BACKGROUND_GREY: &'static str = "\u{001b}[48;5;237m";

pub const BACKGROUND_LIGHT_GREY: &'static str = "\u{001b}[48;5;240m";

/// How many rotating foreground colors there are.
pub const COLOR_COUNT: usize = 7;

/// The escape sequence of the rotating foreground color `i`.
pub fn color_code(i: usize) -> (r: &'static str)
    requires
        i < COLOR_COUNT,
    ensures
        r@ == spec_color_code(i as int),
{
    proof {
        reveal_strlit("\u{001B}[37m");
        reveal_strlit("\u{001B}[31m");
        reveal_strlit("\u{001B}[32m");
        reveal_strlit("\u{001B}[33m");
        reveal_strlit("\u{001B}[34m");
        reveal_strlit("\u{001B}[35m");
        reveal_strlit("\u{001B}[36m");
    }
    if i == 0 {
        "\u{001B}[37m"
    } else if i == 1 {
        "\u{001B}[31m"
    } else if i == 2 {
        "\u{001B}[32m"
    } else if i == 3 {
        "\u{001B}[33m"
    } else if i == 4 {
        "\u{001B}[34m"
    } else if i == 5 {
        "\u{001B}[35m"
    } else {
        "\u{001B}[36m"
    }
}

/// White, red, green, yellow, blue, magenta, cyan: the rotation that
/// `color_code` walks through.
pub open spec fn spec_color_code(i: int) -> Seq<char> {
    let tail = if i == 0 {
        seq!['3', '7']
    } else if i == 1 {
        seq!['3', '1']
    } else if i == 2 {
        seq!['3', '2']
    } else if i == 3 {
        seq!['3', '3']
    } else if i == 4 {
        seq!['3', '4']
    } else if i == 5 {
        seq!['3', '5']
    } else {
        seq!['3', '6']
    };
    seq!['\u{001B}', '['] + tail + seq!['m']
}

} // verus!
