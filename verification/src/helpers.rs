//! Helpers shared by the systems and the user interface.

use crate::color::Color;
use crate::game::Game;
use vstd::prelude::*;
use vstd::string::StringExecFns;

verus! {

/// A number below `bound`, drawn with `Rng::gen_range` of the `rand` crate
/// from the generator that `rand::thread_rng` hands out. The number is
/// sampled from the half-open range from zero to `bound`, so it is below
/// `bound`; which number it is, is left to chance. `gen_range` panics on an
/// empty range, so `bound` must be positive. `thread_rng` panics where the
/// operating system gives the generator no seed, which no caller can rule out.
#[verifier::external_body]
fn random_below(bound: u32) -> (n: u32)
    requires
        bound > 0,
    ensures
        n < bound,
{
    rand::Rng::gen_range(&mut rand::thread_rng(), 0..bound)
}

/// A random point inside the rectangle `width` by `height`, whose corner is
/// at the origin. The rectangle must not be empty.
pub fn random_point_in_rect(width: u32, height: u32) -> (point: (u32, u32))
    requires
        width > 0,
        height > 0,
    ensures
        point.0 < width,
        point.1 < height,
{
    let x = random_below(width);
    let y = random_below(height);
    (x, y)
}

/// The name of the stat shown in row `n` of the stats panel. Rows 2 to 6 show stats.
pub open spec fn stat_name(n: u32) -> Option<Seq<char>> {
    if n == 2 {
        Some("chaos"@)
    } else if n == 3 {
        Some("solidity"@)
    } else if n == 4 {
        Some("vitality"@)
    } else if n == 5 {
        Some("haste"@)
    } else if n == 6 {
        Some("will"@)
    } else {
        None
    }
}

/// The color in which row `n` of the stats panel is written.
pub open spec fn stat_color(n: u32) -> Option<(u8, u8, u8)> {
    if n == 2 {
        Some((112u8, 36u8, 163u8))
    } else if n == 3 {
        Some((122u8, 122u8, 115u8))
    } else if n == 4 {
        Some((224u8, 65u8, 52u8))
    } else if n == 5 {
        Some((240u8, 190u8, 88u8))
    } else if n == 6 {
        Some((198u8, 38u8, 65u8))
    } else {
        None
    }
}

/// The stat of `stats` shown in row `n` of the stats panel.
pub open spec fn stat_value(stats: crate::g_properties::GPStats, n: u32) -> Option<u32> {
    if n == 2 {
        Some(stats.chaos)
    } else if n == 3 {
        Some(stats.solidity)
    } else if n == 4 {
        Some(stats.vitality)
    } else if n == 5 {
        Some(stats.haste)
    } else if n == 6 {
        Some(stats.will)
    } else {
        None
    }
}

impl Game {
    /// The player's stat shown in row `n` of the stats panel. There is none
    /// for a row that shows no stat, nor while there is no player with stats.
    pub fn get_player_stats(&mut self, n: u32) -> (value: Option<u32>)
        ensures
            *final(self) == *old(self),
            value == match old(self).gem.player_id {
                Some(pid) => if old(self).gem.stats@.contains_key(pid) {
                    stat_value(old(self).gem.stats@[pid], n)
                } else {
                    None
                },
                None => None,
            },
    {
        broadcast use vstd::std_specs::hash::group_hash_axioms;

        let pid = match self.gem.player_id {
            Some(p) => p,
            None => {
                return None;
            },
        };
        let player_stats = match self.gem.stats.get(&pid) {
            Some(s) => s,
            None => {
                return None;
            },
        };
        match n {
            2 => Some(player_stats.chaos),
            3 => Some(player_stats.solidity),
            4 => Some(player_stats.vitality),
            5 => Some(player_stats.haste),
            6 => Some(player_stats.will),
            _ => None,
        }
    }
}

/// The name of the stat shown in row `n` of the stats panel.
pub fn get_stat(n: u32) -> (name: Option<String>)
    ensures
        match stat_name(n) {
            Some(text) => name is Some && name->0@ == text,
            None => name is None,
        },
{
    match n {
        2 => Some(String::from_str("chaos")),
        3 => Some(String::from_str("solidity")),
        4 => Some(String::from_str("vitality")),
        5 => Some(String::from_str("haste")),
        6 => Some(String::from_str("will")),
        _ => None,
    }
}

/// The color in which row `n` of the stats panel is written.
pub fn get_stat_color(n: u32) -> (color: Option<(u8, u8, u8)>)
    ensures
        color == stat_color(n),
{
    match n {
        2 => {
            let epic = crate::color::epic();
            Some((epic.r, epic.g, epic.b))
        },
        3 => Some((122, 122, 115)),
        4 => Some((224, 65, 52)),
        5 => Some((240, 190, 88)),
        6 => Some((198, 38, 65)),
        _ => None,
    }
}

/// The red, green and blue of a color.
pub fn to_rgb(c: Color) -> (rgb: (u8, u8, u8))
    ensures
        rgb == (c.r, c.g, c.b),
{
    (c.r, c.g, c.b)
}

/// The line that would hold `word` too: the word alone on an empty line,
/// else the line, a space and the word.
pub open spec fn candidate_line(line: Seq<char>, word: Seq<char>) -> Seq<char> {
    if line.len() == 0 {
        word
    } else {
        line + " "@ + word
    }
}

/// The finished lines once `word` has gone to a line of its own: the line
/// before it, if it held anything, is closed with a line feed.
pub open spec fn closed_lines(wrapped: Seq<char>, line: Seq<char>) -> Seq<char> {
    if line.len() == 0 {
        wrapped
    } else {
        wrapped + line + "\n"@
    }
}

/// Wraps text greedily, a word at a time. The wrapper cannot measure text:
/// for every word it names the line that would hold the word too, and is
/// told whether that line fits.
pub struct LineWrapper {
    /// The lines that are full, each closed with a line feed.
    pub wrapped: String,
    /// The line that is being filled.
    pub line: String,
}

impl LineWrapper {
    /// A wrapper that holds no text.
    pub fn new() -> (wrapper: LineWrapper)
        ensures
            wrapper.wrapped@.len() == 0,
            wrapper.line@.len() == 0,
    {
        LineWrapper { wrapped: String::new(), line: String::new() }
    }

    /// The line to measure for `word`.
    pub fn candidate(&self, word: &str) -> (try_line: String)
        ensures
            try_line@ == candidate_line(self.line@, word@),
    {
        if self.line.as_str().is_empty() {
            String::from_str(word)
        } else {
            let mut try_line = self.line.clone();
            try_line.append(" ");
            try_line.append(word);
            try_line
        }
    }

    /// Takes `word` in. Where the line with the word fits, the word joins
    /// the line; where it does not, the line is closed and the word starts
    /// the next one.
    pub fn place(&mut self, word: &str, fits: bool)
        ensures
            final(self).line@ == if fits {
                candidate_line(old(self).line@, word@)
            } else {
                word@
            },
            final(self).wrapped@ == if fits {
                old(self).wrapped@
            } else {
                closed_lines(old(self).wrapped@, old(self).line@)
            },
    {
        if fits {
            self.line = self.candidate(word);
        } else {
            if !self.line.as_str().is_empty() {
                self.wrapped.append(self.line.as_str());
                self.wrapped.append("\n");
            }
            self.line = String::from_str(word);
        }
    }

    /// The wrapped text: the full lines, and the line that was being filled.
    pub fn finish(self) -> (text: String)
        ensures
            text@ == self.wrapped@ + self.line@,
    {
        let mut text = self.wrapped;
        if !self.line.as_str().is_empty() {
            text.append(self.line.as_str());
        }
        assert(text@ =~= self.wrapped@ + self.line@);
        text
    }
}

} // verus!
