//! Boxes and sections: the lines that frame what is shown.
use crate::text::{from_chars, to_chars};
use vstd::prelude::*;
use vstd::string::*;

verus! {

/// The width of a box, its two sides counted.
pub const BOX_WIDTH: usize = 56;

/// The width of what stands between the two sides of a box.
pub const BOX_CONTENT_WIDTH: usize = 54;

/// `n` times the character `c`.
pub open spec fn repeated(c: char, n: nat) -> Seq<char> {
    Seq::new(n, |i: int| c)
}

/// The upper edge of a box.
pub open spec fn box_top() -> Seq<char> {
    seq!['╔'] + repeated('═', BOX_CONTENT_WIDTH as nat) + seq!['╗']
}

/// The lower edge of a box.
pub open spec fn box_bottom() -> Seq<char> {
    seq!['╚'] + repeated('═', BOX_CONTENT_WIDTH as nat) + seq!['╝']
}

/// The line of a box that holds its title: the title in the middle, with the
/// odd blank on the right, or the start of the title where it is too long to
/// fit.
pub open spec fn box_title(title: Seq<char>) -> Seq<char> {
    if title.len() >= BOX_CONTENT_WIDTH {
        seq!['║'] + title.take(BOX_CONTENT_WIDTH as int) + seq!['║']
    } else {
        let padding = BOX_CONTENT_WIDTH - title.len();
        let left = padding / 2;
        seq!['║'] + repeated(' ', left as nat) + title + repeated(' ', (padding - left) as nat)
            + seq!['║']
    }
}

/// The line that opens a section.
pub open spec fn section_header(title: Seq<char>) -> Seq<char> {
    seq!['┌', '─', ' '] + title
}

/// The line that closes a section.
pub open spec fn section_footer() -> Seq<char> {
    seq!['└'] + repeated('─', (BOX_CONTENT_WIDTH - 1) as nat)
}

fn push_repeated(line: &mut Vec<char>, c: char, n: usize)
    ensures
        final(line)@ == old(line)@ + repeated(c, n as nat),
{
    let mut i: usize = 0;
    while i < n
        invariant
            i <= n,
            line@ == old(line)@ + repeated(c, i as nat),
        decreases n - i,
    {
        line.push(c);
        i += 1;
    }
}

fn push_all(line: &mut Vec<char>, chars: &Vec<char>, n: usize)
    requires
        n <= chars.len(),
    ensures
        final(line)@ == old(line)@ + chars@.take(n as int),
{
    let mut i: usize = 0;
    while i < n
        invariant
            i <= n <= chars.len(),
            line@ == old(line)@ + chars@.take(i as int),
        decreases n - i,
    {
        line.push(chars[i]);
        i += 1;
    }
}

/// The upper edge of a box.
pub fn format_box_top() -> (line: String)
    ensures
        line@ == box_top(),
{
    let mut line: Vec<char> = Vec::new();
    line.push('╔');
    push_repeated(&mut line, '═', BOX_CONTENT_WIDTH);
    line.push('╗');
    from_chars(&line)
}

/// The lower edge of a box.
pub fn format_box_bottom() -> (line: String)
    ensures
        line@ == box_bottom(),
{
    let mut line: Vec<char> = Vec::new();
    line.push('╚');
    push_repeated(&mut line, '═', BOX_CONTENT_WIDTH);
    line.push('╝');
    from_chars(&line)
}

/// The line of a box that holds its title.
pub fn format_box_title(title: &str) -> (line: String)
    ensures
        line@ == box_title(title@),
{
    let chars = to_chars(title);
    let mut line: Vec<char> = Vec::new();
    line.push('║');
    if chars.len() >= BOX_CONTENT_WIDTH {
        push_all(&mut line, &chars, BOX_CONTENT_WIDTH);
    } else {
        let padding = BOX_CONTENT_WIDTH - chars.len();
        let left = padding / 2;
        push_repeated(&mut line, ' ', left);
        push_all(&mut line, &chars, chars.len());
        push_repeated(&mut line, ' ', padding - left);
    }
    line.push('║');
    from_chars(&line)
}

/// The line that opens a section.
pub fn format_section_header(title: &str) -> (line: String)
    ensures
        line@ == section_header(title@),
{
    let chars = to_chars(title);
    let mut line: Vec<char> = Vec::new();
    line.push('┌');
    line.push('─');
    line.push(' ');
    push_all(&mut line, &chars, chars.len());
    from_chars(&line)
}

/// The line that closes a section.
pub fn format_section_footer() -> (line: String)
    ensures
        line@ == section_footer(),
{
    let mut line: Vec<char> = Vec::new();
    line.push('└');
    push_repeated(&mut line, '─', BOX_CONTENT_WIDTH - 1);
    from_chars(&line)
}

/// A box is as wide as it is meant to be, whatever its title.
pub proof fn law_box_width(title: Seq<char>)
    ensures
        box_top().len() == BOX_WIDTH,
        box_bottom().len() == BOX_WIDTH,
        box_title(title).len() == BOX_WIDTH,
{
}

} // verus!
