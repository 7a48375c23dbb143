use vstd::prelude::*;
use vstd::string::StringExecFns;

use crate::utils::push_char;

verus! {

/// The eight base terminal colors, numbered as the terminal driver numbers
/// them.
pub const COLOR_BLACK: i16 = 0;

pub const COLOR_RED: i16 = 1;

pub const COLOR_GREEN: i16 = 2;

pub const COLOR_YELLOW: i16 = 3;

pub const COLOR_BLUE: i16 = 4;

pub const COLOR_MAGENTA: i16 = 5;

pub const COLOR_CYAN: i16 = 6;

pub const COLOR_WHITE: i16 = 7;

/// One positioned run of text, with the foreground and background color it
/// should be painted in. Coordinates are kept wide so that a component placed
/// near the edge of the coordinate space can still describe rows below or
/// beside its origin.
pub struct DrawCommand {
    pub x: i64,
    pub y: i64,
    pub fg_color: i16,
    pub bg_color: i16,
    pub text: String,
}

/// Matches a command field by field, with the text compared as characters.
pub open spec fn cmd_is(c: DrawCommand, x: int, y: int, fg: i16, bg: i16, text: Seq<char>) -> bool {
    &&& c.x == x
    &&& c.y == y
    &&& c.fg_color == fg
    &&& c.bg_color == bg
    &&& c.text@ == text
}

/// A frame's worth of draw output: the ordered list of text runs that the
/// components asked for, oldest first. The form fills one per frame; whatever
/// drives the terminal replays the commands onto the screen in order.
pub struct Surface {
    commands: Vec<DrawCommand>,
}

impl View for Surface {
    type V = Seq<DrawCommand>;

    closed spec fn view(&self) -> Seq<DrawCommand> {
        self.commands@
    }
}

impl Surface {
    /// Creates an empty surface.
    pub fn new() -> (s: Surface)
        ensures
            s@ == Seq::<DrawCommand>::empty(),
    {
        Surface { commands: Vec::new() }
    }

    /// Discards every pending command.
    pub fn clear(&mut self)
        ensures
            final(self)@ == Seq::<DrawCommand>::empty(),
    {
        self.commands.clear();
    }

    /// Appends one text run.
    pub fn put(&mut self, x: i64, y: i64, fg_color: i16, bg_color: i16, text: String)
        ensures
            final(self)@ == old(self)@.push(
                DrawCommand { x, y, fg_color, bg_color, text },
            ),
    {
        self.commands.push(DrawCommand { x, y, fg_color, bg_color, text });
    }

    /// The pending commands, oldest first.
    pub fn commands(&self) -> (r: &Vec<DrawCommand>)
        ensures
            r@ == self@,
    {
        &self.commands
    }

    /// How many commands are pending.
    pub fn len(&self) -> (n: usize)
        ensures
            n == self@.len(),
    {
        self.commands.len()
    }
}

/// `n` copies of `fill` between the end caps `left` and `right`.
pub open spec fn framed_row(left: char, fill: char, n: nat, right: char) -> Seq<char> {
    seq![left] + Seq::new(n, |i: int| fill) + seq![right]
}

/// Builds a row of `n` copies of `fill` between `left` and `right`.
pub(crate) fn build_framed_row(left: char, fill: char, n: usize, right: char) -> (r: String)
    ensures
        r@ == framed_row(left, fill, n as nat, right),
{
    let mut row = String::new();
    push_char(&mut row, left);
    proof {
        assert(row@ =~= seq![left] + Seq::new(0, |k: int| fill));
    }
    let mut i: usize = 0;
    while i < n
        invariant
            i <= n,
            row@ == seq![left] + Seq::new(i as nat, |k: int| fill),
        decreases n - i,
    {
        push_char(&mut row, fill);
        proof {
            assert(row@ =~= seq![left] + Seq::new((i + 1) as nat, |k: int| fill));
        }
        i += 1;
    }
    push_char(&mut row, right);
    proof {
        assert(row@ =~= framed_row(left, fill, n as nat, right));
    }
    row
}

/// Builds `left`, then the characters of `content`, then `right`.
pub(crate) fn build_framed_text(left: char, content: &str, right: char) -> (r: String)
    ensures
        r@ == seq![left] + content@ + seq![right],
{
    let mut row = String::new();
    push_char(&mut row, left);
    row.append(content);
    push_char(&mut row, right);
    proof {
        assert(row@ =~= seq![left] + content@ + seq![right]);
    }
    row
}

/// Builds `left`, then the characters of `content`, then `n` copies of
/// `fill`, then `right`.
pub(crate) fn build_labeled_row(
    left: char,
    content: &str,
    fill: char,
    n: usize,
    right: char,
) -> (r: String)
    ensures
        r@ == seq![left] + content@ + Seq::new(n as nat, |i: int| fill) + seq![right],
{
    let mut row = String::new();
    push_char(&mut row, left);
    row.append(content);
    proof {
        assert(row@ =~= seq![left] + content@ + Seq::new(0, |k: int| fill));
    }
    let mut i: usize = 0;
    while i < n
        invariant
            i <= n,
            row@ == seq![left] + content@ + Seq::new(i as nat, |k: int| fill),
        decreases n - i,
    {
        push_char(&mut row, fill);
        proof {
            assert(row@ =~= seq![left] + content@ + Seq::new((i + 1) as nat, |k: int| fill));
        }
        i += 1;
    }
    push_char(&mut row, right);
    proof {
        assert(row@ =~= seq![left] + content@ + Seq::new(n as nat, |i: int| fill) + seq![right]);
    }
    row
}

} // verus!
