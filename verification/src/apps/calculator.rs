//! The calculator's display model: what the display holds as the shell
//! delivers key events, and the characters the panel paints from it.
use vstd::prelude::*;

use crate::apps::surface::SurfaceEvent;
use crate::text::string_from_chars;

verus! {

/// How many characters of the display the panel paints.
pub const CALCULATOR_SHOWN_CHARS: usize = 9;

/// The display after one event: a typed character replaces a lone `0`
/// and is appended otherwise; Backspace drops the last character and
/// falls back to `0` when nothing is left; Enter resets to `0`; a close
/// request leaves the display as it is.
pub open spec fn spec_display_after(d: Seq<char>, ev: SurfaceEvent) -> Seq<char> {
    match ev {
        SurfaceEvent::Key(c) => if d == seq!['0'] {
            seq![c]
        } else {
            d.push(c)
        },
        SurfaceEvent::Backspace => {
            let rest = if d.len() > 0 {
                d.drop_last()
            } else {
                d
            };
            if rest.len() == 0 {
                seq!['0']
            } else {
                rest
            }
        },
        SurfaceEvent::Enter => seq!['0'],
        SurfaceEvent::CloseRequested => d,
    }
}

/// The characters the panel paints: the last (at most nine) characters
/// of the display, last one first.
pub open spec fn spec_display_shown(d: Seq<char>) -> Seq<char> {
    let n: int = if d.len() < 9 {
        d.len() as int
    } else {
        9
    };
    Seq::new(n as nat, |i: int| d[d.len() - 1 - i])
}

/// The text of the calculator display.
pub struct CalculatorDisplay {
    chars: Vec<char>,
}

impl View for CalculatorDisplay {
    type V = Seq<char>;

    closed spec fn view(&self) -> Seq<char> {
        self.chars@
    }
}

impl CalculatorDisplay {
    /// A display showing `0`.
    pub fn new() -> (d: Self)
        ensures
            d@ == seq!['0'],
    {
        let mut chars: Vec<char> = Vec::new();
        chars.push('0');
        CalculatorDisplay { chars }
    }

    /// Applies one shell event; returns whether the window stays open
    /// (false exactly for a close request).
    pub fn apply(&mut self, ev: SurfaceEvent) -> (open: bool)
        ensures
            final(self)@ == spec_display_after(old(self)@, ev),
            open == !(ev is CloseRequested),
    {
        match ev {
            SurfaceEvent::Key(c) => {
                if self.chars.len() == 1 && self.chars[0] == '0' {
                    self.chars.clear();
                    assert(old(self)@ =~= seq!['0']);
                }
                self.chars.push(c);
                true
            },
            SurfaceEvent::Backspace => {
                if self.chars.len() > 0 {
                    self.chars.pop();
                }
                if self.chars.len() == 0 {
                    self.chars.push('0');
                }
                true
            },
            SurfaceEvent::Enter => {
                self.chars.clear();
                self.chars.push('0');
                true
            },
            SurfaceEvent::CloseRequested => false,
        }
    }

    /// The display's text.
    pub fn text(&self) -> (s: String)
        ensures
            s@ == self@,
    {
        string_from_chars(self.chars.as_slice())
    }

    /// The characters the panel paints, in painting order.
    pub fn shown(&self) -> (s: String)
        ensures
            s@ == spec_display_shown(self@),
    {
        let n = self.chars.len();
        let mut out: Vec<char> = Vec::new();
        let mut i: usize = 0;
        while i < n && i < CALCULATOR_SHOWN_CHARS
            invariant
                n == self.chars@.len(),
                i <= n,
                i <= CALCULATOR_SHOWN_CHARS,
                out@.len() == i,
                forall|j: int| 0 <= j < i ==> out@[j] == self.chars@[n - 1 - j],
            decreases n - i,
        {
            out.push(self.chars[n - 1 - i]);
            i += 1;
        }
        assert(out@ =~= spec_display_shown(self@));
        string_from_chars(out.as_slice())
    }
}

} // verus!
