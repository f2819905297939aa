//! The notes editor's text model: the lines that key events build up,
//! and which of them fit in the window.
use vstd::prelude::*;

use crate::apps::surface::SurfaceEvent;
use crate::text::{string_from_chars, strings_view};

verus! {

/// A line longer than this many characters is full: the next typed
/// character starts a new line.
pub const NOTES_LINE_LIMIT: usize = 30;

/// The lines after one event: a typed character goes at the end of the
/// last line, after starting a new line when the last one is full;
/// Backspace drops the last character of the last line; Enter starts a
/// new empty line; a close request changes nothing.
pub open spec fn spec_lines_after(ls: Seq<Seq<char>>, ev: SurfaceEvent) -> Seq<Seq<char>> {
    match ev {
        SurfaceEvent::Key(c) => {
            let ls1 = if ls.len() > 0 && ls.last().len() > 30 {
                ls.push(Seq::empty())
            } else {
                ls
            };
            if ls1.len() > 0 {
                ls1.update(ls1.len() - 1, ls1.last().push(c))
            } else {
                ls1
            }
        },
        SurfaceEvent::Backspace => if ls.len() > 0 && ls.last().len() > 0 {
            ls.update(ls.len() - 1, ls.last().drop_last())
        } else {
            ls
        },
        SurfaceEvent::Enter => ls.push(Seq::empty()),
        SurfaceEvent::CloseRequested => ls,
    }
}

/// How many lines a window of the given height shows: one per 24 pixels
/// below a 90-pixel header and footer.
pub open spec fn spec_visible_lines(height: u32) -> int {
    (if height < 90 {
        0
    } else {
        height - 90
    }) / 24
}

/// The first line shown: the newest lines are the ones that fit.
pub open spec fn spec_first_visible(line_count: int, height: u32) -> int {
    if line_count < spec_visible_lines(height) {
        0
    } else {
        line_count - spec_visible_lines(height)
    }
}

/// The index of the first line a window of the given height shows.
pub fn first_visible_line(line_count: usize, height: u32) -> (r: usize)
    ensures
        r == spec_first_visible(line_count as int, height),
{
    let visible: u32 = height.saturating_sub(90) / 24;
    line_count.saturating_sub(visible as usize)
}

/// The lines of the notes editor.
pub struct NotesBuffer {
    lines: Vec<Vec<char>>,
}

/// The characters of each line.
pub open spec fn lines_view(ls: Seq<Vec<char>>) -> Seq<Seq<char>> {
    ls.map_values(|l: Vec<char>| l@)
}

impl View for NotesBuffer {
    type V = Seq<Seq<char>>;

    closed spec fn view(&self) -> Seq<Seq<char>> {
        lines_view(self.lines@)
    }
}

impl NotesBuffer {
    /// A buffer holding one empty line.
    pub fn new() -> (b: Self)
        ensures
            b@ == seq![Seq::<char>::empty()],
    {
        let mut lines: Vec<Vec<char>> = Vec::new();
        lines.push(Vec::new());
        let b = NotesBuffer { lines };
        assert(b@ =~= seq![Seq::<char>::empty()]);
        b
    }

    /// Applies one shell event; returns whether the window stays open
    /// (false exactly for a close request).
    pub fn apply(&mut self, ev: SurfaceEvent) -> (open: bool)
        ensures
            final(self)@ == spec_lines_after(old(self)@, ev),
            open == !(ev is CloseRequested),
    {
        let ghost before = lines_view(self.lines@);
        match ev {
            SurfaceEvent::Key(c) => {
                let n = self.lines.len();
                if n > 0 && self.lines[n - 1].len() > NOTES_LINE_LIMIT {
                    self.lines.push(Vec::new());
                }
                let ghost mid = lines_view(self.lines@);
                assert(mid =~= (if before.len() > 0 && before.last().len() > 30 {
                    before.push(Seq::empty())
                } else {
                    before
                }));
                match self.lines.pop() {
                    Some(mut last) => {
                        last.push(c);
                        self.lines.push(last);
                        assert(lines_view(self.lines@) =~= mid.update(mid.len() - 1, mid.last().push(c)));
                    },
                    None => {},
                }
                true
            },
            SurfaceEvent::Backspace => {
                match self.lines.pop() {
                    Some(mut last) => {
                        if last.len() > 0 {
                            last.pop();
                        }
                        self.lines.push(last);
                        proof {
                            if before.last().len() > 0 {
                                assert(lines_view(self.lines@) =~= before.update(
                                    before.len() - 1,
                                    before.last().drop_last(),
                                ));
                            } else {
                                assert(lines_view(self.lines@) =~= before);
                            }
                        }
                    },
                    None => {},
                }
                true
            },
            SurfaceEvent::Enter => {
                self.lines.push(Vec::new());
                assert(lines_view(self.lines@) =~= before.push(Seq::empty()));
                true
            },
            SurfaceEvent::CloseRequested => false,
        }
    }

    /// The number of lines.
    pub fn line_count(&self) -> (n: usize)
        ensures
            n == self@.len(),
    {
        self.lines.len()
    }

    /// The lines as strings, oldest first.
    pub fn lines(&self) -> (r: Vec<String>)
        ensures
            strings_view(r@) == self@,
    {
        let mut r: Vec<String> = Vec::new();
        let mut i: usize = 0;
        while i < self.lines.len()
            invariant
                i <= self.lines@.len(),
                r@.len() == i,
                forall|j: int| 0 <= j < i ==> r@[j]@ == self.lines@[j]@,
            decreases self.lines@.len() - i,
        {
            r.push(string_from_chars(self.lines[i].as_slice()));
            i += 1;
        }
        assert(strings_view(r@) =~= lines_view(self.lines@));
        r
    }
}

} // verus!
