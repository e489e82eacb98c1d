//! The screen buffer: a fixed-size character grid in row-major layout
//! with clipped writes. A write whose target index falls at or beyond
//! the buffer's total cell count is silently dropped; it never wraps
//! around past the end and never touches storage outside the buffer.

use vstd::prelude::*;

verus! {

/// A mutable width x height character grid, stored row-major.
pub struct Screen {
    width: usize,
    height: usize,
    cells: Vec<char>,
}

/// The cells after writing `text` left-to-right from flat index
/// `offset`: every character whose target index fits inside the buffer
/// lands there, the rest are dropped.
pub open spec fn written(cells: Seq<char>, offset: int, text: Seq<char>) -> Seq<char> {
    Seq::new(
        cells.len(),
        |k: int|
            if offset <= k < offset + text.len() {
                text[k - offset]
            } else {
                cells[k]
            },
    )
}

impl View for Screen {
    type V = Seq<char>;

    closed spec fn view(&self) -> Seq<char> {
        self.cells@
    }
}

impl Screen {
    pub closed spec fn width_spec(&self) -> int {
        self.width as int
    }

    pub closed spec fn height_spec(&self) -> int {
        self.height as int
    }

    /// The backing storage holds exactly one character per cell.
    pub open spec fn wf(&self) -> bool {
        self@.len() == self.width_spec() * self.height_spec()
    }

    /// A buffer of blank characters.
    pub fn new(width: usize, height: usize) -> (s: Screen)
        requires
            width * height <= usize::MAX,
        ensures
            s.wf(),
            s.width_spec() == width,
            s.height_spec() == height,
            s@ == Seq::new((width * height) as nat, |k: int| ' '),
    {
        let total = width * height;
        let mut cells: Vec<char> = Vec::new();
        let mut i: usize = 0;
        while i < total
            invariant
                i <= total,
                cells@.len() == i,
                forall|k: int| 0 <= k < i ==> cells@[k] == ' ',
            decreases total - i,
        {
            cells.push(' ');
            i += 1;
        }
        let s = Screen { width, height, cells };
        proof {
            assert(s@ =~= Seq::new((width * height) as nat, |k: int| ' '));
        }
        s
    }

    pub fn width(&self) -> (r: usize)
        ensures
            r == self.width_spec(),
    {
        self.width
    }

    pub fn height(&self) -> (r: usize)
        ensures
            r == self.height_spec(),
    {
        self.height
    }

    /// The backing storage, for serialization by a caller.
    pub fn cells(&self) -> (r: &Vec<char>)
        ensures
            r@ == self@,
    {
        &self.cells
    }

    /// Writes one character at column `x` of row `y`; a target outside
    /// the backing storage is silently dropped.
    pub fn put(&mut self, x: usize, y: usize, c: char)
        requires
            old(self).wf(),
        ensures
            final(self).wf(),
            final(self).width_spec() == old(self).width_spec(),
            final(self).height_spec() == old(self).height_spec(),
            final(self)@ == written(old(self)@, y * old(self).width_spec() + x, seq![c]),
    {
        if self.width == 0 || y >= self.height {
            proof {
                assert(self@.len() == 0 || y * self.width_spec() + x >= self@.len())
                    by (nonlinear_arith)
                    requires
                        self@.len() == self.width_spec() * self.height_spec(),
                        self.width_spec() == 0 || y >= self.height_spec(),
                        self.width_spec() >= 0,
                        self.height_spec() >= 0,
                        x >= 0,
                        y >= 0,
                ;
                assert(self@ =~= written(self@, y * self.width_spec() + x, seq![c]));
            }
            return ;
        }
        proof {
            assert(y * self.width_spec() + self.width_spec() <= self@.len())
                by (nonlinear_arith)
                requires
                    self@.len() == self.width_spec() * self.height_spec(),
                    y < self.height_spec(),
                    self.width_spec() >= 0,
                    y >= 0,
            ;
        }
        let total = self.cells.len();
        let base = y * self.width;
        if x >= total - base {
            proof {
                assert(self@ =~= written(self@, y * self.width_spec() + x, seq![c]));
            }
            return ;
        }
        let idx = base + x;
        self.cells[idx] = c;
        proof {
            assert(self@ =~= written(old(self)@, y * old(self).width_spec() + x, seq![c]));
        }
    }

    /// Writes the characters of `text` left-to-right starting at
    /// column `x` of row `y` in the row-major buffer; any character
    /// whose target index falls at or beyond the buffer's total cell
    /// count is silently dropped, with no wraparound past the end.
    pub fn draw(&mut self, x: usize, y: usize, text: &str)
        requires
            old(self).wf(),
        ensures
            final(self).wf(),
            final(self).width_spec() == old(self).width_spec(),
            final(self).height_spec() == old(self).height_spec(),
            final(self)@ == written(old(self)@, y * old(self).width_spec() + x, text@),
    {
        if self.width == 0 || y >= self.height {
            proof {
                assert(self@.len() == 0 || y * self.width_spec() + x >= self@.len())
                    by (nonlinear_arith)
                    requires
                        self@.len() == self.width_spec() * self.height_spec(),
                        self.width_spec() == 0 || y >= self.height_spec(),
                        self.width_spec() >= 0,
                        self.height_spec() >= 0,
                        x >= 0,
                        y >= 0,
                ;
                assert(self@ =~= written(self@, y * self.width_spec() + x, text@));
            }
            return ;
        }
        proof {
            assert(y * self.width_spec() + self.width_spec() <= self@.len())
                by (nonlinear_arith)
                requires
                    self@.len() == self.width_spec() * self.height_spec(),
                    y < self.height_spec(),
                    self.width_spec() >= 0,
                    y >= 0,
            ;
        }
        let total = self.cells.len();
        let base = y * self.width;
        if x >= total - base {
            proof {
                assert(self@ =~= written(self@, y * self.width_spec() + x, text@));
            }
            return ;
        }
        let offset = base + x;
        let room = total - offset;
        let n = text.unicode_len();
        let limit = if n < room {
            n
        } else {
            room
        };
        let mut i: usize = 0;
        while i < limit
            invariant
                i <= limit,
                limit <= text@.len(),
                offset + limit <= self@.len(),
                offset + limit <= usize::MAX,
                self.wf(),
                self.width_spec() == old(self).width_spec(),
                self.height_spec() == old(self).height_spec(),
                self@.len() == old(self)@.len(),
                offset == y * old(self).width_spec() + x,
                forall|k: int|
                    0 <= k < self@.len() ==> #[trigger] self@[k] == if offset <= k < offset + i {
                        text@[k - offset]
                    } else {
                        old(self)@[k]
                    },
            decreases limit - i,
        {
            let c = text.get_char(i);
            self.cells[offset + i] = c;
            i += 1;
        }
        proof {
            assert(self@ =~= written(old(self)@, y * old(self).width_spec() + x, text@));
        }
    }
}

} // verus!
