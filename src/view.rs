use vstd::prelude::*;
use vstd::string::*;
use vstd::view::View as _;
use crate::buffer::Buffer;
use crate::editor_command::{Direction, EditorCommand};
use crate::location::Location;
use crate::terminal::{line_ops, Op, Position, Size, Terminal};

verus! {

/// The banner shown on an empty document.
pub const WELCOME_MESSAGE: &'static str = "hecto editor -- version 0.1.0";

pub open spec fn welcome_text() -> Seq<char> {
    WELCOME_MESSAGE@
}

pub open spec fn sat_sub(a: usize, b: usize) -> usize {
    if a >= b {
        (a - b) as usize
    } else {
        0
    }
}

pub open spec fn sat_add(a: usize, b: usize) -> usize {
    if a + b <= usize::MAX {
        (a + b) as usize
    } else {
        usize::MAX
    }
}

/// The welcome banner for a viewport `width` cells wide: a single space when
/// there is no room at all, a bare `~` when the message does not fit, and
/// otherwise `~`, then the padding that centres it, then the message.
pub open spec fn welcome_line(width: usize) -> Seq<char> {
    let len = welcome_text().len();
    if width == 0 {
        seq![' ']
    } else if width <= len {
        seq!['~']
    } else {
        seq!['~'] + Seq::new(((width - len - 1) / 2) as nat, |i: int| ' ') + welcome_text()
    }
}

/// The part of `line` that shows in a viewport `width` cells wide whose
/// first column is document column `from`.
pub open spec fn visible_part(line: Seq<char>, from: usize, width: usize) -> Seq<char> {
    if from >= line.len() {
        Seq::empty()
    } else if width >= line.len() - from {
        line.subrange(from as int, line.len() as int)
    } else {
        line.subrange(from as int, from + width)
    }
}

/// What screen row `row` shows: the visible part of its document line, the
/// welcome banner on row `height / 3` of an empty document, or else `~`.
pub open spec fn row_text(
    lines: Seq<Seq<char>>,
    size: Size,
    offset: Location,
    row: int,
) -> Seq<char> {
    let doc_row = offset.y + row;
    if doc_row < lines.len() {
        visible_part(lines[doc_row], offset.x, size.width)
    } else if doc_row == size.height / 3 && lines.len() == 0 {
        welcome_line(size.width)
    } else {
        seq!['~']
    }
}

/// The operations that draw screen rows `0 .. n`, top to bottom.
pub open spec fn frame_rows(
    lines: Seq<Seq<char>>,
    size: Size,
    offset: Location,
    n: nat,
) -> Seq<Op>
    decreases n,
{
    if n == 0 {
        Seq::empty()
    } else {
        frame_rows(lines, size, offset, (n - 1) as nat) + line_ops(
            (n - 1) as usize,
            row_text(lines, size, offset, n - 1),
        )
    }
}

/// One axis of scroll-into-view: the offset moves back to `p` when `p` is
/// before it, forward just far enough when `p` is at or past
/// `offset + extent`, and stays otherwise.
pub open spec fn scroll_axis(p: usize, offset: usize, extent: usize) -> usize {
    if p < offset {
        p
    } else if p - offset >= extent {
        sat_add(sat_sub(p, extent), 1)
    } else {
        offset
    }
}

/// The state that moves and resizes act on.
#[derive(Clone, Copy)]
pub struct ViewState {
    pub size: Size,
    pub location: Location,
    pub scroll_offset: Location,
    pub need_redraw: bool,
    pub line_count: usize,
}

impl ViewState {
    /// The cursor after one step in direction `dir`. Up and Left stop at 0,
    /// Down stops at the last line of the document, PageUp and Home go to the
    /// first line or column, PageDown and End to the last row or column of
    /// the viewport.
    pub open spec fn moved_location(self, dir: Direction) -> Location {
        let Location { x, y } = self.location;
        match dir {
            Direction::Up => Location { x, y: sat_sub(y, 1) },
            Direction::Down => Location { x, y: if y + 1 < self.line_count { (y + 1) as usize } else { y } },
            Direction::PageUp => Location { x, y: 0 },
            Direction::PageDown => Location { x, y: sat_sub(self.size.height, 1) },
            Direction::Left => Location { x: sat_sub(x, 1), y },
            Direction::Right => Location { x: sat_add(x, 1), y },
            Direction::Home => Location { x: 0, y },
            Direction::End => Location { x: sat_sub(self.size.width, 1), y },
        }
    }

    /// Scroll-into-view on both axes; the dirty flag is raised when the
    /// offset changed, and never lowered.
    pub open spec fn scrolled(self) -> ViewState {
        let offset = Location {
            x: scroll_axis(self.location.x, self.scroll_offset.x, self.size.width),
            y: scroll_axis(self.location.y, self.scroll_offset.y, self.size.height),
        };
        ViewState {
            scroll_offset: offset,
            need_redraw: self.need_redraw || offset != self.scroll_offset,
            ..self
        }
    }

    /// A move of the cursor followed by scroll-into-view.
    pub open spec fn moved(self, dir: Direction) -> ViewState {
        ViewState { location: self.moved_location(dir), ..self }.scrolled()
    }

    pub open spec fn resized(self, size: Size) -> ViewState {
        ViewState { size, need_redraw: true, ..self }
    }

    pub open spec fn handled(self, command: EditorCommand) -> ViewState {
        match command {
            EditorCommand::Move(dir) => self.moved(dir),
            EditorCommand::Resize(size) => self.resized(size),
            EditorCommand::Quit => self,
        }
    }

    /// Whether a render would draw: something changed and the viewport has
    /// cells.
    pub open spec fn redraw_due(self) -> bool {
        self.need_redraw && self.size.width > 0 && self.size.height > 0
    }

    /// Where the cursor shows on the screen.
    pub open spec fn screen_position(self) -> Position {
        Position {
            col: sat_sub(self.location.x, self.scroll_offset.x),
            row: sat_sub(self.location.y, self.scroll_offset.y),
        }
    }
}

/// The viewport: a document, a cursor and scroll offset in document space,
/// the terminal size, and whether the screen needs drawing again.
pub struct View {
    pub buffer: Buffer,
    size: Size,
    need_redraw: bool,
    location: Location,
    scroll_offset: Location,
}

impl View {
    pub closed spec fn state(&self) -> ViewState {
        ViewState {
            size: self.size,
            location: self.location,
            scroll_offset: self.scroll_offset,
            need_redraw: self.need_redraw,
            line_count: self.buffer.lines@.len() as usize,
        }
    }

    /// The document's lines.
    pub closed spec fn lines(&self) -> Seq<Seq<char>> {
        self.buffer@
    }

    /// An empty document in a viewport of `size`, cursor and scroll at the
    /// origin, to be drawn.
    pub fn new(size: Size) -> (r: View)
        ensures
            r.lines().len() == 0,
            r.state() == (ViewState {
                size,
                location: Location { x: 0, y: 0 },
                scroll_offset: Location { x: 0, y: 0 },
                need_redraw: true,
                line_count: 0,
            }),
    {
        View {
            buffer: Buffer::default(),
            size,
            need_redraw: true,
            location: Location::origin(),
            scroll_offset: Location::origin(),
        }
    }

    pub fn size(&self) -> (r: Size)
        ensures
            r == self.state().size,
    {
        self.size
    }

    pub fn need_redraw(&self) -> (r: bool)
        ensures
            r == self.state().need_redraw,
    {
        self.need_redraw
    }

    /// The cursor in document space.
    pub fn location(&self) -> (r: Location)
        ensures
            r == self.state().location,
    {
        self.location
    }

    /// The document position of the viewport's top-left cell.
    pub fn scroll_offset(&self) -> (r: Location)
        ensures
            r == self.state().scroll_offset,
    {
        self.scroll_offset
    }

    pub fn resize(&mut self, size: Size)
        ensures
            final(self).state() == old(self).state().resized(size),
            final(self).lines() == old(self).lines(),
    {
        self.size = size;
        self.need_redraw = true;
    }

    /// Replaces the document with the lines of `contents` and marks the
    /// screen for drawing; with no contents (the file could not be read)
    /// nothing changes.
    pub fn load(&mut self, contents: Option<&str>)
        ensures
            match contents {
                Some(text) => {
                    &&& final(self).lines() == crate::buffer::lines_of(text@)
                    &&& final(self).state() == (ViewState {
                        need_redraw: true,
                        line_count: final(self).lines().len() as usize,
                        ..old(self).state()
                    })
                },
                None => {
                    &&& final(self).lines() == old(self).lines()
                    &&& final(self).state() == old(self).state()
                },
            },
    {
        if let Some(text) = contents {
            self.buffer = Buffer::load(text);
            self.need_redraw = true;
        }
    }

    /// Draws `text` as the whole of screen row `cur_row`.
    pub fn render_line(terminal: &mut Terminal, cur_row: usize, text: &str)
        ensures
            final(terminal)@ == old(terminal)@ + line_ops(cur_row, text@),
    {
        terminal.print_line(cur_row, text);
    }

    /// The centred welcome banner for a viewport `width` cells wide.
    pub fn build_welcome_message(width: usize) -> (r: String)
        ensures
            r@ == welcome_line(width),
    {
        proof {
            reveal_strlit(" ");
            reveal_strlit("~");
        }
        if width == 0 {
            let r = String::from_str(" ");
            proof {
                assert(r@ =~= seq![' ']);
            }
            return r;
        }
        let message = WELCOME_MESSAGE;
        let len = message.unicode_len();
        if width <= len {
            let r = String::from_str("~");
            proof {
                assert(r@ =~= seq!['~']);
            }
            return r;
        }
        let padding = (width - len - 1) / 2;
        let mut full = String::from_str("~");
        proof {
            assert(full@ =~= seq!['~'] + Seq::new(0, |k: int| ' '));
        }
        let mut i: usize = 0;
        while i < padding
            invariant
                i <= padding,
                full@ == seq!['~'] + Seq::new(i as nat, |k: int| ' '),
            decreases padding - i,
        {
            full.append(" ");
            i = i + 1;
            proof {
                reveal_strlit(" ");
                assert(full@ =~= seq!['~'] + Seq::new(i as nat, |k: int| ' '));
            }
        }
        full.append(message);
        full
    }

    /// The part of `line` shown from document column `from` in a viewport
    /// `width` cells wide, cut at character boundaries.
    fn visible_text(line: &String, from: usize, width: usize) -> (r: String)
        ensures
            r@ == visible_part(line@, from, width),
    {
        let text = line.as_str();
        let len = text.unicode_len();
        if from >= len {
            return String::new();
        }
        let end = if width >= len - from {
            len
        } else {
            from + width
        };
        String::from_str(text.substring_char(from, end))
    }

    /// Draws every screen row when a redraw is due and then clears the dirty
    /// flag. With nothing changed, or a viewport without cells, the screen is
    /// left alone and the flag kept.
    pub fn render(&mut self, terminal: &mut Terminal)
        ensures
            final(self).lines() == old(self).lines(),
            final(self).state() == (ViewState {
                need_redraw: old(self).state().need_redraw && !old(self).state().redraw_due(),
                ..old(self).state()
            }),
            final(terminal)@ == old(terminal)@ + (if old(self).state().redraw_due() {
                frame_rows(
                    old(self).lines(),
                    old(self).state().size,
                    old(self).state().scroll_offset,
                    old(self).state().size.height as nat,
                )
            } else {
                Seq::empty()
            }),
    {
        if !self.need_redraw {
            proof {
                assert(final(terminal)@ =~= old(terminal)@ + Seq::empty());
            }
            return;
        }
        let Size { width, height } = self.size;
        if height == 0 || width == 0 {
            proof {
                assert(final(terminal)@ =~= old(terminal)@ + Seq::empty());
            }
            return;
        }
        let offset = self.scroll_offset;
        let line_count = self.buffer.lines.len();
        let mut cur_row: usize = 0;
        while cur_row < height
            invariant
                cur_row <= height,
                self.size == (Size { width, height }),
                self.scroll_offset == offset,
                line_count == self.lines().len(),
                self.buffer.lines@.len() == line_count,
                *self == *old(self),
                terminal@ == old(terminal)@ + frame_rows(
                    self.lines(),
                    self.size,
                    offset,
                    cur_row as nat,
                ),
            decreases height - cur_row,
        {
            let ghost before = terminal@;
            if offset.y < line_count && cur_row < line_count - offset.y {
                let line = &self.buffer.lines[offset.y + cur_row];
                let text = Self::visible_text(line, offset.x, width);
                proof {
                    assert(self.lines()[offset.y + cur_row] == line@);
                    assert(text@ == row_text(self.lines(), self.size, offset, cur_row as int));
                }
                Self::render_line(terminal, cur_row, text.as_str());
            } else if self.buffer.is_empty() && offset.y <= height / 3 && cur_row == height / 3
                - offset.y {
                let banner = Self::build_welcome_message(width);
                proof {
                    assert(banner@ == row_text(self.lines(), self.size, offset, cur_row as int));
                }
                Self::render_line(terminal, cur_row, banner.as_str());
            } else {
                proof {
                    reveal_strlit("~");
                    assert("~"@ =~= row_text(self.lines(), self.size, offset, cur_row as int));
                }
                Self::render_line(terminal, cur_row, "~");
            }
            proof {
                assert(terminal@ =~= before + line_ops(
                    cur_row,
                    row_text(self.lines(), self.size, offset, cur_row as int),
                ));
                assert(terminal@ =~= old(terminal)@ + frame_rows(
                    self.lines(),
                    self.size,
                    offset,
                    (cur_row + 1) as nat,
                ));
            }
            cur_row = cur_row + 1;
        }
        self.need_redraw = false;
    }
    /// Applies a move or a resize; quitting leaves the view alone.
    pub fn handle_command(&mut self, command: EditorCommand)
        ensures
            final(self).state() == old(self).state().handled(command),
            final(self).lines() == old(self).lines(),
    {
        match command {
            EditorCommand::Move(dir) => self.move_text_location(&dir),
            EditorCommand::Quit => {},
            EditorCommand::Resize(size) => self.resize(size),
        }
    }

    /// Moves the cursor one step in direction `dir`, then scrolls it into
    /// view. Down stops at the last line of the document: the cursor does not
    /// go past the end by stepping.
    pub fn move_text_location(&mut self, dir: &Direction)
        ensures
            final(self).state() == old(self).state().moved(*dir),
            final(self).lines() == old(self).lines(),
    {
        let Location { mut x, mut y } = self.location;
        let Size { width, height } = self.size;
        let line_count = self.buffer.line_count();
        match dir {
            Direction::Up => y = y.saturating_sub(1),
            Direction::Down => {
                if y < line_count && line_count - y > 1 {
                    y = y + 1;
                }
            },
            Direction::PageUp => y = 0,
            Direction::PageDown => y = height.saturating_sub(1),
            Direction::Left => x = x.saturating_sub(1),
            Direction::Right => x = x.saturating_add(1),
            Direction::Home => x = 0,
            Direction::End => x = width.saturating_sub(1),
        }
        self.location = Location { x, y };
        self.scroll_location_into_view();
    }

    fn scroll_axis(p: usize, offset: usize, extent: usize) -> (r: usize)
        ensures
            r == scroll_axis(p, offset, extent),
    {
        if p < offset {
            p
        } else if p - offset >= extent {
            p.saturating_sub(extent).saturating_add(1)
        } else {
            offset
        }
    }

    /// Scroll-into-view: moves the offset on each axis just far enough that
    /// the cursor shows, and raises the dirty flag when it moved.
    pub fn scroll_location_into_view(&mut self)
        ensures
            final(self).state() == old(self).state().scrolled(),
            final(self).lines() == old(self).lines(),
    {
        let Location { x, y } = self.location;
        let Size { width, height } = self.size;
        let old_offset = self.scroll_offset;
        let offset = Location {
            x: Self::scroll_axis(x, old_offset.x, width),
            y: Self::scroll_axis(y, old_offset.y, height),
        };
        let offset_changed = offset.x != old_offset.x || offset.y != old_offset.y;
        self.scroll_offset = offset;
        self.need_redraw = self.need_redraw || offset_changed;
    }

    /// Where the cursor shows on the screen: its location less the scroll
    /// offset.
    pub fn get_position(&self) -> (r: Position)
        ensures
            r == self.state().screen_position(),
    {
        Position {
            col: self.location.x.saturating_sub(self.scroll_offset.x),
            row: self.location.y.saturating_sub(self.scroll_offset.y),
        }
    }
}

} // verus!
