use vstd::prelude::*;

verus! {

/// Terminal dimensions in character cells.
#[derive(Clone, Copy, Debug, PartialEq, Eq, Structural)]
pub struct Size {
    pub width: usize,
    pub height: usize,
}

impl Default for Size {
    fn default() -> (r: Size)
        ensures
            r.width == 0,
            r.height == 0,
    {
        Size { width: 0, height: 0 }
    }
}

/// A cell of the screen, in terminal space.
#[derive(Clone, Copy, Debug, PartialEq, Eq, Structural)]
pub struct Position {
    pub col: usize,
    pub row: usize,
}

impl Position {
    /// The top-left cell.
    pub fn default() -> (r: Position)
        ensures
            r.col == 0,
            r.row == 0,
    {
        Position { col: 0, row: 0 }
    }
}

/// One operation for the terminal device, in the order it is to be performed.
#[derive(Debug, PartialEq, Eq)]
pub enum TerminalOp {
    EnterAlternateScreen,
    LeaveAlternateScreen,
    EnableRawMode,
    DisableRawMode,
    ClearScreen,
    ClearLine,
    HideCaret,
    ShowCaret,
    MoveCaretTo(Position),
    Print(String),
    Flush,
}

/// What a `TerminalOp` stands for, with text as a sequence of characters.
pub enum Op {
    EnterAlternateScreen,
    LeaveAlternateScreen,
    EnableRawMode,
    DisableRawMode,
    ClearScreen,
    ClearLine,
    HideCaret,
    ShowCaret,
    MoveCaretTo(Position),
    Print(Seq<char>),
    Flush,
}

impl View for TerminalOp {
    type V = Op;

    open spec fn view(&self) -> Op {
        match self {
            TerminalOp::EnterAlternateScreen => Op::EnterAlternateScreen,
            TerminalOp::LeaveAlternateScreen => Op::LeaveAlternateScreen,
            TerminalOp::EnableRawMode => Op::EnableRawMode,
            TerminalOp::DisableRawMode => Op::DisableRawMode,
            TerminalOp::ClearScreen => Op::ClearScreen,
            TerminalOp::ClearLine => Op::ClearLine,
            TerminalOp::HideCaret => Op::HideCaret,
            TerminalOp::ShowCaret => Op::ShowCaret,
            TerminalOp::MoveCaretTo(p) => Op::MoveCaretTo(*p),
            TerminalOp::Print(s) => Op::Print(s@),
            TerminalOp::Flush => Op::Flush,
        }
    }
}

/// The operations that draw `text` as the whole of screen row `row`.
pub open spec fn line_ops(row: usize, text: Seq<char>) -> Seq<Op> {
    seq![Op::MoveCaretTo(Position { col: 0, row }), Op::ClearLine, Op::Print(text)]
}

/// The operations that set the terminal up: alternate screen, raw mode, a
/// cleared screen and the caret at the origin.
pub open spec fn initialize_ops() -> Seq<Op> {
    seq![
        Op::EnterAlternateScreen,
        Op::EnableRawMode,
        Op::ClearScreen,
        Op::MoveCaretTo(Position { col: 0, row: 0 }),
        Op::Flush,
    ]
}

/// The operations that give the terminal back: pending output flushed, raw
/// mode off, alternate screen left.
pub open spec fn terminate_ops() -> Seq<Op> {
    seq![Op::Flush, Op::DisableRawMode, Op::LeaveAlternateScreen]
}

/// The terminal as a queue of pending operations; a driver outside the
/// library performs them on the device and empties the queue.
pub struct Terminal {
    pub ops: Vec<TerminalOp>,
}

impl View for Terminal {
    type V = Seq<Op>;

    open spec fn view(&self) -> Seq<Op> {
        self.ops@.map_values(|o: TerminalOp| o@)
    }
}

impl Terminal {
    /// A terminal with nothing pending.
    pub fn new() -> (r: Terminal)
        ensures
            r@ == Seq::<Op>::empty(),
    {
        Terminal { ops: Vec::new() }
    }

    fn queue(&mut self, op: TerminalOp)
        ensures
            final(self)@ == old(self)@.push(op@),
    {
        self.ops.push(op);
        proof {
            assert(final(self)@ =~= old(self)@.push(op@));
        }
    }

    /// Hands the pending operations out, in order, and leaves none.
    pub fn take_ops(&mut self) -> (r: Vec<TerminalOp>)
        ensures
            r@.map_values(|o: TerminalOp| o@) == old(self)@,
            final(self)@ == Seq::<Op>::empty(),
    {
        let mut r: Vec<TerminalOp> = Vec::new();
        std::mem::swap(&mut r, &mut self.ops);
        proof {
            assert(final(self)@ =~= Seq::<Op>::empty());
        }
        r
    }

    pub fn initialize(&mut self)
        ensures
            final(self)@ == old(self)@ + initialize_ops(),
    {
        self.enter_alternate_screen();
        self.queue(TerminalOp::EnableRawMode);
        self.clear_screen();
        self.move_caret_to(Position { col: 0, row: 0 });
        self.execute();
        proof {
            assert(final(self)@ =~= old(self)@ + initialize_ops());
        }
    }

    pub fn terminate(&mut self)
        ensures
            final(self)@ == old(self)@ + terminate_ops(),
    {
        self.execute();
        self.queue(TerminalOp::DisableRawMode);
        self.leave_alternate_screen();
        proof {
            assert(final(self)@ =~= old(self)@ + terminate_ops());
        }
    }

    pub fn clear_screen(&mut self)
        ensures
            final(self)@ == old(self)@.push(Op::ClearScreen),
    {
        self.queue(TerminalOp::ClearScreen);
    }

    pub fn clear_line(&mut self)
        ensures
            final(self)@ == old(self)@.push(Op::ClearLine),
    {
        self.queue(TerminalOp::ClearLine);
    }

    pub fn hide_caret(&mut self)
        ensures
            final(self)@ == old(self)@.push(Op::HideCaret),
    {
        self.queue(TerminalOp::HideCaret);
    }

    pub fn show_caret(&mut self)
        ensures
            final(self)@ == old(self)@.push(Op::ShowCaret),
    {
        self.queue(TerminalOp::ShowCaret);
    }

    pub fn move_caret_to(&mut self, pos: Position)
        ensures
            final(self)@ == old(self)@.push(Op::MoveCaretTo(pos)),
    {
        self.queue(TerminalOp::MoveCaretTo(pos));
    }

    pub fn print(&mut self, string: &str)
        ensures
            final(self)@ == old(self)@.push(Op::Print(string@)),
    {
        self.queue(TerminalOp::Print(String::from_str(string)));
    }

    /// Clears screen row `cur_row` and draws `string` from its first column.
    pub fn print_line(&mut self, cur_row: usize, string: &str)
        ensures
            final(self)@ == old(self)@ + line_ops(cur_row, string@),
    {
        self.move_caret_to(Position { col: 0, row: cur_row });
        self.clear_line();
        self.print(string);
        proof {
            assert(final(self)@ =~= old(self)@ + line_ops(cur_row, string@));
        }
    }

    pub fn enter_alternate_screen(&mut self)
        ensures
            final(self)@ == old(self)@.push(Op::EnterAlternateScreen),
    {
        self.queue(TerminalOp::EnterAlternateScreen);
    }

    pub fn leave_alternate_screen(&mut self)
        ensures
            final(self)@ == old(self)@.push(Op::LeaveAlternateScreen),
    {
        self.queue(TerminalOp::LeaveAlternateScreen);
    }

    /// Asks for the queued output to be flushed to the device.
    pub fn execute(&mut self)
        ensures
            final(self)@ == old(self)@.push(Op::Flush),
    {
        self.queue(TerminalOp::Flush);
    }
}

} // verus!
