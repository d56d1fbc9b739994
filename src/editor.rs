use vstd::prelude::*;
use vstd::view::View as _;
use crate::editor_command::{decode, EditorCommand, Event};
use crate::terminal::{initialize_ops, terminate_ops, Op, Position, Size, Terminal};
use crate::view::{frame_rows, View, ViewState};

verus! {

/// The line printed once the terminal is given back after a quit.
pub const GOODBYE: &'static str = "Goodbye.\r\n";

/// The editor's decisions: which events it acts on, what a refresh draws,
/// and what is printed on the way out. A driver outside the library reads
/// the events and performs the terminal operations.
pub struct Editor {
    should_quit: bool,
    view: View,
}

/// The operations of one refresh: caret hidden and sent home, the frame
/// drawn when a redraw is due, the caret placed on the cursor, shown, and
/// the output flushed.
pub open spec fn refresh_ops(s: ViewState, lines: Seq<Seq<char>>) -> Seq<Op> {
    seq![Op::HideCaret, Op::MoveCaretTo(Position { col: 0, row: 0 })] + (if s.redraw_due() {
        frame_rows(lines, s.size, s.scroll_offset, s.size.height as nat)
    } else {
        Seq::empty()
    }) + seq![Op::MoveCaretTo(s.screen_position()), Op::ShowCaret, Op::Flush]
}

impl Editor {
    pub closed spec fn quit_requested(&self) -> bool {
        self.should_quit
    }

    pub closed spec fn viewport(&self) -> View {
        self.view
    }

    /// Sets the terminal up and starts with an empty document in a viewport
    /// of `size`.
    pub fn new(size: Size, terminal: &mut Terminal) -> (r: Editor)
        ensures
            !r.quit_requested(),
            r.viewport().lines().len() == 0,
            r.viewport().state() == (ViewState {
                size,
                location: crate::location::Location { x: 0, y: 0 },
                scroll_offset: crate::location::Location { x: 0, y: 0 },
                need_redraw: true,
                line_count: 0,
            }),
            final(terminal)@ == old(terminal)@ + initialize_ops(),
    {
        terminal.initialize();
        Editor { should_quit: false, view: View::new(size) }
    }

    /// Takes the text of the file named on the command line; `None` when it
    /// could not be read, which leaves the document as it was.
    pub fn load(&mut self, contents: Option<&str>)
        ensures
            final(self).quit_requested() == old(self).quit_requested(),
            match contents {
                Some(text) => {
                    &&& final(self).viewport().lines() == crate::buffer::lines_of(text@)
                    &&& final(self).viewport().state() == (ViewState {
                        need_redraw: true,
                        line_count: final(self).viewport().lines().len() as usize,
                        ..old(self).viewport().state()
                    })
                },
                None => {
                    &&& final(self).viewport().lines() == old(self).viewport().lines()
                    &&& final(self).viewport().state() == old(self).viewport().state()
                },
            },
    {
        self.view.load(contents);
    }

    pub fn should_quit(&self) -> (r: bool)
        ensures
            r == self.quit_requested(),
    {
        self.should_quit
    }

    pub fn view(&self) -> (r: &View)
        ensures
            *r == self.viewport(),
    {
        &self.view
    }

    /// Acts on one input event: a quit request is remembered, a move or a
    /// resize goes to the view, and an event that decodes to no command is
    /// dropped.
    pub fn evaluate_event(&mut self, event: Event)
        ensures
            final(self).viewport().lines() == old(self).viewport().lines(),
            match decode(event) {
                Ok(EditorCommand::Quit) => {
                    &&& final(self).quit_requested()
                    &&& final(self).viewport().state() == old(self).viewport().state()
                },
                Ok(command) => {
                    &&& final(self).quit_requested() == old(self).quit_requested()
                    &&& final(self).viewport().state() == old(
                        self,
                    ).viewport().state().handled(command)
                },
                Err(_) => {
                    &&& final(self).quit_requested() == old(self).quit_requested()
                    &&& final(self).viewport().state() == old(self).viewport().state()
                },
            },
    {
        match EditorCommand::try_from(event) {
            Ok(EditorCommand::Quit) => self.should_quit = true,
            Ok(command) => self.view.handle_command(command),
            Err(_) => {},
        }
    }

    /// Draws what changed and puts the caret on the cursor.
    pub fn refresh_screen(&mut self, terminal: &mut Terminal)
        ensures
            final(self).quit_requested() == old(self).quit_requested(),
            final(self).viewport().lines() == old(self).viewport().lines(),
            final(self).viewport().state() == (ViewState {
                need_redraw: old(self).viewport().state().need_redraw && !old(
                    self,
                ).viewport().state().redraw_due(),
                ..old(self).viewport().state()
            }),
            final(terminal)@ == old(terminal)@ + refresh_ops(
                old(self).viewport().state(),
                old(self).viewport().lines(),
            ),
    {
        let ghost start = terminal@;
        terminal.hide_caret();
        terminal.move_caret_to(Position::default());
        let ghost before_frame = terminal@;
        self.view.render(terminal);
        terminal.move_caret_to(self.view.get_position());
        terminal.show_caret();
        terminal.execute();
        proof {
            let s = old(self).viewport().state();
            assert(before_frame =~= start + seq![
                Op::HideCaret,
                Op::MoveCaretTo(Position { col: 0, row: 0 }),
            ]);
            assert(self.view.state().screen_position() == s.screen_position());
            assert(terminal@ =~= old(terminal)@ + refresh_ops(s, old(self).viewport().lines()));
        }
    }

    /// Gives the terminal back, and says goodbye when the user asked to quit.
    pub fn shutdown(&self, terminal: &mut Terminal)
        ensures
            final(terminal)@ == old(terminal)@ + terminate_ops() + (if self.quit_requested() {
                seq![Op::Print(GOODBYE@)]
            } else {
                Seq::empty()
            }),
    {
        terminal.terminate();
        if self.should_quit {
            terminal.print(GOODBYE);
        }
        proof {
            if self.quit_requested() {
                assert(final(terminal)@ =~= old(terminal)@ + terminate_ops() + seq![Op::Print(GOODBYE@)]);
            } else {
                assert(final(terminal)@ =~= old(terminal)@ + terminate_ops() + Seq::empty());
            }
        }
    }
}

} // verus!
