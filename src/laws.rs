use vstd::prelude::*;
use crate::editor_command::{decode, Direction, EditorCommand, Event, KeyCode, KeyEvent, CONTROL};
use crate::terminal::Size;
use crate::view::{welcome_line, ViewState};

verus! {

/// The state after the moves `dirs`, taken in order.
pub open spec fn run_moves(s: ViewState, dirs: Seq<Direction>) -> ViewState
    decreases dirs.len(),
{
    if dirs.len() == 0 {
        s
    } else {
        run_moves(s.moved(dirs[0]), dirs.skip(1))
    }
}

/// Whether some move among `dirs`, taken in order from `s`, changed the
/// scroll offset.
pub open spec fn some_move_scrolls(s: ViewState, dirs: Seq<Direction>) -> bool
    decreases dirs.len(),
{
    if dirs.len() == 0 {
        false
    } else {
        s.moved(dirs[0]).scroll_offset != s.scroll_offset || some_move_scrolls(
            s.moved(dirs[0]),
            dirs.skip(1),
        )
    }
}

/// Over any run of moves the dirty flag ends up raised exactly when it was
/// raised before or some move scrolled; so from a freshly drawn screen a
/// render draws again only when the offset changed, and moving the cursor
/// within the viewport never asks for a redraw. Moves keep the size.
pub proof fn lemma_moves_dirty_iff_scrolled(s: ViewState, dirs: Seq<Direction>)
    ensures
        run_moves(s, dirs).need_redraw == (s.need_redraw || some_move_scrolls(s, dirs)),
        run_moves(s, dirs).size == s.size,
        !s.need_redraw ==> (run_moves(s, dirs).redraw_due() == (some_move_scrolls(s, dirs)
            && s.size.width > 0 && s.size.height > 0)),
    decreases dirs.len(),
{
    if dirs.len() > 0 {
        lemma_moves_dirty_iff_scrolled(s.moved(dirs[0]), dirs.skip(1));
    }
}

/// Scroll-into-view is idempotent on a viewport with cells: applied a
/// second time it changes nothing.
pub proof fn lemma_scroll_idempotent(s: ViewState)
    requires
        s.size.width > 0,
        s.size.height > 0,
    ensures
        s.scrolled().scrolled() == s.scrolled(),
{
}

/// After scroll-into-view on a viewport with cells the cursor lies inside
/// it on both axes: `offset <= cursor < offset + extent`.
pub proof fn lemma_scroll_reveals_cursor(s: ViewState)
    requires
        s.size.width > 0,
        s.size.height > 0,
    ensures
        s.scrolled().scroll_offset.x <= s.location.x < s.scrolled().scroll_offset.x
            + s.size.width,
        s.scrolled().scroll_offset.y <= s.location.y < s.scrolled().scroll_offset.y
            + s.size.height,
{
}

/// A resize to a size without cells leaves the dirty flag raised and no
/// redraw due, so a render leaves the screen alone until a later resize
/// gives it cells.
pub proof fn lemma_zero_size_keeps_dirty(s: ViewState, size: Size)
    requires
        size.width == 0 || size.height == 0,
    ensures
        s.resized(size).need_redraw,
        !s.resized(size).redraw_due(),
{
}

/// The welcome banner is a single line that starts with `~` and fits the
/// viewport's width.
pub proof fn lemma_welcome_fits(width: usize)
    requires
        width > 0,
    ensures
        welcome_line(width).len() <= width,
        welcome_line(width)[0] == '~',
{
}

/// Control-q decodes to a quit request, whatever else is going on.
pub proof fn lemma_quit_key_quits()
    ensures
        decode(Event::Key(KeyEvent { code: KeyCode::Char('q'), modifiers: CONTROL })) == Ok::<
            EditorCommand,
            crate::editor_command::DecodeError,
        >(EditorCommand::Quit),
{
}

} // verus!
