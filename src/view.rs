//! The view controller: viewport, renderer and input handler of one
//! session.
use vstd::prelude::*;
use crate::game_state::GameState;
use crate::input::{Command, InputEvent, InputHandler, UserInput, on_event};
use crate::paint::{PaintOp, map_ops};
use crate::renderer::{MapRenderer, frame};
use crate::terminal_logger::{TerminalLogger, log_strip_ops};
use crate::viewport::ViewportManager;

verus! {

/// Rows under the map kept for the log strip.
pub const LOG_LINES: u16 = 3;

/// The map height left on a terminal `rows` rows tall.
pub open spec fn map_height(rows: int) -> int {
    if rows >= LOG_LINES as int { rows - LOG_LINES as int } else { 0 }
}

/// The view of one session.
pub struct TerminalView {
    pub viewport: ViewportManager,
    pub renderer: MapRenderer,
    pub input_handler: InputHandler,
    /// Whether the vision overlay is drawn.
    pub show_vision: bool,
    /// Map width, in cells.
    pub terminal_width: u16,
    /// Map height, in cells: the terminal minus the log strip.
    pub terminal_height: u16,
}

impl TerminalView {
    /// The map leaves room for the log strip below it, and the viewport
    /// spans some world.
    pub open spec fn wf(&self) -> bool {
        self.terminal_height <= 0xffff - LOG_LINES && self.viewport.wf()
    }

    /// A view of a square `2 * radius` world units wide on a terminal of
    /// `columns` x `rows` cells.
    pub fn new(radius: u32, show_vision: bool, columns: u16, rows: u16) -> (r: TerminalView)
        requires
            0 < radius <= 0x7fff_ffff,
        ensures
            r.viewport.view_width == 2 * radius,
            r.viewport.view_height == 2 * radius,
            r.wf(),
            r.show_vision == show_vision,
            r.terminal_width == columns,
            r.terminal_height == map_height(rows as int),
            r.input_handler.selected() is None,
            !r.input_handler.exit_flag(),
            !r.input_handler.reader(),
    {
        let view_size = radius * 2;
        Self::new_rect(view_size, view_size, show_vision, columns, rows)
    }

    /// A view `width` x `height` world units wide on a terminal of
    /// `columns` x `rows` cells.
    pub fn new_rect(width: u32, height: u32, show_vision: bool, columns: u16, rows: u16) -> (r: TerminalView)
        requires
            width > 0,
            height > 0,
        ensures
            r.viewport.view_width == width,
            r.viewport.view_height == height,
            r.wf(),
            r.show_vision == show_vision,
            r.terminal_width == columns,
            r.terminal_height == map_height(rows as int),
            r.input_handler.selected() is None,
            !r.input_handler.exit_flag(),
            !r.input_handler.reader(),
    {
        TerminalView {
            viewport: ViewportManager::new(width, height),
            renderer: MapRenderer::new(),
            input_handler: InputHandler::new(),
            show_vision,
            terminal_width: columns,
            terminal_height: rows.saturating_sub(LOG_LINES),
        }
    }

    /// Starts the session's input: returns whether the event reader must be
    /// spawned (never when one runs already).
    pub fn init_terminal(&mut self) -> (spawn: bool)
        ensures
            spawn == !old(self).input_handler.reader(),
            final(self).input_handler.reader(),
            final(self).input_handler.selected() == old(self).input_handler.selected(),
            final(self).input_handler.exit_flag() == old(self).input_handler.exit_flag(),
            final(self).terminal_width == old(self).terminal_width,
            final(self).terminal_height == old(self).terminal_height,
            final(self).show_vision == old(self).show_vision,
            final(self).viewport == old(self).viewport,
    {
        self.input_handler.start_event_thread()
    }

    /// Ends the session's input: returns whether an event reader ran and
    /// must be told to stop.
    pub fn cleanup_terminal(&mut self) -> (stop: bool)
        ensures
            stop == old(self).input_handler.reader(),
            !final(self).input_handler.reader(),
            final(self).terminal_width == old(self).terminal_width,
            final(self).terminal_height == old(self).terminal_height,
            final(self).show_vision == old(self).show_vision,
            final(self).viewport == old(self).viewport,
    {
        self.input_handler.stop_event_thread()
    }

    /// The commands that paint the screen for `game_state`.
    pub fn render(&self, game_state: &GameState, logger: &TerminalLogger) -> (r: Vec<PaintOp>)
        requires
            self.wf(),
        ensures
            r@ == seq![PaintOp::MoveTo(0, 0)] + map_ops(
                frame(*game_state, self.show_vision, self.terminal_width as int, self.terminal_height as int),
            ) + log_strip_ops(logger.entries_view(), self.terminal_width as int, self.terminal_height + 3, 3),
    {
        self.renderer.render(
            game_state,
            &self.viewport,
            self.show_vision,
            self.terminal_width,
            self.terminal_height,
            logger,
        )
    }

    /// One frame of the live view: the commands that paint it, and the
    /// command of the frame's input event.
    pub fn render_live(
        &mut self,
        game_state: &GameState,
        logger: &TerminalLogger,
        event: Option<InputEvent>,
    ) -> (r: (Vec<PaintOp>, UserInput))
        requires
            old(self).wf(),
        ensures
            final(self).wf(),
            final(self).terminal_width == old(self).terminal_width,
            final(self).terminal_height == old(self).terminal_height,
            final(self).show_vision == old(self).show_vision,
            final(self).viewport == old(self).viewport,
            final(self).input_handler.reader() == old(self).input_handler.reader(),
            old(self).input_handler.exit_flag() ==> final(self).input_handler.exit_flag()
                && final(self).input_handler.selected() == old(self).input_handler.selected(),
            !old(self).input_handler.exit_flag() ==> ({
                let (c, s, q) = on_event(
                    old(self).input_handler.selected(),
                    *game_state,
                    event,
                    old(self).terminal_width as int,
                    old(self).terminal_height as int,
                );
                final(self).input_handler.selected() == s && final(self).input_handler.exit_flag() == q
            }),
            r.0@ == seq![PaintOp::MoveTo(0, 0)] + map_ops(
                frame(*game_state, old(self).show_vision, old(self).terminal_width as int, old(self).terminal_height as int),
            ) + log_strip_ops(logger.entries_view(), old(self).terminal_width as int, old(self).terminal_height + 3, 3),
            old(self).input_handler.exit_flag() ==> r.1@ == Command::Quit,
            !old(self).input_handler.exit_flag() ==> r.1@ == on_event(
                old(self).input_handler.selected(),
                *game_state,
                event,
                old(self).terminal_width as int,
                old(self).terminal_height as int,
            ).0,
    {
        let ops = self.render(game_state, logger);
        let input = self.handle_view_input(game_state, event);
        (ops, input)
    }

    /// The command of a frame's input event: `Quit` once leaving has been
    /// requested, else what the event does, `Continue` when there is none.
    pub fn handle_view_input(&mut self, game_state: &GameState, event: Option<InputEvent>) -> (r: UserInput)
        ensures
            old(self).input_handler.exit_flag() ==> r@ == Command::Quit && final(self).input_handler.exit_flag()
                && final(self).input_handler.selected() == old(self).input_handler.selected(),
            !old(self).input_handler.exit_flag() ==> ({
                let (c, s, q) = on_event(
                    old(self).input_handler.selected(),
                    *game_state,
                    event,
                    old(self).terminal_width as int,
                    old(self).terminal_height as int,
                );
                r@ == c && final(self).input_handler.selected() == s && final(self).input_handler.exit_flag() == q
            }),
            final(self).terminal_width == old(self).terminal_width,
            final(self).terminal_height == old(self).terminal_height,
            final(self).show_vision == old(self).show_vision,
            final(self).viewport == old(self).viewport,
            final(self).input_handler.reader() == old(self).input_handler.reader(),
    {
        self.input_handler.handle_input(
            event,
            game_state,
            &self.viewport,
            self.terminal_width,
            self.terminal_height,
        )
    }
}

} // verus!
