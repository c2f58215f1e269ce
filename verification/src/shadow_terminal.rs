//! The shadow terminal: it keeps the interpreter, the scroll position and the
//! alternate-screen flag, and says what is sent after each event.

use crate::config::Config;
use crate::frame::build_surface;
use crate::frame::is_surface_of;
use crate::interpreter::advance_bytes;
use crate::interpreter::advanced_view;
use crate::interpreter::get_size;
use crate::interpreter::is_alt_screen_active;
use crate::interpreter::new_terminal;
use crate::interpreter::resize_terminal;
use crate::interpreter::resized_view;
use crate::interpreter::scrollback_rows;
use crate::interpreter::size_in_cells;
use crate::interpreter::terminal_view;
use crate::interpreter::wezterm_size;
use crate::interpreter::TerminalView;
use crate::protocol::Protocol;
use crate::protocol::Scroll;
use crate::scroll::limit_of;
use crate::scroll::scroll;
use crate::scroll::scroll_limit;
use crate::scroll::scrolled;
use crate::surface::new_surface;
use crate::surface::surface_view;
use crate::surface::SurfaceView;
use crate::window::SurfaceKind;
use tattoy_wezterm_term::Terminal;
use tattoy_wezterm_term::TerminalSize;
use vstd::prelude::*;

verus! {

/// The history of everything that was printed on the primary screen, as far as it is
/// kept, and where the user's view stands on it.
pub struct Scrollback {
    /// Every row that the interpreter holds.
    pub surface: tattoy_termwiz::surface::Surface,
    /// The scroll position. It is 0 while the user is not scrolling.
    pub position: usize,
}

/// What the terminal puts out.
pub enum ShadowSurface {
    /// Everything printed on the primary screen, as far as it is kept.
    Scrollback(Scrollback),
    /// What the user sees, whether the view is scrolled or the alternate screen is on.
    Screen(tattoy_termwiz::surface::Surface),
}

impl Default for Scrollback {
    /// An empty surface and the view at the live tail.
    fn default() -> (scrollback: Self)
        ensures
            scrollback.position == 0,
            surface_view(scrollback.surface) == (SurfaceView { width: 0, height: 0, changes: Seq::empty() }),
    {
        Scrollback { surface: new_surface(0, 0), position: 0 }
    }
}

impl Default for ShadowSurface {
    /// An empty scrollback.
    fn default() -> (surface: Self)
        ensures
            surface matches ShadowSurface::Scrollback(scrollback) && scrollback.position == 0 && surface_view(
                scrollback.surface,
            ) == (SurfaceView { width: 0, height: 0, changes: Seq::empty() }),
    {
        ShadowSurface::Scrollback(Scrollback::default())
    }
}

/// A chunk of what the pseudo-terminal printed.
pub type BytesFromPTY = Vec<u8>;

/// What has to be sent after the terminal advanced, in the order in which it is sent:
/// the message for the control bus, if there is one, and then the surfaces.
pub struct Output {
    /// `IsAlternateScreen`, where the terminal entered or left the alternate screen.
    pub message: Option<Protocol>,
    /// The screen, and after it the scrollback unless the alternate screen is on.
    pub surfaces: Vec<ShadowSurface>,
}

/// Where the terminal's loop stands.
#[derive(Clone, Copy, Debug, PartialEq, Eq, Structural)]
pub enum RunState {
    /// Events are handled.
    Running,
    /// `End` was seen, or both inputs are closed. Nothing more is sent.
    ShuttingDown,
    /// The loop has returned.
    Stopped,
}

/// What the terminal's loop waits for.
pub enum Event {
    /// A chunk of bytes from the pseudo-terminal, or `None` where its stream is closed.
    Bytes(Option<BytesFromPTY>),
    /// A message of the control bus.
    Message(Protocol),
    /// Both the pseudo-terminal and the control bus are closed.
    Closed,
}

/// What the loop has to do after an event.
pub struct Reaction {
    /// A message to send on the control bus, before the surfaces.
    pub message: Option<Protocol>,
    /// The surfaces to send, in order.
    pub surfaces: Vec<ShadowSurface>,
    /// Whether the loop leaves after this.
    pub finished: bool,
}

/// The number of screens in a run of surfaces.
pub open spec fn screens_in(surfaces: Seq<ShadowSurface>) -> nat
    decreases surfaces.len(),
{
    if surfaces.len() == 0 {
        0
    } else {
        screens_in(surfaces.drop_last()) + if surfaces.last() is Screen {
            1nat
        } else {
            0nat
        }
    }
}

/// The number of scrollbacks in a run of surfaces.
pub open spec fn scrollbacks_in(surfaces: Seq<ShadowSurface>) -> nat
    decreases surfaces.len(),
{
    if surfaces.len() == 0 {
        0
    } else {
        scrollbacks_in(surfaces.drop_last()) + if surfaces.last() is Scrollback {
            1nat
        } else {
            0nat
        }
    }
}

/// The terminal: an interpreter with the scroll position and the alternate-screen
/// flag that belong to it.
pub struct ShadowTerminal {
    /// The interpreter, which does the work of reading the bytes.
    terminal: Terminal,
    /// How the terminal was made.
    config: Config,
    /// Whether the interpreter was on the alternate screen when it was last looked at.
    is_alternative_screen: bool,
    /// How many rows the view stands above the newest row.
    scroll_position: usize,
    /// Where the loop stands.
    state: RunState,
}

impl ShadowTerminal {
    /// What the interpreter holds.
    pub closed spec fn interpreter(&self) -> TerminalView {
        terminal_view(self.terminal)
    }

    /// What the interpreter would hold once it had read the bytes, or `None` where it
    /// would not get through them.
    pub closed spec fn fed(&self, bytes: Seq<u8>) -> Option<TerminalView> {
        advanced_view(self.terminal, bytes)
    }

    /// Whether the interpreter gets through the bytes. It panics on a few sequences,
    /// and nothing tells them beforehand but the interpreter itself.
    pub open spec fn reads(&self, bytes: Seq<u8>) -> bool {
        self.fed(bytes) is Some
    }

    /// What the interpreter would hold once it had been resized.
    pub closed spec fn resized_to(&self, size: TerminalSize) -> TerminalView {
        resized_view(self.terminal, size)
    }

    /// The scroll position.
    pub closed spec fn position(&self) -> nat {
        self.scroll_position as nat
    }

    /// Whether the terminal is on the alternate screen.
    pub closed spec fn alternate(&self) -> bool {
        self.is_alternative_screen
    }

    /// How the terminal was made.
    pub closed spec fn configuration(&self) -> Config {
        self.config
    }

    /// Where the loop stands.
    pub closed spec fn run_state(&self) -> RunState {
        self.state
    }

    /// The highest scroll position that the interpreter's rows allow.
    pub open spec fn limit(&self) -> nat {
        scroll_limit(self.interpreter().lines.len(), self.interpreter().rows)
    }

    /// This terminal with its loop at another place.
    pub closed spec fn with_run_state(&self, state: RunState) -> Self {
        ShadowTerminal { state, ..*self }
    }

    /// What holds of a terminal between any two calls: the interpreter keeps as much
    /// history as was configured, the flag is the interpreter's, the scroll position is
    /// within its limit, and it is 0 on the alternate screen.
    pub open spec fn wf(&self) -> bool {
        &&& self.configuration().valid()
        &&& self.configuration().fits()
        &&& self.interpreter().well_formed()
        &&& self.interpreter().scrollback == self.configuration().scrollback_size
        &&& self.alternate() == self.interpreter().alt_screen
        &&& self.position() <= self.limit()
        &&& self.alternate() ==> self.position() == 0
    }

    /// The surfaces are those of this terminal: first the screen, built where the view
    /// stands, and then, unless the alternate screen is on, the scrollback with the
    /// scroll position.
    pub open spec fn shows(&self, surfaces: Seq<ShadowSurface>) -> bool {
        &&& surfaces.len() == if self.alternate() {
            1nat
        } else {
            2nat
        }
        &&& surfaces[0] matches ShadowSurface::Screen(screen)
        &&& is_surface_of(
            surface_view(screen),
            SurfaceKind::Screen,
            self.interpreter(),
            self.position(),
            self.alternate(),
        )
        &&& !self.alternate() ==> {
            &&& surfaces[1] matches ShadowSurface::Scrollback(scrollback)
            &&& scrollback.position == self.position()
            &&& is_surface_of(
                surface_view(scrollback.surface),
                SurfaceKind::Scrollback,
                self.interpreter(),
                self.position(),
                self.alternate(),
            )
        }
    }

    /// The scroll position once it is brought back within what the interpreter allows:
    /// 0 on the alternate screen, and not above the limit otherwise.
    pub open spec fn settled(position: nat, alternate: bool, limit: nat) -> nat {
        if alternate {
            0
        } else if position <= limit {
            position
        } else {
            limit
        }
    }

    /// How `after` follows from `before` when the interpreter was given bytes, or none:
    /// the interpreter has read the bytes, the flag follows the interpreter, the scroll
    /// position is settled, and nothing else changes.
    pub open spec fn advanced(before: &Self, after: &Self, bytes: Option<Seq<u8>>) -> bool {
        &&& match bytes {
            Some(bytes) => before.fed(bytes) == Some(after.interpreter()),
            None => after.interpreter() == before.interpreter(),
        }
        &&& after.configuration() == before.configuration()
        &&& after.run_state() == before.run_state()
        &&& after.alternate() == after.interpreter().alt_screen
        &&& after.position() == Self::settled(before.position(), after.alternate(), after.limit())
    }

    /// The bytes of a chunk, if there is one.
    pub open spec fn read(maybe_bytes: Option<&BytesFromPTY>) -> Option<Seq<u8>> {
        match maybe_bytes {
            Some(bytes) => Some(bytes@),
            None => None,
        }
    }

    /// The message that tells the bus of a change of screen, if there was one.
    pub open spec fn screen_change(before: &Self, after: &Self) -> Option<Protocol> {
        if after.alternate() != before.alternate() {
            Some(Protocol::IsAlternateScreen(after.alternate()))
        } else {
            None
        }
    }

    /// The size that the interpreter is given for a width and a height: a zero is
    /// taken as one.
    pub open spec fn size_for(width: u16, height: u16) -> TerminalSize {
        size_in_cells(
            if width == 0 {
                1
            } else {
                width as usize
            },
            if height == 0 {
                1
            } else {
                height as usize
            },
        )
    }

    /// How `after` follows from `before` when the interpreter was resized: it holds
    /// what its own resize to the new size leaves. It has the new size, a zero counted
    /// as one, stays on its screen, and the scroll position is settled for the rows
    /// that it holds now.
    pub open spec fn resized(before: &Self, after: &Self, width: u16, height: u16) -> bool {
        &&& after.interpreter() == before.resized_to(Self::size_for(width, height))
        &&& after.interpreter().cols == if width == 0 {
            1nat
        } else {
            width as nat
        }
        &&& after.interpreter().rows == if height == 0 {
            1nat
        } else {
            height as nat
        }
        &&& after.alternate() == before.alternate()
        &&& after.configuration() == before.configuration()
        &&& after.run_state() == before.run_state()
        &&& after.position() == Self::settled(before.position(), after.alternate(), after.limit())
    }

    /// How `after` follows from `before` when a scroll request was applied: only the
    /// scroll position changes, by `scrolled`, and it stays 0 on the alternate screen.
    pub open spec fn scrolled_by(before: &Self, after: &Self, direction: Scroll) -> bool {
        &&& after.interpreter() == before.interpreter()
        &&& after.alternate() == before.alternate()
        &&& after.configuration() == before.configuration()
        &&& after.run_state() == before.run_state()
        &&& after.position() == if before.alternate() {
            0
        } else {
            scrolled(
                before.position(),
                direction,
                before.configuration().scrollback_step as nat,
                before.limit(),
            )
        }
    }

    /// The place of the loop is all that `with_run_state` changes.
    pub proof fn lemma_with_run_state(&self, state: RunState)
        ensures
            self.with_run_state(state).run_state() == state,
            self.with_run_state(state).interpreter() == self.interpreter(),
            self.with_run_state(state).position() == self.position(),
            self.with_run_state(state).alternate() == self.alternate(),
            self.with_run_state(state).configuration() == self.configuration(),
            forall|bytes: Seq<u8>| #[trigger] self.with_run_state(state).fed(bytes) == self.fed(bytes),
            forall|size: TerminalSize| #[trigger]
                self.with_run_state(state).resized_to(size) == self.resized_to(size),
            self.wf() ==> self.with_run_state(state).wf(),
    {
    }

    /// A scroll request leaves the scroll position within its limit, which it does not
    /// move. At the limit a request to scroll up changes nothing; from less than a step
    /// a request to scroll down lands at 0; and a cancel lands at 0 from anywhere.
    pub proof fn lemma_scroll_stays_within_limit(before: &Self, after: &Self, direction: Scroll)
        requires
            before.wf(),
            Self::scrolled_by(before, after, direction),
        ensures
            after.limit() == before.limit(),
            after.position() <= after.limit(),
            direction == Scroll::Up && before.position() == before.limit() ==> after.position()
                == before.position(),
            direction == Scroll::Down && before.position() < before.configuration().scrollback_step
                ==> after.position() == 0,
            direction == Scroll::Down ==> after.position() <= before.position(),
            direction == Scroll::Cancel ==> after.position() == 0,
    {
    }

    /// Entering the alternate screen puts the scroll position at 0, and as long as the
    /// terminal is on it no scrollback is sent: what is sent is the screen alone.
    pub proof fn lemma_alternate_screen_has_no_scrollback(
        before: &Self,
        after: &Self,
        bytes: Option<Seq<u8>>,
        surfaces: Seq<ShadowSurface>,
    )
        requires
            Self::advanced(before, after, bytes),
            after.shows(surfaces),
            after.alternate(),
        ensures
            after.position() == 0,
            surfaces.len() == 1,
            surfaces[0] is Screen,
            scrollbacks_in(surfaces) == 0,
    {
        assert(surfaces.drop_last() =~= Seq::<ShadowSurface>::empty());
        assert(scrollbacks_in(surfaces.drop_last()) == 0);
    }

    /// Whatever is sent holds exactly one screen, and one scrollback unless the
    /// terminal is on the alternate screen, and then none.
    pub proof fn lemma_one_screen_is_sent(state: &Self, surfaces: Seq<ShadowSurface>)
        requires
            state.shows(surfaces),
        ensures
            screens_in(surfaces) == 1,
            scrollbacks_in(surfaces) == if state.alternate() {
                0nat
            } else {
                1nat
            },
    {
        if state.alternate() {
            assert(surfaces.drop_last() =~= Seq::<ShadowSurface>::empty());
            assert(screens_in(surfaces.drop_last()) == 0);
            assert(scrollbacks_in(surfaces.drop_last()) == 0);
        } else {
            let first = surfaces.drop_last();
            assert(first.drop_last() =~= Seq::<ShadowSurface>::empty());
            assert(screens_in(first.drop_last()) == 0);
            assert(scrollbacks_in(first.drop_last()) == 0);
            assert(first.last() == surfaces[0]);
            assert(screens_in(first) == 1);
            assert(scrollbacks_in(first) == 0);
        }
    }

    /// After a resize to a width and a height that are not zero, the screen that is
    /// built is exactly that wide and that high.
    pub proof fn lemma_screen_has_the_new_size(
        before: &Self,
        after: &Self,
        width: u16,
        height: u16,
        screen: tattoy_termwiz::surface::Surface,
    )
        requires
            width > 0,
            height > 0,
            Self::resized(before, after, width, height),
            is_surface_of(
                surface_view(screen),
                SurfaceKind::Screen,
                after.interpreter(),
                after.position(),
                after.alternate(),
            ),
        ensures
            surface_view(screen).width == width,
            surface_view(screen).height == height,
    {
    }

    /// Makes a terminal of the configured size that keeps the configured number of rows.
    /// It shows the primary screen, is not scrolled, and its loop is running.
    pub fn new(config: Config) -> (shadow: Self)
        requires
            config.valid(),
            config.fits(),
        ensures
            shadow.wf(),
            shadow.configuration() == config,
            shadow.interpreter().cols == config.width,
            shadow.interpreter().rows == config.height,
            shadow.interpreter().lines.len() == config.height,
            !shadow.alternate(),
            shadow.position() == 0,
            shadow.run_state() == RunState::Running,
    {
        let size = wezterm_size(config.width as usize, config.height as usize);
        let terminal = new_terminal(size, config.scrollback_size);
        ShadowTerminal {
            terminal,
            config,
            is_alternative_screen: false,
            scroll_position: 0,
            state: RunState::Running,
        }
    }

    /// The scroll position: how many rows the view stands above the newest row.
    pub fn scroll_position(&self) -> (position: usize)
        ensures
            position == self.position(),
    {
        self.scroll_position
    }

    /// Whether the terminal is on the alternate screen.
    pub fn is_alternative_screen(&self) -> (alternate: bool)
        ensures
            alternate == self.alternate(),
    {
        self.is_alternative_screen
    }

    /// How the terminal was made.
    pub fn config(&self) -> (config: &Config)
        ensures
            *config == self.configuration(),
    {
        &self.config
    }

    /// The interpreter, to look at.
    pub fn terminal(&self) -> (terminal: &Terminal)
        ensures
            terminal_view(*terminal) == self.interpreter(),
    {
        &self.terminal
    }

    /// Where the loop stands.
    pub fn state(&self) -> (state: RunState)
        ensures
            state == self.run_state(),
    {
        self.state
    }

    /// The size of the visible screen, columns first.
    pub fn size(&self) -> (size: (usize, usize))
        ensures
            size.0 == self.interpreter().cols,
            size.1 == self.interpreter().rows,
    {
        let size = get_size(&self.terminal);
        (size.cols, size.rows)
    }

    /// Brings the scroll position back within what the interpreter allows.
    fn settle(&mut self)
        requires
            old(self).interpreter().well_formed(),
            old(self).configuration().valid(),
            old(self).configuration().fits(),
            old(self).interpreter().scrollback == old(self).configuration().scrollback_size,
            old(self).alternate() == old(self).interpreter().alt_screen,
        ensures
            final(self).wf(),
            final(self).interpreter() == old(self).interpreter(),
            final(self).alternate() == old(self).alternate(),
            final(self).configuration() == old(self).configuration(),
            final(self).run_state() == old(self).run_state(),
            final(self).position() == Self::settled(old(self).position(), old(self).alternate(), old(self).limit()),
    {
        if self.is_alternative_screen {
            self.scroll_position = 0;
        } else {
            let size = get_size(&self.terminal);
            let limit = limit_of(scrollback_rows(&self.terminal), size.rows);
            if self.scroll_position > limit {
                self.scroll_position = limit;
            }
        }
    }

    /// Builds the surface of one kind from the interpreter as it is now.
    pub fn build_current_surface(&self, kind: SurfaceKind) -> (surface: tattoy_termwiz::surface::Surface)
        requires
            self.wf(),
        ensures
            is_surface_of(surface_view(surface), kind, self.interpreter(), self.position(), self.alternate()),
    {
        build_surface(&self.terminal, kind, self.scroll_position, self.is_alternative_screen)
    }

    /// Feeds the bytes, if there are any, to the interpreter, and returns what is sent
    /// afterwards, in order.
    ///
    /// A change of screen is told to the bus. The screen is always sent: a terminal
    /// always shows something. The scrollback follows unless the alternate screen is
    /// on, which has no history. Entering the alternate screen puts the scroll
    /// position at 0.
    ///
    /// The interpreter panics on a few byte sequences. They are left out here, by what
    /// the interpreter itself would do with the bytes: no test tells them beforehand.
    pub fn send_output(&mut self, maybe_bytes: Option<&BytesFromPTY>) -> (output: Output)
        requires
            old(self).wf(),
            maybe_bytes matches Some(bytes) ==> old(self).reads(bytes@),
        ensures
            final(self).wf(),
            Self::advanced(old(self), final(self), Self::read(maybe_bytes)),
            output.message == Self::screen_change(old(self), final(self)),
            final(self).shows(output.surfaces@),
            screens_in(output.surfaces@) == 1,
            scrollbacks_in(output.surfaces@) == if final(self).alternate() {
                0nat
            } else {
                1nat
            },
    {
        if let Some(bytes) = maybe_bytes {
            advance_bytes(&mut self.terminal, bytes.as_slice());
        }
        let active = is_alt_screen_active(&self.terminal);
        let mut message: Option<Protocol> = None;
        if active != self.is_alternative_screen {
            self.is_alternative_screen = active;
            message = Some(Protocol::IsAlternateScreen(active));
        }
        self.settle();

        let mut surfaces: Vec<ShadowSurface> = Vec::new();
        let screen = self.build_current_surface(SurfaceKind::Screen);
        surfaces.push(ShadowSurface::Screen(screen));
        if !self.is_alternative_screen {
            let surface = self.build_current_surface(SurfaceKind::Scrollback);
            surfaces.push(ShadowSurface::Scrollback(Scrollback { surface, position: self.scroll_position }));
        }
        proof {
            Self::lemma_one_screen_is_sent(self, surfaces@);
        }
        Output { message, surfaces }
    }

    /// Resizes the interpreter's view in place. The history is kept. A width or a
    /// height of zero is taken as one: a screen has a cell.
    pub fn resize(&mut self, width: u16, height: u16)
        requires
            old(self).wf(),
        ensures
            final(self).wf(),
            Self::resized(old(self), final(self), width, height),
    {
        let cols: usize = if width == 0 {
            1
        } else {
            width as usize
        };
        let rows: usize = if height == 0 {
            1
        } else {
            height as usize
        };
        resize_terminal(&mut self.terminal, wezterm_size(cols, rows));
        self.settle();
    }

    /// Applies a message of the control bus.
    ///
    /// A resize goes to the interpreter and nothing is sent. A scroll request moves the
    /// scroll position and the output is sent again at once, without waiting for new
    /// bytes. The other messages are for other listeners.
    pub fn handle_protocol_message(&mut self, message: &Protocol) -> (output: Option<Output>)
        requires
            old(self).wf(),
        ensures
            final(self).wf(),
            match *message {
                Protocol::Resize { width, height } => {
                    &&& output is None
                    &&& Self::resized(old(self), final(self), width, height)
                },
                Protocol::Scroll(direction) => {
                    &&& Self::scrolled_by(old(self), final(self), direction)
                    &&& output matches Some(sent)
                    &&& sent.message is None
                    &&& final(self).shows(sent.surfaces@)
                    &&& screens_in(sent.surfaces@) == 1
                    &&& scrollbacks_in(sent.surfaces@) == if final(self).alternate() {
                        0nat
                    } else {
                        1nat
                    }
                },
                _ => {
                    &&& output is None
                    &&& *final(self) == *old(self)
                },
            },
    {
        match *message {
            Protocol::Resize { width, height } => {
                self.resize(width, height);
                None
            },
            Protocol::Scroll(direction) => {
                if self.is_alternative_screen {
                    self.scroll_position = 0;
                } else {
                    let size = get_size(&self.terminal);
                    let limit = limit_of(scrollback_rows(&self.terminal), size.rows);
                    self.scroll_position = scroll(
                        self.scroll_position,
                        direction,
                        self.config.scrollback_step,
                        limit,
                    );
                }
                Some(self.send_output(None))
            },
            _ => None,
        }
    }

    /// One turn of the terminal's loop: what follows from one event.
    ///
    /// While the loop runs, bytes advance the interpreter and the output is sent; a
    /// message is applied, and `End` is the last one; and when both inputs are closed
    /// the terminal tells the bus to end and leaves. After that nothing is sent.
    ///
    /// Bytes on which the interpreter panics are left out, as for `send_output`.
    pub fn step(&mut self, event: Event) -> (reaction: Reaction)
        requires
            old(self).wf(),
            old(self).run_state() == RunState::Running ==> (event matches Event::Bytes(Some(bytes))
                ==> old(self).reads(bytes@)),
        ensures
            final(self).wf(),
            old(self).run_state() != RunState::Running ==> {
                &&& *final(self) == *old(self)
                &&& reaction.message is None
                &&& reaction.surfaces@.len() == 0
                &&& reaction.finished
            },
            old(self).run_state() == RunState::Running ==> match event {
                Event::Bytes(bytes) => {
                    &&& Self::advanced(
                        old(self),
                        final(self),
                        match bytes {
                            Some(chunk) => Some(chunk@),
                            None => None,
                        },
                    )
                    &&& reaction.message == Self::screen_change(old(self), final(self))
                    &&& final(self).shows(reaction.surfaces@)
                    &&& !reaction.finished
                },
                Event::Message(Protocol::End) => {
                    &&& *final(self) == old(self).with_run_state(RunState::ShuttingDown)
                    &&& reaction.message is None
                    &&& reaction.surfaces@.len() == 0
                    &&& reaction.finished
                },
                Event::Message(Protocol::Resize { width, height }) => {
                    &&& Self::resized(old(self), final(self), width, height)
                    &&& reaction.message is None
                    &&& reaction.surfaces@.len() == 0
                    &&& !reaction.finished
                },
                Event::Message(Protocol::Scroll(direction)) => {
                    &&& Self::scrolled_by(old(self), final(self), direction)
                    &&& reaction.message is None
                    &&& final(self).shows(reaction.surfaces@)
                    &&& !reaction.finished
                },
                Event::Message(Protocol::IsAlternateScreen(_)) => {
                    &&& *final(self) == *old(self)
                    &&& reaction.message is None
                    &&& reaction.surfaces@.len() == 0
                    &&& !reaction.finished
                },
                Event::Closed => {
                    &&& *final(self) == old(self).with_run_state(RunState::ShuttingDown)
                    &&& reaction.message == Some(Protocol::End)
                    &&& reaction.surfaces@.len() == 0
                    &&& reaction.finished
                },
            },
    {
        match self.state {
            RunState::Running => match event {
                Event::Bytes(bytes) => {
                    let output = self.send_output(bytes.as_ref());
                    Reaction { message: output.message, surfaces: output.surfaces, finished: false }
                },
                Event::Message(message) => {
                    let output = self.handle_protocol_message(&message);
                    let finished = match message {
                        Protocol::End => true,
                        _ => false,
                    };
                    if finished {
                        self.state = RunState::ShuttingDown;
                    }
                    match output {
                        Some(sent) => Reaction { message: sent.message, surfaces: sent.surfaces, finished },
                        None => Reaction { message: None, surfaces: Vec::new(), finished },
                    }
                },
                Event::Closed => {
                    self.state = RunState::ShuttingDown;
                    Reaction { message: Some(Protocol::End), surfaces: Vec::new(), finished: true }
                },
            },
            _ => Reaction { message: None, surfaces: Vec::new(), finished: true },
        }
    }

    /// Marks that the loop has returned. Nothing else changes.
    pub fn finish(&mut self)
        ensures
            *final(self) == old(self).with_run_state(RunState::Stopped),
            old(self).wf() ==> final(self).wf(),
    {
        self.state = RunState::Stopped;
    }
}

} // verus!
