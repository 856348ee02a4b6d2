//! The driver: one state machine for client requests, timer ticks and
//! deferred completions.
//!
//! A request is accepted only while no other is in flight. Accepting it
//! changes the state and asks for one deferred call; the delivery of that
//! call, later and outside of the request, reports the completion and makes
//! the driver idle again. Timer ticks scroll the text whatever the state.
//! The driver never touches the outside itself: each entry point returns
//! what is to be done there.

use vstd::prelude::*;
use crate::error::ErrorCode;
use crate::glyph::GLYPH_BITS;
use crate::render::blank_frame;
use crate::scroll::{ScrollBuffer, ScrollView};

verus! {

/// The number under which the driver is known to the command decoder.
pub const DRIVER_NUM: usize = 0xa0003;

/// The display has a single line of text.
pub const ROWS: usize = 1;

/// Names the driver's slot at the scheduler of deferred calls.
#[derive(Clone, Copy, Debug, PartialEq, Eq, Structural)]
pub struct DeferredCallHandle(pub usize);

/// Names a client to which completions are reported.
#[derive(Clone, Copy, Debug, PartialEq, Eq, Structural)]
pub struct ClientHandle(pub usize);

/// The operation in flight. A print holds the client's buffer until its
/// completion hands it back.
#[derive(Debug, PartialEq, Eq)]
pub enum Operation {
    Idle,
    ExecutingCommand,
    ExecutingPrint { buffer: Vec<u8>, client_len: usize },
}

/// The kind of the operation in flight.
#[derive(Clone, Copy, Debug, PartialEq, Eq, Structural)]
pub enum Status {
    Idle,
    ExecutesCommand,
    ExecutesPrint,
}

/// The two events that reach the driver from outside schedulers.
#[derive(Clone, Copy, Debug, PartialEq, Eq, Structural)]
pub enum Event {
    /// The timer has expired.
    TimerTick,
    /// The deferred call that an accepted operation asked for is delivered.
    DeferredCall,
}

/// What the caller is to do for the driver after an entry point returns.
#[derive(Debug, PartialEq, Eq)]
pub struct Effects {
    /// Switch the 25 elements to this frame, in index order.
    pub frame: Option<Vec<bool>>,
    /// Arm the timer to expire after this many milliseconds from now.
    pub alarm: Option<u32>,
    /// Ask the scheduler for one deferred call on this handle.
    pub deferred: Option<DeferredCallHandle>,
}

/// The mathematical content of [`Effects`].
pub ghost struct EffectsView {
    pub frame: Option<Seq<bool>>,
    pub alarm: Option<u32>,
    pub deferred: Option<DeferredCallHandle>,
}

/// The report of a finished operation, always one of success. `client` is
/// the client registered at the time of delivery, if there is one; the
/// buffer of a print comes back in any case.
#[derive(Debug, PartialEq, Eq)]
pub enum Completion {
    CommandComplete { client: Option<ClientHandle> },
    WriteComplete { client: Option<ClientHandle>, buffer: Vec<u8>, len: usize },
}

/// What the driver did with an [`Event`].
#[derive(Debug, PartialEq, Eq)]
pub enum Reaction {
    /// A timer tick: what to show and whether to arm the timer again.
    Scrolled(Effects),
    /// A deferred call: the completion to report, if an operation was in
    /// flight.
    Completed(Option<Completion>),
}

/// The answer to a numbered command.
#[derive(Clone, Copy, Debug, PartialEq, Eq, Structural)]
pub enum CommandReturn {
    Success,
    Failure(ErrorCode),
}

/// The driver.
pub struct LedMatrixText {
    scroll: ScrollBuffer,
    speed: u32,
    is_enabled: bool,
    operation: Operation,
    deferred_call_handle: Option<DeferredCallHandle>,
    client: Option<ClientHandle>,
}

/// The mathematical content of a [`LedMatrixText`].
pub ghost struct State {
    pub scroll: ScrollView,
    /// Interval between two timer ticks, in milliseconds.
    pub speed: u32,
    /// While false every frame rendered is blank; the scroll goes on.
    pub enabled: bool,
    pub operation: Operation,
    pub handle: Option<DeferredCallHandle>,
    pub client: Option<ClientHandle>,
}

impl View for Effects {
    type V = EffectsView;

    open spec fn view(&self) -> EffectsView {
        EffectsView {
            frame: match self.frame {
                Some(frame) => Some(frame@),
                None => None,
            },
            alarm: self.alarm,
            deferred: self.deferred,
        }
    }
}

impl EffectsView {
    /// Nothing to do.
    pub open spec fn nothing() -> EffectsView {
        EffectsView { frame: None, alarm: None, deferred: None }
    }
}

impl Operation {
    /// The kind of the operation.
    pub open spec fn status(self) -> Status {
        match self {
            Operation::Idle => Status::Idle,
            Operation::ExecutingCommand => Status::ExecutesCommand,
            Operation::ExecutingPrint { .. } => Status::ExecutesPrint,
        }
    }
}

impl State {
    /// The scroll buffer is well formed, and a print in flight committed no
    /// more bytes than its buffer holds.
    pub open spec fn wf(self) -> bool {
        &&& self.scroll.wf()
        &&& match self.operation {
            Operation::ExecutingPrint { buffer, client_len } => client_len <= buffer@.len(),
            _ => true,
        }
    }

    /// No operation is in flight.
    pub open spec fn idle(self) -> bool {
        self.operation is Idle
    }

    /// The state after a timer tick: the scroll has made one step.
    pub open spec fn ticked(self) -> State {
        State { scroll: self.scroll.advanced(), ..self }
    }

    /// What a timer tick asks for: the frame of the step, if it rendered
    /// one, and the timer armed at the current speed while there is text.
    pub open spec fn tick_effects(self) -> EffectsView {
        EffectsView {
            frame: self.scroll.next_frame(self.enabled),
            alarm: if self.scroll.len > 0 {
                Some(self.speed)
            } else {
                None
            },
            deferred: None,
        }
    }

    /// Why a request is refused in this state, if it is.
    pub open spec fn busy(self) -> Option<ErrorCode> {
        if self.idle() {
            None
        } else {
            Some(ErrorCode::Busy)
        }
    }

    /// Why a print of `count` bytes out of `available` is refused, if it is:
    /// first for an operation in flight, then for its size.
    pub open spec fn print_refusal(self, available: nat, count: nat) -> Option<ErrorCode> {
        if !self.idle() {
            Some(ErrorCode::Busy)
        } else if !self.scroll.fits(available, count) {
            Some(ErrorCode::OversizeWrite)
        } else {
            None
        }
    }

    /// The state with the bytes written and the print in flight, before
    /// anything is rendered.
    pub open spec fn committed(self, buffer: Vec<u8>, count: usize) -> State {
        State {
            scroll: self.scroll.written(buffer@, count as nat),
            operation: Operation::ExecutingPrint { buffer, client_len: count },
            ..self
        }
    }

    /// The state after an accepted print. Into an empty buffer the first
    /// step is made at once; otherwise the running scroll is left alone.
    pub open spec fn printed(self, buffer: Vec<u8>, count: usize) -> State {
        if self.scroll.len == 0 {
            self.committed(buffer, count).ticked()
        } else {
            self.committed(buffer, count)
        }
    }

    /// What an accepted print asks for: one deferred call on the handle
    /// and, into an empty buffer, what the first step asks for.
    pub open spec fn print_effects(self, buffer: Vec<u8>, count: usize) -> EffectsView {
        let shown = if self.scroll.len == 0 {
            self.committed(buffer, count).tick_effects()
        } else {
            EffectsView::nothing()
        };
        EffectsView { deferred: self.handle, ..shown }
    }

    /// The state with a command in flight.
    pub open spec fn commanded(self) -> State {
        State { operation: Operation::ExecutingCommand, ..self }
    }

    /// The state after an accepted clear.
    pub open spec fn cleared(self) -> State {
        State { scroll: self.scroll.cleared(), ..self }.commanded()
    }

    /// The state after an accepted switch of the display.
    pub open spec fn switched(self, enabled: bool) -> State {
        State { enabled, ..self }.commanded()
    }

    /// What an accepted command asks for: one deferred call on the handle,
    /// and the given frame.
    pub open spec fn command_effects(self, frame: Option<Seq<bool>>) -> EffectsView {
        EffectsView { frame, alarm: None, deferred: self.handle }
    }

    /// The state after the deferred call is delivered.
    pub open spec fn completed(self) -> State {
        State { operation: Operation::Idle, ..self }
    }

    /// The completion that the deferred call reports.
    pub open spec fn completion(self) -> Option<Completion> {
        match self.operation {
            Operation::Idle => None,
            Operation::ExecutingCommand => Some(
                Completion::CommandComplete { client: self.client },
            ),
            Operation::ExecutingPrint { buffer, client_len } => Some(
                Completion::WriteComplete { client: self.client, buffer, len: client_len },
            ),
        }
    }
}

impl View for LedMatrixText {
    type V = State;

    closed spec fn view(&self) -> State {
        State {
            scroll: self.scroll@,
            speed: self.speed,
            enabled: self.is_enabled,
            operation: self.operation,
            handle: self.deferred_call_handle,
            client: self.client,
        }
    }
}

impl LedMatrixText {
    /// The driver's invariant, that of its state.
    pub open spec fn wf(&self) -> bool {
        self@.wf()
    }

    /// A driver for a display of `leds` elements that scrolls through
    /// `buffer`, whose length is the capacity, with `speed` milliseconds
    /// between two characters. It starts idle, enabled and empty, with no
    /// handle and no client. The display must have exactly 25 elements.
    pub fn new(leds: usize, buffer: Vec<u8>, speed: u32) -> (driver: LedMatrixText)
        requires
            leds == GLYPH_BITS,
        ensures
            driver.wf(),
            driver@ == (State {
                scroll: ScrollView { text: buffer@, position: 0, len: 0 },
                speed,
                enabled: true,
                operation: Operation::Idle,
                handle: None,
                client: None,
            }),
    {
        LedMatrixText {
            scroll: ScrollBuffer::new(buffer),
            speed,
            is_enabled: true,
            operation: Operation::Idle,
            deferred_call_handle: None,
            client: None,
        }
    }

    /// Sets the handle on which accepted operations ask for their deferred
    /// call.
    pub fn initialize_callback_handle(&mut self, deferred_call_handle: DeferredCallHandle)
        ensures
            final(self)@ == (State { handle: Some(deferred_call_handle), ..old(self)@ }),
    {
        self.deferred_call_handle = Some(deferred_call_handle);
    }

    /// The handle on which to ask for a deferred call, once one is set.
    pub fn schedule_deferred_callback(&self) -> (handle: Option<DeferredCallHandle>)
        ensures
            handle == self@.handle,
    {
        self.deferred_call_handle
    }

    /// Registers the client to which completions are reported, in place of
    /// the one before, or registers none.
    pub fn set_client(&mut self, client: Option<ClientHandle>)
        ensures
            final(self)@ == (State { client, ..old(self)@ }),
    {
        self.client = client;
    }

    /// Sets the interval between two timer ticks. The next arming of the
    /// timer uses it.
    pub fn set_speed(&mut self, speed: u32)
        ensures
            final(self)@ == (State { speed, ..old(self)@ }),
    {
        self.speed = speed;
    }

    /// The capacity of the text buffer.
    pub fn get_buffer_len(&self) -> (len: usize)
        ensures
            len == self@.scroll.text.len(),
    {
        self.scroll.capacity()
    }

    /// Columns and rows of the screen: the capacity, on a single line.
    pub fn get_size(&self) -> (size: (usize, usize))
        ensures
            size.0 == self@.scroll.text.len(),
            size.1 == ROWS,
    {
        (self.get_buffer_len(), ROWS)
    }

    /// The kind of the operation in flight.
    pub fn status(&self) -> (status: Status)
        ensures
            status == self@.operation.status(),
    {
        match &self.operation {
            Operation::Idle => Status::Idle,
            Operation::ExecutingCommand => Status::ExecutesCommand,
            Operation::ExecutingPrint { .. } => Status::ExecutesPrint,
        }
    }

    /// Whether frames show glyphs.
    pub fn is_enabled(&self) -> (enabled: bool)
        ensures
            enabled == self@.enabled,
    {
        self.is_enabled
    }

    /// The interval between two timer ticks, in milliseconds.
    pub fn speed(&self) -> (speed: u32)
        ensures
            speed == self@.speed,
    {
        self.speed
    }

    /// The index of the next character to render.
    pub fn position(&self) -> (position: usize)
        ensures
            position == self@.scroll.position,
    {
        self.scroll.position()
    }

    /// The number of valid bytes of text.
    pub fn len(&self) -> (len: usize)
        ensures
            len == self@.scroll.len,
    {
        self.scroll.len()
    }

    /// Makes one step of the scroll and says what to show and whether to
    /// arm the timer again.
    fn display_next(&mut self) -> (effects: Effects)
        requires
            old(self).wf(),
        ensures
            final(self).wf(),
            final(self)@ == old(self)@.ticked(),
            effects@ == old(self)@.tick_effects(),
    {
        let step = self.scroll.advance(self.is_enabled);
        let alarm: Option<u32> = if step.more {
            Some(self.speed)
        } else {
            None
        };
        Effects { frame: step.frame, alarm, deferred: None }
    }

    /// The timer has expired: the scroll makes one step, in any state.
    pub fn alarm(&mut self) -> (effects: Effects)
        requires
            old(self).wf(),
        ensures
            final(self).wf(),
            final(self)@ == old(self)@.ticked(),
            effects@ == old(self)@.tick_effects(),
    {
        self.display_next()
    }

    /// The deferred call is delivered: the operation in flight, if there is
    /// one, is reported as complete, and the driver is idle again. The
    /// buffer of a print leaves the driver with the report.
    pub fn call(&mut self) -> (completion: Option<Completion>)
        requires
            old(self).wf(),
        ensures
            final(self).wf(),
            final(self)@ == old(self)@.completed(),
            completion == old(self)@.completion(),
    {
        let mut finished = Operation::Idle;
        core::mem::swap(&mut self.operation, &mut finished);
        match finished {
            Operation::Idle => None,
            Operation::ExecutingCommand => Some(
                Completion::CommandComplete { client: self.client },
            ),
            Operation::ExecutingPrint { buffer, client_len } => Some(
                Completion::WriteComplete { client: self.client, buffer, len: client_len },
            ),
        }
    }

    /// Hands an event to the entry point that it belongs to.
    pub fn dispatch(&mut self, event: Event) -> (reaction: Reaction)
        requires
            old(self).wf(),
        ensures
            final(self).wf(),
            match event {
                Event::TimerTick => final(self)@ == old(self)@.ticked() && match reaction {
                    Reaction::Scrolled(effects) => effects@ == old(self)@.tick_effects(),
                    Reaction::Completed(_) => false,
                },
                Event::DeferredCall => final(self)@ == old(self)@.completed()
                    && reaction == Reaction::Completed(old(self)@.completion()),
            },
    {
        match event {
            Event::TimerTick => Reaction::Scrolled(self.alarm()),
            Event::DeferredCall => Reaction::Completed(self.call()),
        }
    }

    /// Shows the first `len` bytes of `buffer` as scrolling text.
    ///
    /// Refused with `Busy` while an operation is in flight, and else with
    /// `OversizeWrite` where `len` exceeds the capacity or the buffer's
    /// length; the buffer then comes back as it was and nothing changes.
    /// Otherwise the bytes are written, the buffer is kept for the
    /// completion, and one deferred call is asked for. Where no text was on
    /// display the first character is rendered at once.
    pub fn print(&mut self, buffer: Vec<u8>, len: usize) -> (r: Result<
        Effects,
        (ErrorCode, Vec<u8>),
    >)
        requires
            old(self).wf(),
        ensures
            final(self).wf(),
            match old(self)@.print_refusal(buffer@.len(), len as nat) {
                Some(error) => r == Err::<Effects, (ErrorCode, Vec<u8>)>((error, buffer))
                    && *final(self) == *old(self),
                None => r is Ok && r->Ok_0@ == old(self)@.print_effects(buffer, len)
                    && final(self)@ == old(self)@.printed(buffer, len),
            },
    {
        match &self.operation {
            Operation::Idle => {},
            _ => {
                return Err((ErrorCode::Busy, buffer));
            },
        }
        let previous_len: usize = self.scroll.len();
        match self.scroll.write(buffer.as_slice(), len) {
            Ok(()) => {},
            Err(error) => {
                return Err((error, buffer));
            },
        }
        self.operation = Operation::ExecutingPrint { buffer, client_len: len };
        let deferred = self.schedule_deferred_callback();
        if previous_len == 0 {
            let shown = self.display_next();
            Ok(Effects { frame: shown.frame, alarm: shown.alarm, deferred })
        } else {
            Ok(Effects { frame: None, alarm: None, deferred })
        }
    }

    /// Empties the text and blanks the display at once. Refused with `Busy`
    /// while an operation is in flight; nothing changes then. The timer is
    /// left alone: the next tick finds no text and does not arm it again.
    pub fn clear(&mut self) -> (r: Result<Effects, ErrorCode>)
        requires
            old(self).wf(),
        ensures
            final(self).wf(),
            match old(self)@.busy() {
                Some(error) => r == Err::<Effects, ErrorCode>(error)
                    && *final(self) == *old(self),
                None => r is Ok && r->Ok_0@ == old(self)@.command_effects(Some(blank_frame()))
                    && final(self)@ == old(self)@.cleared(),
            },
    {
        match &self.operation {
            Operation::Idle => {},
            _ => {
                return Err(ErrorCode::Busy);
            },
        }
        let frame = self.scroll.clear();
        self.operation = Operation::ExecutingCommand;
        let deferred = self.schedule_deferred_callback();
        Ok(Effects { frame: Some(frame), alarm: None, deferred })
    }

    /// Lets frames show glyphs again. Refused with `Busy` while an
    /// operation is in flight; nothing changes then.
    pub fn display_on(&mut self) -> (r: Result<Effects, ErrorCode>)
        requires
            old(self).wf(),
        ensures
            final(self).wf(),
            match old(self)@.busy() {
                Some(error) => r == Err::<Effects, ErrorCode>(error)
                    && *final(self) == *old(self),
                None => r is Ok && r->Ok_0@ == old(self)@.command_effects(None)
                    && final(self)@ == old(self)@.switched(true),
            },
    {
        self.switch(true)
    }

    /// Makes every frame blank from the next one on, while the scroll goes
    /// on. Refused with `Busy` while an operation is in flight; nothing
    /// changes then.
    pub fn display_off(&mut self) -> (r: Result<Effects, ErrorCode>)
        requires
            old(self).wf(),
        ensures
            final(self).wf(),
            match old(self)@.busy() {
                Some(error) => r == Err::<Effects, ErrorCode>(error)
                    && *final(self) == *old(self),
                None => r is Ok && r->Ok_0@ == old(self)@.command_effects(None)
                    && final(self)@ == old(self)@.switched(false),
            },
    {
        self.switch(false)
    }

    fn switch(&mut self, enabled: bool) -> (r: Result<Effects, ErrorCode>)
        requires
            old(self).wf(),
        ensures
            final(self).wf(),
            match old(self)@.busy() {
                Some(error) => r == Err::<Effects, ErrorCode>(error)
                    && *final(self) == *old(self),
                None => r is Ok && r->Ok_0@ == old(self)@.command_effects(None)
                    && final(self)@ == old(self)@.switched(enabled),
            },
    {
        match &self.operation {
            Operation::Idle => {},
            _ => {
                return Err(ErrorCode::Busy);
            },
        }
        self.is_enabled = enabled;
        self.operation = Operation::ExecutingCommand;
        let deferred = self.schedule_deferred_callback();
        Ok(Effects { frame: None, alarm: None, deferred })
    }

    /// The display has no cursor to place.
    pub fn set_cursor(&self, _x_position: usize, _y_position: usize) -> (r: Result<(), ErrorCode>)
        ensures
            r == Err::<(), ErrorCode>(ErrorCode::Unsupported),
    {
        Err(ErrorCode::Unsupported)
    }

    /// The display has no cursor to hide.
    pub fn hide_cursor(&self) -> (r: Result<(), ErrorCode>)
        ensures
            r == Err::<(), ErrorCode>(ErrorCode::Unsupported),
    {
        Err(ErrorCode::Unsupported)
    }

    /// The display has no cursor to show.
    pub fn show_cursor(&self) -> (r: Result<(), ErrorCode>)
        ensures
            r == Err::<(), ErrorCode>(ErrorCode::Unsupported),
    {
        Err(ErrorCode::Unsupported)
    }

    /// The display has no cursor to blink.
    pub fn blink_cursor_on(&self) -> (r: Result<(), ErrorCode>)
        ensures
            r == Err::<(), ErrorCode>(ErrorCode::Unsupported),
    {
        Err(ErrorCode::Unsupported)
    }

    /// The display has no cursor to blink.
    pub fn blink_cursor_off(&self) -> (r: Result<(), ErrorCode>)
        ensures
            r == Err::<(), ErrorCode>(ErrorCode::Unsupported),
    {
        Err(ErrorCode::Unsupported)
    }

    /// A numbered command: 0 asks whether the driver is there, 1 sets the
    /// speed to the low 32 bits of `r2`, any other number is refused. None
    /// of them waits for the operation in flight.
    pub fn command(&mut self, command_number: usize, r2: usize) -> (r: CommandReturn)
        ensures
            command_number == 0 ==> r == CommandReturn::Success && *final(self) == *old(self),
            command_number == 1 ==> r == CommandReturn::Success && final(self)@ == (State {
                speed: r2 as u32,
                ..old(self)@
            }),
            command_number > 1 ==> r == CommandReturn::Failure(ErrorCode::Unsupported)
                && *final(self) == *old(self),
    {
        if command_number == 0 {
            CommandReturn::Success
        } else if command_number == 1 {
            let speed: u32 = #[verifier::truncate] (r2 as u32);
            self.set_speed(speed);
            CommandReturn::Success
        } else {
            CommandReturn::Failure(ErrorCode::Unsupported)
        }
    }
}

} // verus!
