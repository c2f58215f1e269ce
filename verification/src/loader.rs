//! The loader: it owns the effects, ticks each of them once per frame, in the order
//! in which they were asked for, and paces the frames.
//!
//! The loader does no waiting and no sending itself. It is driven: `step` takes what
//! happened and answers with what to do next.

use crate::errors::LoaderError;
use crate::errors::TattoyError;
use crate::protocol::Protocol;
use vstd::prelude::*;

verus! {

/// Microseconds in a second.
pub const ONE_SECOND_IN_MICROSECONDS: u64 = 1_000_000;

/// Frames per second that the loader aims at.
pub const TARGET_FRAME_RATE: u64 = 30;

/// What every effect can do. The loader asks nothing else of it. No effect is part of
/// this library, so what the two methods promise is proved of none: it is what an
/// effect has to do to be one.
pub trait Tattoyer: Sized {
    /// The size of the terminal that the effect draws for, in cells, columns first.
    spec fn tty_size(&self) -> (u16, u16);

    /// Whether one tick can take this effect to `after` and make `made`. Each effect
    /// says for itself what its ticks do; the loader only hands on what was made.
    spec fn ticks_to(&self, after: &Self, made: Result<tattoy_termwiz::surface::Surface, TattoyError>) -> bool;

    /// Makes the surface of this frame, or fails.
    fn tick(&mut self) -> (made: Result<tattoy_termwiz::surface::Surface, TattoyError>)
        ensures
            old(self).ticks_to(final(self), made),
    ;

    /// Tells the effect the size of the terminal, in cells. From then on the effect
    /// draws for a terminal of that size.
    fn set_tty_size(&mut self, width: u16, height: u16)
        ensures
            final(self).tty_size() == (width, height),
    ;
}

/// What the loader hands on.
pub enum FrameUpdate {
    /// The surface that one effect made for this frame.
    TattoySurface(tattoy_termwiz::surface::Surface),
}

/// Where the loader stands in its frame.
#[derive(Clone, Copy, Debug, PartialEq, Eq, Structural)]
pub enum Phase {
    /// Between two frames: the bus is polled next.
    Idle,
    /// A surface is being handed on; `next` is the place of the effect to tick after it.
    Forwarding { next: usize },
    /// Every effect has ticked; the time that the frame took is measured next.
    Timing,
    /// The loader has ended. Nothing follows.
    Stopped,
}

/// What happened since the loader's last answer.
pub enum LoaderEvent {
    /// The bus was polled without waiting, with the message that was there, if any.
    Polled(Option<Protocol>),
    /// The surface was handed on without waiting (`true`), or the channel refused it.
    Forwarded(bool),
    /// The time since this frame's poll, in nanoseconds.
    Timed(u128),
}

/// What the loader's driver does next.
pub enum LoaderAction {
    /// Note the time as the frame's start, poll the bus without waiting, and report
    /// `Polled`.
    Poll,
    /// Hand the surface on without waiting, and report `Forwarded`.
    Forward(FrameUpdate),
    /// Report `Timed` with the time since the frame's start.
    Measure,
    /// Sleep for so many nanoseconds, then do as for `Poll`.
    Sleep(u64),
    /// Leave the loop with this result.
    Stop(Result<(), LoaderError>),
}

/// Whether `event` is what the driver reports once it has done `action`. A driver
/// that does what it is told always hands the loader the event that it waits for.
pub open spec fn answers(action: LoaderAction, event: LoaderEvent) -> bool {
    match (action, event) {
        (LoaderAction::Poll, LoaderEvent::Polled(_)) => true,
        (LoaderAction::Sleep(_), LoaderEvent::Polled(_)) => true,
        (LoaderAction::Forward(_), LoaderEvent::Forwarded(_)) => true,
        (LoaderAction::Measure, LoaderEvent::Timed(_)) => true,
        _ => false,
    }
}

/// The time between the starts of two frames, in microseconds, rounded down.
pub open spec fn frame_interval(target_hz: nat) -> nat {
    (ONE_SECOND_IN_MICROSECONDS as nat) / target_hz
}

/// How long to sleep after a frame that took `elapsed` nanoseconds: what is left of
/// the interval, or nothing at all where the frame took longer than the interval.
pub open spec fn pause_for(interval_micros: nat, elapsed_nanos: nat) -> Option<nat> {
    if elapsed_nanos <= interval_micros * 1000 {
        Some((interval_micros * 1000 - elapsed_nanos) as nat)
    } else {
        None
    }
}

/// Computes `frame_interval`.
pub fn target_interval(target_hz: u64) -> (micros: u64)
    requires
        target_hz > 0,
    ensures
        micros == frame_interval(target_hz as nat),
        micros <= ONE_SECOND_IN_MICROSECONDS,
{
    ONE_SECOND_IN_MICROSECONDS / target_hz
}

/// Computes `pause_for`.
pub fn pause(interval_micros: u64, elapsed_nanos: u128) -> (sleep: Option<u64>)
    requires
        interval_micros <= ONE_SECOND_IN_MICROSECONDS,
    ensures
        match sleep {
            Some(nanos) => pause_for(interval_micros as nat, elapsed_nanos as nat) == Some(nanos as nat),
            None => pause_for(interval_micros as nat, elapsed_nanos as nat) is None,
        },
{
    let budget: u64 = interval_micros * 1000;
    if elapsed_nanos <= budget as u128 {
        let spent: u64 = elapsed_nanos as u64;
        Some(budget - spent)
    } else {
        None
    }
}

/// A frame that stays within the interval is followed by a sleep that fills the
/// interval exactly, so two frames never start closer than the interval. A frame that
/// overruns is followed by no sleep, and the sleep after any frame depends on that
/// frame's time alone: nothing is carried over.
pub proof fn lemma_pacing(interval_micros: nat, elapsed_nanos: nat)
    ensures
        elapsed_nanos <= interval_micros * 1000 ==> {
            &&& pause_for(interval_micros, elapsed_nanos) matches Some(sleep)
            &&& elapsed_nanos + sleep == interval_micros * 1000
        },
        elapsed_nanos > interval_micros * 1000 ==> pause_for(interval_micros, elapsed_nanos) is None,
{
}

/// What the poll at the start of a frame leads to.
#[derive(Clone, Copy, Debug, PartialEq, Eq, Structural)]
pub enum FrameStart {
    /// `End` was on the bus: the loader ends before any effect ticks.
    End,
    /// The terminal has a new size: every effect is told, and then they tick.
    Resized { width: u16, height: u16 },
    /// The effects tick.
    Tick,
}

/// What the message that the poll found, if any, leads to. Only `End` and `Resize` are
/// for the loader.
pub fn frame_start(message: Option<Protocol>) -> (start: FrameStart)
    ensures
        start == match message {
            Some(Protocol::End) => FrameStart::End,
            Some(Protocol::Resize { width, height }) => FrameStart::Resized { width, height },
            _ => FrameStart::Tick,
        },
{
    match message {
        Some(Protocol::End) => FrameStart::End,
        Some(Protocol::Resize { width, height }) => FrameStart::Resized { width, height },
        _ => FrameStart::Tick,
    }
}

/// What follows from one tick of the effect at place `index`: its surface is handed
/// on and the effect after it is next, or its failure ends the loader.
pub open spec fn tick_outcome(
    index: usize,
    made: Result<tattoy_termwiz::surface::Surface, TattoyError>,
) -> (Phase, LoaderAction) {
    match made {
        Ok(surface) => (
            Phase::Forwarding { next: (index + 1) as usize },
            LoaderAction::Forward(FrameUpdate::TattoySurface(surface)),
        ),
        Err(error) => (Phase::Stopped, LoaderAction::Stop(Err(LoaderError::Tattoy { index, error }))),
    }
}

/// Whether a place in the frame and an answer are what follows from one tick of the
/// effect at place `index` that made `made`.
pub open spec fn follows_tick(
    standing: Phase,
    action: LoaderAction,
    index: nat,
    made: Result<tattoy_termwiz::surface::Surface, TattoyError>,
) -> bool {
    match made {
        Ok(surface) => {
            &&& standing matches Phase::Forwarding { next }
            &&& next == index + 1
            &&& action == LoaderAction::Forward(FrameUpdate::TattoySurface(surface))
        },
        Err(error) => {
            &&& standing == Phase::Stopped
            &&& action matches LoaderAction::Stop(Err(LoaderError::Tattoy { index: failed, error: told }))
            &&& failed == index
            &&& told == error
        },
    }
}

/// Computes `tick_outcome`.
pub fn after_tick(index: usize, ticked: Result<tattoy_termwiz::surface::Surface, TattoyError>) -> (next: (Phase, LoaderAction))
    requires
        index < usize::MAX,
    ensures
        next == tick_outcome(index, ticked),
        follows_tick(next.0, next.1, index as nat, ticked),
{
    match ticked {
        Ok(surface) => (Phase::Forwarding { next: index + 1 }, LoaderAction::Forward(FrameUpdate::TattoySurface(surface))),
        Err(error) => (Phase::Stopped, LoaderAction::Stop(Err(LoaderError::Tattoy { index, error }))),
    }
}

/// Whether `create_instance` can answer this name with an effect.
pub open spec fn can_make<T, F: Fn(&String) -> Option<T>>(create_instance: F, name: &String) -> bool {
    exists|tattoy: T| #[trigger] call_ensures(create_instance, (name,), Some(tattoy))
}

/// The effects that are run, and where their frame stands.
pub struct Loader<T: Tattoyer> {
    /// The effects, in the order in which they were asked for.
    tattoys: Vec<T>,
    /// Where the frame stands.
    phase: Phase,
}

impl<T: Tattoyer> Loader<T> {
    /// The effects, in order.
    pub closed spec fn effects(&self) -> Seq<T> {
        self.tattoys@
    }

    /// The number of effects.
    pub open spec fn count(&self) -> nat {
        self.effects().len()
    }

    /// Where the frame stands.
    pub closed spec fn standing(&self) -> Phase {
        self.phase
    }

    /// What holds of a loader between any two calls: it has an effect, and the effect
    /// that is next has a place.
    pub open spec fn wf(&self) -> bool {
        &&& self.count() > 0
        &&& self.standing() matches Phase::Forwarding { next } ==> 1 <= next <= self.count()
    }

    /// Whether the event is the one that the loader waits for.
    pub open spec fn expects(&self, event: LoaderEvent) -> bool {
        match (self.standing(), event) {
            (Phase::Idle, LoaderEvent::Polled(_)) => true,
            (Phase::Forwarding { .. }, LoaderEvent::Forwarded(_)) => true,
            (Phase::Timing, LoaderEvent::Timed(_)) => true,
            _ => false,
        }
    }

    /// How this loader follows from the effects `before` once those from place `index`
    /// on are to tick. The effect at `index` has ticked once, and what it made decides:
    /// its surface is handed on, or its failure ends the loader. Where no effect is left
    /// the frame's time is asked for. Every other effect is as it was.
    pub open spec fn ticked_from(&self, before: Seq<T>, index: nat, action: LoaderAction) -> bool {
        &&& self.effects().len() == before.len()
        &&& forall|i: int| 0 <= i < before.len() && i != index ==> #[trigger] self.effects()[i] == before[i]
        &&& if index < before.len() {
            exists|made: Result<tattoy_termwiz::surface::Surface, TattoyError>|
                {
                    &&& #[trigger] before[index as int].ticks_to(&self.effects()[index as int], made)
                    &&& follows_tick(self.standing(), action, index, made)
                }
        } else {
            &&& action is Measure
            &&& self.standing() == Phase::Timing
        }
    }

    /// How this loader follows from `before` once every effect was told a new size and
    /// those from place 0 on are to tick: there was a moment at which each effect drew
    /// for the new size, and from there the loader went on as `ticked_from` says.
    pub open spec fn told_and_ticked(&self, before: &Self, width: u16, height: u16, action: LoaderAction) -> bool {
        exists|told: Seq<T>|
            {
                &&& told.len() == before.count()
                &&& forall|i: int| 0 <= i < told.len() ==> (#[trigger] told[i]).tty_size() == (width, height)
                &&& #[trigger] self.ticked_from(told, 0, action)
            }
    }

    /// A loader that has stopped waits for nothing: no event is taken, so no effect
    /// ticks and no surface is handed on after it.
    pub proof fn lemma_stopped_is_final(&self, event: LoaderEvent)
        requires
            self.standing() == Phase::Stopped,
        ensures
            !self.expects(event),
    {
    }

    /// Makes each effect that was asked for, in order, with `create_instance`.
    ///
    /// Fails where no effect was asked for, and at the first name for which
    /// `create_instance` has no effect. A loader is returned with every effect or not
    /// at all.
    pub fn new<F>(requested_tattoys: Vec<String>, create_instance: F) -> (made: Result<Self, LoaderError>)
        where
            F: Fn(&String) -> Option<T>,
        requires
            forall|name: &String| call_requires(create_instance, (name,)),
        ensures
            match made {
                Ok(loader) => {
                    &&& loader.wf()
                    &&& loader.standing() == Phase::Idle
                    &&& loader.count() == requested_tattoys@.len()
                    &&& forall|i: int|
                        0 <= i < requested_tattoys@.len() ==> call_ensures(
                            create_instance,
                            (&#[trigger] requested_tattoys@[i],),
                            Some(loader.effects()[i]),
                        )
                },
                Err(LoaderError::NoTattoys) => requested_tattoys@.len() == 0,
                Err(LoaderError::UnknownTattoy { index }) => {
                    &&& index < requested_tattoys@.len()
                    &&& call_ensures(create_instance, (&requested_tattoys@[index as int],), None)
                    &&& forall|i: int|
                        0 <= i < index ==> can_make::<T, F>(create_instance, &#[trigger] requested_tattoys@[i])
                },
                Err(_) => false,
            },
            requested_tattoys@.len() == 0 ==> made matches Err(LoaderError::NoTattoys),
    {
        let mut tattoys: Vec<T> = Vec::new();
        let mut index: usize = 0;
        while index < requested_tattoys.len()
            invariant
                index <= requested_tattoys@.len(),
                tattoys@.len() == index,
                forall|name: &String| call_requires(create_instance, (name,)),
                forall|i: int|
                    0 <= i < index ==> call_ensures(
                        create_instance,
                        (&#[trigger] requested_tattoys@[i],),
                        Some(tattoys@[i]),
                    ),
                forall|i: int|
                    0 <= i < index ==> can_make::<T, F>(create_instance, &#[trigger] requested_tattoys@[i]),
            decreases requested_tattoys@.len() - index,
        {
            let instance = create_instance(&requested_tattoys[index]);
            match instance {
                Some(tattoy) => {
                    tattoys.push(tattoy);
                },
                None => {
                    return Err(LoaderError::UnknownTattoy { index });
                },
            }
            index = index + 1;
        }
        if tattoys.len() == 0 {
            return Err(LoaderError::NoTattoys);
        }
        Ok(Loader { tattoys, phase: Phase::Idle })
    }

    /// The number of effects.
    pub fn len(&self) -> (count: usize)
        ensures
            count == self.count(),
    {
        self.tattoys.len()
    }

    /// Where the frame stands.
    pub fn phase(&self) -> (phase: Phase)
        ensures
            phase == self.standing(),
    {
        self.phase
    }

    /// Computes `expects`.
    pub fn awaits(&self, event: &LoaderEvent) -> (awaited: bool)
        ensures
            awaited == self.expects(*event),
    {
        match (self.phase, event) {
            (Phase::Idle, LoaderEvent::Polled(_)) => true,
            (Phase::Forwarding { .. }, LoaderEvent::Forwarded(_)) => true,
            (Phase::Timing, LoaderEvent::Timed(_)) => true,
            _ => false,
        }
    }

    /// Tells every effect the size of the terminal, in order: afterwards each of them
    /// draws for a terminal of that size. Nothing else of the loader changes.
    pub fn set_tty_size(&mut self, width: u16, height: u16)
        ensures
            final(self).count() == old(self).count(),
            final(self).standing() == old(self).standing(),
            final(self).sized(width, height),
    {
        let mut index: usize = 0;
        while index < self.tattoys.len()
            invariant
                index <= self.tattoys@.len(),
                self.tattoys@.len() == old(self).tattoys@.len(),
                self.phase == old(self).phase,
                forall|i: int| 0 <= i < index ==> (#[trigger] self.tattoys@[i]).tty_size() == (width, height),
            decreases self.tattoys@.len() - index,
        {
            self.tattoys[index].set_tty_size(width, height);
            index = index + 1;
        }
    }

    /// Every effect draws for a terminal of this size.
    pub open spec fn sized(&self, width: u16, height: u16) -> bool {
        forall|i: int| 0 <= i < self.count() ==> (#[trigger] self.effects()[i]).tty_size() == (width, height)
    }

    /// What the driver does first: poll the bus.
    pub fn start(&self) -> (action: LoaderAction)
        ensures
            action is Poll,
            self.standing() == Phase::Idle ==> forall|next: LoaderEvent| #[trigger]
                self.expects(next) <==> answers(action, next),
    {
        LoaderAction::Poll
    }

    /// Ticks the effect at place `index`, or closes the frame where none is left.
    fn tick_from(&mut self, index: usize) -> (action: LoaderAction)
        requires
            index <= old(self).count(),
        ensures
            final(self).ticked_from(old(self).effects(), index as nat, action),
    {
        if index < self.tattoys.len() {
            let ghost before = self.tattoys@[index as int];
            let ticked = self.tattoys[index].tick();
            let next = after_tick(index, ticked);
            self.phase = next.0;
            proof {
                assert(before.ticks_to(&self.tattoys@[index as int], ticked));
            }
            next.1
        } else {
            self.phase = Phase::Timing;
            LoaderAction::Measure
        }
    }

    /// One turn of the loader: what to do after what happened.
    ///
    /// A frame starts with the poll of the bus: `End` ends the loader, a new size goes
    /// to every effect. Then the effects tick in order, each surface handed on at once;
    /// a surface that is refused ends the loader, and so does an effect that fails.
    /// When all have ticked the frame is timed and the rest of the interval is slept.
    ///
    /// An effect is only touched when it is its turn: but for a new size, which goes to
    /// all, every effect other than the one that ticks is left as it was. What the
    /// loader answers after a tick is what follows from what the tick made.
    pub fn step(&mut self, event: LoaderEvent) -> (action: LoaderAction)
        requires
            old(self).wf(),
            old(self).expects(event),
        ensures
            final(self).wf(),
            final(self).count() == old(self).count(),
            action is Stop <==> final(self).standing() == Phase::Stopped,
            forall|next: LoaderEvent| #[trigger] final(self).expects(next) <==> answers(action, next),
            match (old(self).standing(), event) {
                (Phase::Idle, LoaderEvent::Polled(Some(Protocol::End))) => {
                    &&& action == LoaderAction::Stop(Ok(()))
                    &&& final(self).effects() == old(self).effects()
                },
                (Phase::Idle, LoaderEvent::Polled(Some(Protocol::Resize { width, height }))) => {
                    &&& final(self).told_and_ticked(old(self), width, height, action)
                    &&& forall|i: int|
                        1 <= i < final(self).count() ==> (#[trigger] final(self).effects()[i]).tty_size() == (
                            width,
                            height,
                        )
                },
                (Phase::Idle, LoaderEvent::Polled(_)) => final(self).ticked_from(old(self).effects(), 0, action),
                (Phase::Forwarding { next }, LoaderEvent::Forwarded(true)) => final(self).ticked_from(
                    old(self).effects(),
                    next as nat,
                    action,
                ),
                (Phase::Forwarding { next }, LoaderEvent::Forwarded(false)) => {
                    &&& action == LoaderAction::Stop(
                        Err(LoaderError::OutputRefused { index: (next - 1) as usize }),
                    )
                    &&& final(self).effects() == old(self).effects()
                },
                (Phase::Timing, LoaderEvent::Timed(elapsed)) => {
                    &&& final(self).standing() == Phase::Idle
                    &&& final(self).effects() == old(self).effects()
                    &&& action == match pause_for(frame_interval(TARGET_FRAME_RATE as nat), elapsed as nat) {
                        Some(nanos) => LoaderAction::Sleep(nanos as u64),
                        None => LoaderAction::Poll,
                    }
                },
                _ => false,
            },
    {
        match (self.phase, event) {
            (Phase::Idle, LoaderEvent::Polled(message)) => {
                match frame_start(message) {
                    FrameStart::End => {
                        self.phase = Phase::Stopped;
                        LoaderAction::Stop(Ok(()))
                    },
                    FrameStart::Resized { width, height } => {
                        self.set_tty_size(width, height);
                        let ghost told = self.tattoys@;
                        let action = self.tick_from(0);
                        proof {
                            assert(self.ticked_from(told, 0, action));
                        }
                        action
                    },
                    FrameStart::Tick => self.tick_from(0),
                }
            },
            (Phase::Forwarding { next }, LoaderEvent::Forwarded(sent)) => {
                if sent {
                    self.tick_from(next)
                } else {
                    self.phase = Phase::Stopped;
                    LoaderAction::Stop(Err(LoaderError::OutputRefused { index: next - 1 }))
                }
            },
            (Phase::Timing, LoaderEvent::Timed(elapsed)) => {
                self.phase = Phase::Idle;
                match pause(target_interval(TARGET_FRAME_RATE), elapsed) {
                    Some(nanos) => LoaderAction::Sleep(nanos),
                    None => LoaderAction::Poll,
                }
            },
            // No other event is expected where the loader stands.
            _ => LoaderAction::Stop(Ok(())),
        }
    }
}

} // verus!
