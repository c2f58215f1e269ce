use std::cell::RefCell;
use std::rc::Rc;
use tattoy::errors::LoaderError;
use tattoy::errors::TattoyError;
use tattoy::loader::after_tick;
use tattoy::loader::frame_start;
use tattoy::loader::FrameStart;
use tattoy::loader::pause;
use tattoy::loader::target_interval;
use tattoy::loader::FrameUpdate;
use tattoy::loader::Loader;
use tattoy::loader::LoaderAction;
use tattoy::loader::LoaderEvent;
use tattoy::loader::Phase;
use tattoy::loader::Tattoyer;
use tattoy::loader::ONE_SECOND_IN_MICROSECONDS;
use tattoy::loader::TARGET_FRAME_RATE;
use tattoy::protocol::Protocol;
use tattoy::protocol::Scroll;
use tattoy_termwiz::surface::Surface;

/// What the effects of a test write down: their name and what was asked of them.
type Journal = Rc<RefCell<Vec<String>>>;

struct Effect {
    name: String,
    journal: Journal,
    ticks: usize,
    fails_on: Option<usize>,
    width: usize,
    size: (u16, u16),
}

impl Tattoyer for Effect {
    fn tty_size(&self) -> (u16, u16) {
        self.size
    }

    fn ticks_to(&self, after: &Self, made: Result<Surface, TattoyError>) -> bool {
        after.ticks == self.ticks + 1 && made.is_err() == (self.fails_on == Some(after.ticks))
    }

    fn tick(&mut self) -> Result<Surface, TattoyError> {
        self.ticks += 1;
        self.journal.borrow_mut().push(format!("{} tick {}", self.name, self.ticks));
        if self.fails_on == Some(self.ticks) {
            return Err(TattoyError { message: format!("{} broke", self.name) });
        }
        Ok(Surface::new(self.width, self.ticks))
    }

    fn set_tty_size(&mut self, width: u16, height: u16) {
        self.size = (width, height);
        self.journal.borrow_mut().push(format!("{} size {width}x{height}", self.name));
    }
}

fn names(list: &[&str]) -> Vec<String> {
    list.iter().map(|name| (*name).to_owned()).collect()
}

fn registry(journal: &Journal, failing: Option<(&'static str, usize)>) -> impl Fn(&String) -> Option<Effect> {
    let journal = Rc::clone(journal);
    move |name: &String| {
        let width = match name.as_str() {
            "smokey_cursor" => 1,
            "random_walker" => 2,
            "scrollbar" => 3,
            _ => return None,
        };
        let fails_on = match failing {
            Some((broken, tick)) if broken == name => Some(tick),
            _ => None,
        };
        Some(Effect { name: name.clone(), journal: Rc::clone(&journal), ticks: 0, fails_on, width, size: (0, 0) })
    }
}

fn three(journal: &Journal, failing: Option<(&'static str, usize)>) -> Loader<Effect> {
    match Loader::new(names(&["smokey_cursor", "random_walker", "scrollbar"]), registry(journal, failing)) {
        Ok(loader) => loader,
        Err(error) => panic!("no loader: {error:?}"),
    }
}

fn width_of(action: &LoaderAction) -> usize {
    match action {
        LoaderAction::Forward(FrameUpdate::TattoySurface(surface)) => surface.dimensions().0,
        _ => panic!("no surface is handed on"),
    }
}

/// Runs frames until the loader stops, as a driver would whose channel takes
/// everything and whose frames take no time. Returns the surfaces handed on and the
/// result.
fn run(loader: &mut Loader<Effect>, end_after: usize) -> (Vec<usize>, Result<(), LoaderError>) {
    let mut forwarded = Vec::new();
    let mut polls = 0;
    let mut action = loader.start();
    loop {
        let event = match action {
            LoaderAction::Poll | LoaderAction::Sleep(_) => {
                polls += 1;
                LoaderEvent::Polled(if polls > end_after { Some(Protocol::End) } else { None })
            }
            LoaderAction::Forward(FrameUpdate::TattoySurface(surface)) => {
                forwarded.push(surface.dimensions().0);
                LoaderEvent::Forwarded(true)
            }
            LoaderAction::Measure => LoaderEvent::Timed(0),
            LoaderAction::Stop(result) => return (forwarded, result),
        };
        action = loader.step(event);
    }
}

#[test]
fn loader_without_names_fails() {
    let journal = Journal::default();
    let made = Loader::new(Vec::new(), registry(&journal, None));
    assert!(matches!(made, Err(LoaderError::NoTattoys)));
    assert!(journal.borrow().is_empty());
}

#[test]
fn loader_with_an_unknown_name_fails() {
    let journal = Journal::default();
    let made = Loader::new(names(&["smokey_cursor", "nonesuch", "scrollbar"]), registry(&journal, None));
    assert!(matches!(made, Err(LoaderError::UnknownTattoy { index: 1 })));
}

#[test]
fn loader_with_only_an_unknown_name_fails() {
    let journal = Journal::default();
    let made = Loader::new(names(&["nonesuch"]), registry(&journal, None));
    assert!(matches!(made, Err(LoaderError::UnknownTattoy { index: 0 })));
}

#[test]
fn loader_has_every_effect() {
    let journal = Journal::default();
    let loader = three(&journal, None);
    assert_eq!(loader.len(), 3);
    assert_eq!(loader.phase(), Phase::Idle);
}

#[test]
fn loader_starts_with_a_poll() {
    let journal = Journal::default();
    let loader = three(&journal, None);
    assert!(matches!(loader.start(), LoaderAction::Poll));
}

#[test]
fn effects_tick_in_the_order_asked_for() {
    let journal = Journal::default();
    let mut loader = three(&journal, None);
    let action = loader.step(LoaderEvent::Polled(None));
    assert_eq!(width_of(&action), 1);
    assert_eq!(loader.phase(), Phase::Forwarding { next: 1 });
    let action = loader.step(LoaderEvent::Forwarded(true));
    assert_eq!(width_of(&action), 2);
    assert_eq!(loader.phase(), Phase::Forwarding { next: 2 });
    let action = loader.step(LoaderEvent::Forwarded(true));
    assert_eq!(width_of(&action), 3);
    assert_eq!(loader.phase(), Phase::Forwarding { next: 3 });
    let action = loader.step(LoaderEvent::Forwarded(true));
    assert!(matches!(action, LoaderAction::Measure));
    assert_eq!(loader.phase(), Phase::Timing);
    assert_eq!(*journal.borrow(), vec!["smokey_cursor tick 1", "random_walker tick 1", "scrollbar tick 1"]);
}

#[test]
fn each_surface_is_handed_on_before_the_next_tick() {
    let journal = Journal::default();
    let mut loader = three(&journal, None);
    loader.step(LoaderEvent::Polled(None));
    assert_eq!(*journal.borrow(), vec!["smokey_cursor tick 1"]);
    loader.step(LoaderEvent::Forwarded(true));
    assert_eq!(*journal.borrow(), vec!["smokey_cursor tick 1", "random_walker tick 1"]);
}

#[test]
fn new_size_goes_to_every_effect_before_the_ticks() {
    let journal = Journal::default();
    let mut loader = three(&journal, None);
    let action = loader.step(LoaderEvent::Polled(Some(Protocol::Resize { width: 80, height: 24 })));
    assert_eq!(width_of(&action), 1);
    assert_eq!(
        *journal.borrow(),
        vec!["smokey_cursor size 80x24", "random_walker size 80x24", "scrollbar size 80x24", "smokey_cursor tick 1"]
    );
}

#[test]
fn set_tty_size_reaches_every_effect() {
    let journal = Journal::default();
    let mut loader = three(&journal, None);
    loader.set_tty_size(10, 4);
    assert_eq!(*journal.borrow(), vec!["smokey_cursor size 10x4", "random_walker size 10x4", "scrollbar size 10x4"]);
    assert_eq!(loader.len(), 3);
}

#[test]
fn other_messages_do_not_stop_the_frame() {
    let journal = Journal::default();
    let mut loader = three(&journal, None);
    let action = loader.step(LoaderEvent::Polled(Some(Protocol::Scroll(Scroll::Up))));
    assert_eq!(width_of(&action), 1);
    assert_eq!(*journal.borrow(), vec!["smokey_cursor tick 1"]);
}

#[test]
fn end_stops_the_loader_before_any_tick() {
    let journal = Journal::default();
    let mut loader = three(&journal, None);
    let action = loader.step(LoaderEvent::Polled(Some(Protocol::End)));
    assert!(matches!(action, LoaderAction::Stop(Ok(()))));
    assert_eq!(loader.phase(), Phase::Stopped);
    assert!(journal.borrow().is_empty());
}

#[test]
fn refused_surface_stops_the_loader() {
    let journal = Journal::default();
    let mut loader = three(&journal, None);
    loader.step(LoaderEvent::Polled(None));
    loader.step(LoaderEvent::Forwarded(true));
    let action = loader.step(LoaderEvent::Forwarded(false));
    assert!(matches!(action, LoaderAction::Stop(Err(LoaderError::OutputRefused { index: 1 }))));
    assert_eq!(loader.phase(), Phase::Stopped);
    assert_eq!(*journal.borrow(), vec!["smokey_cursor tick 1", "random_walker tick 1"]);
}

#[test]
fn failing_effect_stops_the_loader() {
    let journal = Journal::default();
    let mut loader = three(&journal, Some(("smokey_cursor", 1)));
    let action = loader.step(LoaderEvent::Polled(None));
    match action {
        LoaderAction::Stop(Err(LoaderError::Tattoy { index, error })) => {
            assert_eq!(index, 0);
            assert_eq!(error.message, "smokey_cursor broke");
        }
        _ => panic!("the loader went on"),
    }
    assert_eq!(loader.phase(), Phase::Stopped);
}

#[test]
fn frame_within_the_interval_sleeps_the_rest() {
    let journal = Journal::default();
    let mut loader = three(&journal, None);
    loader.step(LoaderEvent::Polled(None));
    loader.step(LoaderEvent::Forwarded(true));
    loader.step(LoaderEvent::Forwarded(true));
    loader.step(LoaderEvent::Forwarded(true));
    let action = loader.step(LoaderEvent::Timed(10_000_000));
    assert!(matches!(action, LoaderAction::Sleep(23_333_000)));
    assert_eq!(loader.phase(), Phase::Idle);
}

#[test]
fn frame_that_overruns_does_not_sleep() {
    let journal = Journal::default();
    let mut loader = three(&journal, None);
    loader.step(LoaderEvent::Polled(None));
    loader.step(LoaderEvent::Forwarded(true));
    loader.step(LoaderEvent::Forwarded(true));
    loader.step(LoaderEvent::Forwarded(true));
    let action = loader.step(LoaderEvent::Timed(50_000_000));
    assert!(matches!(action, LoaderAction::Poll));
    assert_eq!(loader.phase(), Phase::Idle);
}

#[test]
fn overrun_is_not_carried_to_the_next_frame() {
    let journal = Journal::default();
    let mut loader = three(&journal, None);
    for elapsed in [500_000_000_u128, 1_000_000] {
        loader.step(LoaderEvent::Polled(None));
        loader.step(LoaderEvent::Forwarded(true));
        loader.step(LoaderEvent::Forwarded(true));
        loader.step(LoaderEvent::Forwarded(true));
        let action = loader.step(LoaderEvent::Timed(elapsed));
        if elapsed == 1_000_000 {
            assert!(matches!(action, LoaderAction::Sleep(32_333_000)));
        } else {
            assert!(matches!(action, LoaderAction::Poll));
        }
    }
}

#[test]
fn loader_runs_until_end() {
    let journal = Journal::default();
    let mut loader = three(&journal, None);
    let (forwarded, result) = run(&mut loader, 4);
    assert!(matches!(result, Ok(())));
    assert_eq!(forwarded, vec![1, 2, 3, 1, 2, 3, 1, 2, 3, 1, 2, 3]);
}

#[test]
fn effect_that_fails_on_the_fifth_frame_ends_the_loop() {
    let journal = Journal::default();
    let mut loader = three(&journal, Some(("random_walker", 5)));
    let (forwarded, result) = run(&mut loader, 100);
    match result {
        Err(LoaderError::Tattoy { index, error }) => {
            assert_eq!(index, 1);
            assert_eq!(error.message, "random_walker broke");
        }
        _ => panic!("the loop did not fail"),
    }
    assert_eq!(forwarded, vec![1, 2, 3, 1, 2, 3, 1, 2, 3, 1, 2, 3, 1]);
    assert_eq!(loader.phase(), Phase::Stopped);
    let journal = journal.borrow();
    assert_eq!(journal.len(), 14);
    assert_eq!(journal[12], "smokey_cursor tick 5");
    assert_eq!(journal[13], "random_walker tick 5");
    assert!(!journal.contains(&"scrollbar tick 5".to_owned()));
}

#[test]
fn interval_at_thirty_frames_is_33333_microseconds() {
    assert_eq!(TARGET_FRAME_RATE, 30);
    assert_eq!(ONE_SECOND_IN_MICROSECONDS, 1_000_000);
    assert_eq!(target_interval(30), 33_333);
}

#[test]
fn interval_is_rounded_down() {
    assert_eq!(target_interval(1), 1_000_000);
    assert_eq!(target_interval(60), 16_666);
    assert_eq!(target_interval(3), 333_333);
    assert_eq!(target_interval(1_000_000), 1);
    assert_eq!(target_interval(1_000_001), 0);
    assert_eq!(target_interval(u64::MAX), 0);
}

#[test]
fn pause_is_what_is_left_of_the_interval() {
    assert_eq!(pause(33_333, 0), Some(33_333_000));
    assert_eq!(pause(33_333, 10_000_000), Some(23_333_000));
    assert_eq!(pause(33_333, 33_332_999), Some(1));
}

#[test]
fn pause_is_zero_when_the_frame_took_the_interval() {
    assert_eq!(pause(33_333, 33_333_000), Some(0));
    assert_eq!(pause(0, 0), Some(0));
}

#[test]
fn pause_is_none_when_the_frame_overran() {
    assert_eq!(pause(33_333, 33_333_001), None);
    assert_eq!(pause(33_333, 40_000_000), None);
    assert_eq!(pause(33_333, u128::MAX), None);
    assert_eq!(pause(0, 1), None);
}

#[test]
fn tick_that_succeeds_hands_its_surface_on() {
    let (phase, action) = after_tick(4, Ok(Surface::new(7, 2)));
    assert_eq!(phase, Phase::Forwarding { next: 5 });
    match action {
        LoaderAction::Forward(FrameUpdate::TattoySurface(surface)) => assert_eq!(surface.dimensions(), (7, 2)),
        _ => panic!("no surface is handed on"),
    }
}

#[test]
fn tick_that_fails_ends_the_loader() {
    let (phase, action) = after_tick(4, Err(TattoyError { message: "no".to_owned() }));
    assert_eq!(phase, Phase::Stopped);
    match action {
        LoaderAction::Stop(Err(LoaderError::Tattoy { index, error })) => {
            assert_eq!(index, 4);
            assert_eq!(error.message, "no");
        }
        _ => panic!("the loader went on"),
    }
}

#[test]
fn end_on_the_bus_ends_the_frame_before_it_starts() {
    assert_eq!(frame_start(Some(Protocol::End)), FrameStart::End);
}

#[test]
fn resize_on_the_bus_is_for_the_effects() {
    assert_eq!(
        frame_start(Some(Protocol::Resize { width: 120, height: 40 })),
        FrameStart::Resized { width: 120, height: 40 }
    );
}

#[test]
fn other_messages_and_none_let_the_effects_tick() {
    assert_eq!(frame_start(None), FrameStart::Tick);
    assert_eq!(frame_start(Some(Protocol::Scroll(Scroll::Cancel))), FrameStart::Tick);
    assert_eq!(frame_start(Some(Protocol::IsAlternateScreen(true))), FrameStart::Tick);
}

#[test]
fn loader_waits_for_one_kind_of_event_at_a_time() {
    let journal = Journal::default();
    let mut loader = three(&journal, None);
    assert!(loader.awaits(&LoaderEvent::Polled(None)));
    assert!(!loader.awaits(&LoaderEvent::Forwarded(true)));
    assert!(!loader.awaits(&LoaderEvent::Timed(0)));
    loader.step(LoaderEvent::Polled(None));
    assert!(loader.awaits(&LoaderEvent::Forwarded(false)));
    assert!(!loader.awaits(&LoaderEvent::Polled(None)));
    loader.step(LoaderEvent::Forwarded(true));
    loader.step(LoaderEvent::Forwarded(true));
    loader.step(LoaderEvent::Forwarded(true));
    assert!(loader.awaits(&LoaderEvent::Timed(7)));
    assert!(!loader.awaits(&LoaderEvent::Forwarded(true)));
}

#[test]
fn stopped_loader_waits_for_nothing() {
    let journal = Journal::default();
    let mut loader = three(&journal, None);
    loader.step(LoaderEvent::Polled(Some(Protocol::End)));
    assert!(!loader.awaits(&LoaderEvent::Polled(None)));
    assert!(!loader.awaits(&LoaderEvent::Forwarded(true)));
    assert!(!loader.awaits(&LoaderEvent::Timed(0)));
}
