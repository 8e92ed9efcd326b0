//! The event-loop state machine. Each iteration of the native message pump
//! hands over what the hotkey and menu channels held; the machine answers
//! with the actions to perform, in order.
//!
//! Every pressed-hotkey event and every toggle-menu event yields its own
//! toggle: bursts are not coalesced, so each press the user makes is honoured.
use vstd::prelude::*;

verus! {

/// Whether the loop still handles events.
#[derive(Clone, Copy, Debug, PartialEq, Eq, Structural)]
pub enum LoopState {
    Running,
    Terminated,
}

/// Which tray menu item an event came from.
#[derive(Clone, Copy, Debug, PartialEq, Eq, Structural)]
pub enum MenuChoice {
    Toggle,
    Quit,
    Other,
}

/// One event taken from a channel.
#[derive(Clone, Copy, Debug, PartialEq, Eq, Structural)]
pub enum LoopEvent {
    /// A hotkey transition: pressed or released.
    Hotkey { pressed: bool },
    Menu(MenuChoice),
}

/// What the loop asks of its surroundings for one event.
#[derive(Clone, Copy, Debug, PartialEq, Eq, Structural)]
pub enum Action {
    /// Toggle the microphone mute flag and show the result.
    Toggle,
    /// Leave the loop and end the process.
    Exit,
    /// Nothing to do.
    Idle,
}

/// The state after an event, and the action it calls for.
pub open spec fn step_spec(state: LoopState, event: LoopEvent) -> (LoopState, Action) {
    match state {
        LoopState::Terminated => (LoopState::Terminated, Action::Idle),
        LoopState::Running => match event {
            LoopEvent::Hotkey { pressed } => (
                LoopState::Running,
                if pressed {
                    Action::Toggle
                } else {
                    Action::Idle
                },
            ),
            LoopEvent::Menu(MenuChoice::Toggle) => (LoopState::Running, Action::Toggle),
            LoopEvent::Menu(MenuChoice::Quit) => (LoopState::Terminated, Action::Exit),
            LoopEvent::Menu(MenuChoice::Other) => (LoopState::Running, Action::Idle),
        },
    }
}

/// The state after a sequence of events, and the actions they call for, in order.
pub open spec fn run_spec(state: LoopState, events: Seq<LoopEvent>) -> (LoopState, Seq<Action>)
    decreases events.len(),
{
    if events.len() == 0 {
        (state, Seq::empty())
    } else {
        let (s1, a1) = step_spec(state, events[0]);
        let (s2, rest) = run_spec(s1, events.drop_first());
        (s2, seq![a1] + rest)
    }
}

/// The events of one iteration, in the order they are handled: the hotkey
/// channel's event, then the menu channel's. A quit from the menu comes first
/// instead, so that no hotkey event of the same iteration toggles after it.
pub open spec fn iteration_events(hotkey: Option<bool>, menu: Option<MenuChoice>) -> Seq<LoopEvent> {
    let h = match hotkey {
        Some(p) => seq![LoopEvent::Hotkey { pressed: p }],
        None => Seq::empty(),
    };
    match menu {
        Some(MenuChoice::Quit) => seq![LoopEvent::Menu(MenuChoice::Quit)] + h,
        Some(c) => h + seq![LoopEvent::Menu(c)],
        None => h,
    }
}

/// The loop's state machine.
pub struct EventLoop {
    pub state: LoopState,
}

impl EventLoop {
    /// A loop in the running state, entered once startup has succeeded.
    pub fn new() -> (r: EventLoop)
        ensures
            r.state == LoopState::Running,
    {
        EventLoop { state: LoopState::Running }
    }

    /// Whether the loop has ended.
    pub fn is_terminated(&self) -> (r: bool)
        ensures
            r == (self.state == LoopState::Terminated),
    {
        match self.state {
            LoopState::Terminated => true,
            LoopState::Running => false,
        }
    }

    /// Handles one event: a pressed hotkey or the toggle item toggles, the quit
    /// item ends the loop, and once ended the loop ignores every event.
    pub fn step(&mut self, event: LoopEvent) -> (r: Action)
        ensures
            (final(self).state, r) == step_spec(old(self).state, event),
    {
        match self.state {
            LoopState::Terminated => Action::Idle,
            LoopState::Running => match event {
                LoopEvent::Hotkey { pressed } => {
                    if pressed {
                        Action::Toggle
                    } else {
                        Action::Idle
                    }
                },
                LoopEvent::Menu(MenuChoice::Toggle) => Action::Toggle,
                LoopEvent::Menu(MenuChoice::Quit) => {
                    self.state = LoopState::Terminated;
                    Action::Exit
                },
                LoopEvent::Menu(MenuChoice::Other) => Action::Idle,
            },
        }
    }

    /// Handles events in order and returns the action for each.
    pub fn run(&mut self, events: &Vec<LoopEvent>) -> (r: Vec<Action>)
        ensures
            (final(self).state, r@) == run_spec(old(self).state, events@),
    {
        let mut actions: Vec<Action> = Vec::new();
        let mut i: usize = 0;
        assert(events@.skip(0) =~= events@);
        assert(actions@ + run_spec(self.state, events@).1 =~= run_spec(self.state, events@).1);
        while i < events.len()
            invariant
                i <= events@.len(),
                run_spec(old(self).state, events@) == (
                    run_spec(self.state, events@.skip(i as int)).0,
                    actions@ + run_spec(self.state, events@.skip(i as int)).1,
                ),
            decreases events@.len() - i,
        {
            let a = self.step(events[i]);
            assert(events@.skip(i as int).drop_first() =~= events@.skip(i + 1));
            assert(actions@.push(a) + run_spec(self.state, events@.skip(i + 1)).1 =~= actions@ + (
            seq![a] + run_spec(self.state, events@.skip(i + 1)).1));
            actions.push(a);
            i = i + 1;
        }
        assert(events@.skip(i as int) =~= Seq::<LoopEvent>::empty());
        assert(actions@ + Seq::<Action>::empty() =~= actions@);
        actions
    }

    /// Handles one iteration of the message pump: the event taken from the
    /// hotkey channel (`Some(pressed)`), then the one taken from the menu
    /// channel. Where the menu event is the quit item, the loop ends and the
    /// iteration toggles nothing.
    pub fn iteration(&mut self, hotkey: Option<bool>, menu: Option<MenuChoice>) -> (r: Vec<Action>)
        ensures
            (final(self).state, r@) == run_spec(old(self).state, iteration_events(hotkey, menu)),
            menu == Some(MenuChoice::Quit) ==> final(self).state == LoopState::Terminated
                && forall|i: int| 0 <= i < r@.len() ==> r@[i] != Action::Toggle,
    {
        let mut events: Vec<LoopEvent> = Vec::new();
        let quit = match menu {
            Some(MenuChoice::Quit) => true,
            _ => false,
        };
        if quit {
            events.push(LoopEvent::Menu(MenuChoice::Quit));
        }
        match hotkey {
            Some(p) => events.push(LoopEvent::Hotkey { pressed: p }),
            None => {},
        }
        match menu {
            Some(MenuChoice::Quit) => {},
            Some(c) => events.push(LoopEvent::Menu(c)),
            None => {},
        }
        assert(events@ =~= iteration_events(hotkey, menu));
        proof {
            if quit {
                let first = step_spec(self.state, events@[0]);
                lemma_terminated_absorbs(events@.drop_first());
                lemma_run_len(first.0, events@.drop_first());
            }
        }
        self.run(&events)
    }
}

/// Once the loop has ended, no sequence of events toggles again or changes its state.
pub proof fn lemma_terminated_absorbs(events: Seq<LoopEvent>)
    ensures
        run_spec(LoopState::Terminated, events).0 == LoopState::Terminated,
        forall|i: int|
            0 <= i < events.len() ==> #[trigger] run_spec(LoopState::Terminated, events).1[i]
                == Action::Idle,
        run_spec(LoopState::Terminated, events).1.len() == events.len(),
    decreases events.len(),
{
    if events.len() > 0 {
        lemma_terminated_absorbs(events.drop_first());
        let rest = run_spec(LoopState::Terminated, events.drop_first()).1;
        assert forall|i: int| 0 <= i < events.len() implies #[trigger] run_spec(
            LoopState::Terminated,
            events,
        ).1[i] == Action::Idle by {
            if i > 0 {
                assert(run_spec(LoopState::Terminated, events).1[i] == rest[i - 1]);
            }
        }
    }
}

/// Quitting is final: in any run of events, every action after an `Exit` is
/// `Idle`, so no event queued after the quit toggles the microphone.
pub proof fn lemma_nothing_after_exit(state: LoopState, events: Seq<LoopEvent>, i: int, j: int)
    requires
        0 <= i < j < events.len(),
        run_spec(state, events).1[i] == Action::Exit,
    ensures
        run_spec(state, events).1[j] == Action::Idle,
    decreases events.len(),
{
    lemma_run_len(state, events);
    let (s1, a1) = step_spec(state, events[0]);
    let tail = events.drop_first();
    let rest = run_spec(s1, tail).1;
    assert(run_spec(state, events).1 == seq![a1] + rest);
    if i == 0 {
        lemma_terminated_absorbs(tail);
        assert(rest[j - 1] == Action::Idle);
    } else {
        lemma_nothing_after_exit(s1, tail, i - 1, j - 1);
    }
}

/// A run yields one action per event.
pub proof fn lemma_run_len(state: LoopState, events: Seq<LoopEvent>)
    ensures
        run_spec(state, events).1.len() == events.len(),
    decreases events.len(),
{
    if events.len() > 0 {
        lemma_run_len(step_spec(state, events[0]).0, events.drop_first());
    }
}

} // verus!
