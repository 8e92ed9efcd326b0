use muter::event_loop::{Action, EventLoop, LoopEvent, LoopState, MenuChoice};

#[test]
fn starts_running() {
    let l = EventLoop::new();
    assert_eq!(l.state, LoopState::Running);
    assert!(!l.is_terminated());
}

#[test]
fn pressed_hotkey_toggles_released_does_not() {
    let mut l = EventLoop::new();
    assert_eq!(l.step(LoopEvent::Hotkey { pressed: true }), Action::Toggle);
    assert_eq!(l.step(LoopEvent::Hotkey { pressed: false }), Action::Idle);
    assert_eq!(l.state, LoopState::Running);
}

#[test]
fn menu_items() {
    let mut l = EventLoop::new();
    assert_eq!(l.step(LoopEvent::Menu(MenuChoice::Toggle)), Action::Toggle);
    assert_eq!(l.step(LoopEvent::Menu(MenuChoice::Other)), Action::Idle);
    assert_eq!(l.state, LoopState::Running);
    assert_eq!(l.step(LoopEvent::Menu(MenuChoice::Quit)), Action::Exit);
    assert!(l.is_terminated());
}

#[test]
fn quit_ends_loop_and_later_hotkey_is_not_processed() {
    let mut l = EventLoop::new();
    let events = vec![
        LoopEvent::Menu(MenuChoice::Quit),
        LoopEvent::Hotkey { pressed: true },
        LoopEvent::Menu(MenuChoice::Toggle),
    ];
    assert_eq!(l.run(&events), vec![Action::Exit, Action::Idle, Action::Idle]);
    assert_eq!(l.state, LoopState::Terminated);
    assert_eq!(l.iteration(Some(true), Some(MenuChoice::Toggle)), vec![Action::Idle, Action::Idle]);
}

#[test]
fn iteration_handles_hotkey_before_menu() {
    let mut l = EventLoop::new();
    assert_eq!(l.iteration(Some(true), Some(MenuChoice::Toggle)), vec![Action::Toggle, Action::Toggle]);
    assert_eq!(l.state, LoopState::Running);
}

#[test]
fn quit_in_same_iteration_as_hotkey_does_not_toggle() {
    let mut l = EventLoop::new();
    assert_eq!(l.iteration(Some(true), Some(MenuChoice::Quit)), vec![Action::Exit, Action::Idle]);
    assert!(l.is_terminated());
    assert_eq!(l.iteration(Some(true), None), vec![Action::Idle]);
}

#[test]
fn iteration_with_nothing_pending() {
    let mut l = EventLoop::new();
    assert_eq!(l.iteration(None, None), Vec::<Action>::new());
    assert_eq!(l.iteration(Some(false), None), vec![Action::Idle]);
    assert_eq!(l.iteration(None, Some(MenuChoice::Toggle)), vec![Action::Toggle]);
    assert_eq!(l.state, LoopState::Running);
}

#[test]
fn every_queued_press_toggles() {
    let mut l = EventLoop::new();
    let events = vec![LoopEvent::Hotkey { pressed: true }; 3];
    assert_eq!(l.run(&events), vec![Action::Toggle; 3]);
}

#[test]
fn nothing_toggles_after_quit_in_long_run() {
    let mut l = EventLoop::new();
    let events = vec![
        LoopEvent::Hotkey { pressed: true },
        LoopEvent::Menu(MenuChoice::Quit),
        LoopEvent::Hotkey { pressed: true },
        LoopEvent::Menu(MenuChoice::Toggle),
        LoopEvent::Menu(MenuChoice::Quit),
    ];
    let actions = l.run(&events);
    assert_eq!(actions, vec![Action::Toggle, Action::Exit, Action::Idle, Action::Idle, Action::Idle]);
}
