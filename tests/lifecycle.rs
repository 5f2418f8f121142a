use tcfw::lifecycle::{
    resolve_interface, Action, Controller, Event, Phase, DEFAULT_INTERFACE, POLL_INTERVAL_MS,
    PROGRAM_NAME,
};

fn drive(c: &mut Controller, events: &[Event]) -> Vec<Action> {
    let mut actions = Vec::new();
    for e in events {
        assert!(c.expects(e));
        actions.push(c.step(*e));
    }
    actions
}

#[test]
fn default_interface_is_eth0() {
    assert_eq!(resolve_interface(None), "eth0");
    assert_eq!(DEFAULT_INTERFACE, "eth0");
}

#[test]
fn given_interface_is_kept() {
    assert_eq!(resolve_interface(Some("lo".to_string())), "lo");
    assert_eq!(resolve_interface(Some(String::new())), "");
}

#[test]
fn constants() {
    assert_eq!(PROGRAM_NAME, "tcfw");
    assert_eq!(POLL_INTERVAL_MS, 500);
}

#[test]
fn clean_run_on_lo() {
    let mut c = Controller::new();
    let actions = drive(
        &mut c,
        &[
            Event::Start,
            Event::InfraCreated { ok: true },
            Event::Loaded { ok: true },
            Event::Attached { ok: true },
            Event::HandlerInstalled,
            Event::Polled { running: true },
            Event::Slept,
            Event::Polled { running: true },
            Event::Slept,
            Event::Polled { running: false },
            Event::Detached { ok: true },
        ],
    );
    assert_eq!(
        actions,
        vec![
            Action::CreateInfra,
            Action::Load { warn_infra: false },
            Action::Attach,
            Action::InstallSignalHandler,
            Action::Poll,
            Action::Sleep,
            Action::Poll,
            Action::Sleep,
            Action::Poll,
            Action::Detach,
            Action::Exit { success: true, warn_detach: false },
        ]
    );
    assert!(c.is_done());
    assert_eq!(c.phase, Phase::Exited { success: true });
}

#[test]
fn infra_already_present_is_a_warning() {
    let mut c = Controller::new();
    let actions = drive(
        &mut c,
        &[
            Event::Start,
            Event::InfraCreated { ok: false },
            Event::Loaded { ok: true },
            Event::Attached { ok: true },
            Event::HandlerInstalled,
            Event::Polled { running: false },
            Event::Detached { ok: true },
        ],
    );
    assert_eq!(actions[1], Action::Load { warn_infra: true });
    assert_eq!(actions[2], Action::Attach);
    assert_eq!(actions[6], Action::Exit { success: true, warn_detach: false });
    assert_eq!(c.phase, Phase::Exited { success: true });
}

#[test]
fn creating_infra_twice_is_safe() {
    for ok in [true, false] {
        let mut c = Controller::new();
        let actions = drive(&mut c, &[Event::Start, Event::InfraCreated { ok }]);
        assert_eq!(actions[1], Action::Load { warn_infra: !ok });
        assert!(!c.is_done());
        assert_eq!(c.phase, Phase::Loading);
    }
}

#[test]
fn missing_interface_fails_at_attach() {
    let mut c = Controller::new();
    let actions = drive(
        &mut c,
        &[
            Event::Start,
            Event::InfraCreated { ok: false },
            Event::Loaded { ok: true },
            Event::Attached { ok: false },
        ],
    );
    assert_eq!(
        actions,
        vec![
            Action::CreateInfra,
            Action::Load { warn_infra: true },
            Action::Attach,
            Action::Exit { success: false, warn_detach: false },
        ]
    );
    assert!(c.is_done());
    assert!(!c.expects(&Event::Detached { ok: true }));
    assert!(!c.expects(&Event::Polled { running: false }));
}

#[test]
fn second_attach_fails_without_detaching() {
    let mut c = Controller::new();
    let actions = drive(
        &mut c,
        &[
            Event::Start,
            Event::InfraCreated { ok: false },
            Event::Loaded { ok: true },
            Event::Attached { ok: false },
        ],
    );
    assert!(!actions.contains(&Action::Detach));
    assert_eq!(c.phase, Phase::Exited { success: false });
}

#[test]
fn load_rejection_is_fatal() {
    let mut c = Controller::new();
    let actions = drive(
        &mut c,
        &[Event::Start, Event::InfraCreated { ok: true }, Event::Loaded { ok: false }],
    );
    assert_eq!(actions[2], Action::Exit { success: false, warn_detach: false });
    assert!(c.is_done());
    assert!(!c.expects(&Event::Attached { ok: true }));
}

#[test]
fn failed_detach_still_exits_successfully() {
    let mut c = Controller::new();
    let actions = drive(
        &mut c,
        &[
            Event::Start,
            Event::InfraCreated { ok: true },
            Event::Loaded { ok: true },
            Event::Attached { ok: true },
            Event::HandlerInstalled,
            Event::Polled { running: true },
            Event::Slept,
            Event::Polled { running: false },
            Event::Detached { ok: false },
        ],
    );
    assert_eq!(actions[8], Action::Exit { success: true, warn_detach: true });
    assert_eq!(c.phase, Phase::Exited { success: true });
}

#[test]
fn detach_once_and_only_after_signal() {
    let mut c = Controller::new();
    let mut events = vec![
        Event::Start,
        Event::InfraCreated { ok: true },
        Event::Loaded { ok: true },
        Event::Attached { ok: true },
        Event::HandlerInstalled,
    ];
    for _ in 0..5 {
        events.push(Event::Polled { running: true });
        events.push(Event::Slept);
    }
    events.push(Event::Polled { running: false });
    events.push(Event::Detached { ok: true });
    let actions = drive(&mut c, &events);
    let detaches: Vec<usize> = (0..actions.len()).filter(|&i| actions[i] == Action::Detach).collect();
    assert_eq!(detaches, vec![events.len() - 2]);
    assert_eq!(events[events.len() - 2], Event::Polled { running: false });
    assert!(c.is_done());
}

#[test]
fn unexpected_events_are_not_accepted() {
    let c = Controller::new();
    assert_eq!(c.phase, Phase::Init);
    assert!(c.expects(&Event::Start));
    assert!(!c.expects(&Event::Polled { running: false }));
    assert!(!c.expects(&Event::Detached { ok: true }));
    assert!(!c.is_done());
}
