use wsl_api::apartment::{Bridge, Poll};
use wsl_api::bridge::{
    impersonation_capabilities, BridgeCommand, BridgeEvent, BridgeState, InitFailure, Operation,
    Route, APARTMENT_THREADED, WINSOCK_VERSION,
};
use wsl_api::error::{StatusCodes, WslError};
use wsl_api::known::KnownError;
use wsl_api::queue::{Taken, WorkQueue};

fn codes() -> StatusCodes {
    let mut table = [0i32; 45];
    let mut i = 0;
    while i < 45 {
        table[i] = -1000 - (i as i32);
        i += 1;
    }
    StatusCodes::new(table)
}

fn kinds(commands: &[BridgeCommand<u32>]) -> Vec<&'static str> {
    commands
        .iter()
        .map(|command| match command {
            BridgeCommand::StartWinsock(_) => "winsock",
            BridgeCommand::InitializeCom(_) => "com",
            BridgeCommand::InitializeSecurity => "security",
            BridgeCommand::ActivateSession => "session",
            BridgeCommand::SetBlanket => "blanket",
            BridgeCommand::ReportReady => "ready",
            BridgeCommand::ReportFailure(_) => "failure",
            BridgeCommand::Uninitialize => "uninitialize",
            BridgeCommand::Run(_) => "run",
            BridgeCommand::ServeNext => "next",
        })
        .collect()
}

fn drive(events: Vec<BridgeEvent<u32>>) -> (BridgeState, Vec<BridgeCommand<u32>>) {
    let mut state = BridgeState::Created;
    let mut all = Vec::new();
    for event in events {
        let (next, commands) = state.step(event);
        state = next;
        all.extend(commands);
    }
    (state, all)
}

fn failure() -> WslError {
    WslError::from_windows(-77, String::from("refused"))
}

#[test]
fn bridge_sets_up_in_order_and_serves() {
    let (state, commands) = drive(vec![
        BridgeEvent::Started,
        BridgeEvent::WinsockStarted(0),
        BridgeEvent::ComInitialized(0),
        BridgeEvent::SecurityInitialized(Ok(())),
        BridgeEvent::SessionActivated(Ok(())),
        BridgeEvent::BlanketSet(Ok(())),
    ]);
    assert_eq!(state, BridgeState::Serving);
    assert_eq!(
        kinds(&commands),
        vec!["winsock", "com", "security", "session", "blanket", "ready", "next"]
    );
    assert!(matches!(
        commands[0],
        BridgeCommand::StartWinsock(0x0202)
    ));
    // The component runtime is asked for the single-threaded apartment.
    assert!(matches!(commands[1], BridgeCommand::InitializeCom(2)));
    assert_eq!(APARTMENT_THREADED, 2);
    assert_eq!(WINSOCK_VERSION, 0x0202);
}

#[test]
fn bridge_runs_work_one_at_a_time_until_the_queue_closes() {
    let (state, commands) = drive(vec![
        BridgeEvent::Started,
        BridgeEvent::WinsockStarted(0),
        BridgeEvent::ComInitialized(1),
        BridgeEvent::SecurityInitialized(Ok(())),
        BridgeEvent::SessionActivated(Ok(())),
        BridgeEvent::BlanketSet(Ok(())),
        BridgeEvent::WorkReceived(11),
        BridgeEvent::WorkReceived(12),
        BridgeEvent::QueueClosed,
        BridgeEvent::WorkReceived(13),
    ]);
    assert_eq!(state, BridgeState::Stopped);
    assert_eq!(
        kinds(&commands),
        vec![
            "winsock", "com", "security", "session", "blanket", "ready", "next", "run", "next",
            "run", "next", "uninitialize"
        ]
    );
    let ran: Vec<u32> = commands
        .iter()
        .filter_map(|command| match command {
            BridgeCommand::Run(work) => Some(*work),
            _ => None,
        })
        .collect();
    assert_eq!(ran, vec![11, 12]);
}

#[test]
fn winsock_failure_ends_the_bridge_without_teardown() {
    let (state, commands) = drive(vec![
        BridgeEvent::Started,
        BridgeEvent::WinsockStarted(10093),
    ]);
    assert_eq!(state, BridgeState::Stopped);
    assert_eq!(kinds(&commands), vec!["winsock", "failure"]);
    match commands.into_iter().nth(1).unwrap() {
        BridgeCommand::ReportFailure(failure) => {
            let error = failure.into_error(&codes());
            assert_eq!(error.message(), "WSAStartup failed: 0x276d");
            assert_eq!(error.hresult(), codes().code(KnownError::InvalidUsage));
        }
        other => panic!("unexpected command {:?}", other),
    }
}

#[test]
fn negative_winsock_result_is_shown_as_its_bit_pattern() {
    let error = InitFailure::Winsock(-1).into_error(&codes());
    assert_eq!(error.message(), "WSAStartup failed: 0xffffffff");
}

#[test]
fn com_failure_ends_the_bridge_without_teardown() {
    let (state, commands) = drive(vec![
        BridgeEvent::Started,
        BridgeEvent::WinsockStarted(0),
        BridgeEvent::ComInitialized(-2147417850),
    ]);
    assert_eq!(state, BridgeState::Stopped);
    assert_eq!(kinds(&commands), vec!["winsock", "com", "failure"]);
    match commands.into_iter().nth(2).unwrap() {
        BridgeCommand::ReportFailure(failure) => {
            let error = failure.into_error(&codes());
            assert_eq!(error.hresult(), -2147417850);
            assert_eq!(error.message(), "");
        }
        other => panic!("unexpected command {:?}", other),
    }
}

#[test]
fn later_failures_tear_down_before_reporting() {
    let security = drive(vec![
        BridgeEvent::Started,
        BridgeEvent::WinsockStarted(0),
        BridgeEvent::ComInitialized(0),
        BridgeEvent::SecurityInitialized(Err(failure())),
    ]);
    assert_eq!(security.0, BridgeState::Stopped);
    assert_eq!(
        kinds(&security.1),
        vec!["winsock", "com", "security", "uninitialize", "failure"]
    );
    let session = drive(vec![
        BridgeEvent::Started,
        BridgeEvent::WinsockStarted(0),
        BridgeEvent::ComInitialized(0),
        BridgeEvent::SecurityInitialized(Ok(())),
        BridgeEvent::SessionActivated(Err(failure())),
    ]);
    assert_eq!(session.0, BridgeState::Stopped);
    assert_eq!(
        kinds(&session.1),
        vec!["winsock", "com", "security", "session", "uninitialize", "failure"]
    );
    let blanket = drive(vec![
        BridgeEvent::Started,
        BridgeEvent::WinsockStarted(0),
        BridgeEvent::ComInitialized(0),
        BridgeEvent::SecurityInitialized(Ok(())),
        BridgeEvent::SessionActivated(Ok(())),
        BridgeEvent::BlanketSet(Err(failure())),
    ]);
    assert_eq!(blanket.0, BridgeState::Stopped);
    assert_eq!(
        kinds(&blanket.1),
        vec![
            "winsock", "com", "security", "session", "blanket", "uninitialize", "failure"
        ]
    );
    match blanket.1.into_iter().last().unwrap() {
        BridgeCommand::ReportFailure(failure) => {
            let error = failure.into_error(&codes());
            assert_eq!(error.hresult(), -77);
            assert_eq!(error.message(), "refused");
        }
        other => panic!("unexpected command {:?}", other),
    }
}

#[test]
fn events_out_of_turn_are_ignored() {
    let (state, commands) = BridgeState::Created.step(BridgeEvent::WorkReceived(1u32));
    assert_eq!(state, BridgeState::Created);
    assert!(commands.is_empty());
    let (state, commands) = BridgeState::Stopped.step(BridgeEvent::<u32>::Started);
    assert_eq!(state, BridgeState::Stopped);
    assert!(commands.is_empty());
    let (state, commands) = BridgeState::Serving.step(BridgeEvent::<u32>::ComInitialized(0));
    assert_eq!(state, BridgeState::Serving);
    assert!(commands.is_empty());
}

#[test]
fn impersonation_swaps_static_for_dynamic_cloaking() {
    assert_eq!(impersonation_capabilities(0x20), 0x40);
    assert_eq!(impersonation_capabilities(0), 0x40);
    assert_eq!(impersonation_capabilities(0x40), 0x40);
    assert_eq!(impersonation_capabilities(0x61), 0x41);
    assert_eq!(impersonation_capabilities(-1), !0x20);
}

#[test]
fn queue_hands_out_work_in_submission_order() {
    let mut queue = WorkQueue::new();
    for ticket in 0..100u32 {
        assert!(queue.submit(ticket).is_none());
    }
    assert_eq!(queue.len(), 100);
    for ticket in 0..100u32 {
        match queue.take() {
            Taken::Work(next) => assert_eq!(next, ticket),
            other => panic!("unexpected {:?}", other),
        }
    }
    assert!(matches!(queue.take(), Taken::Empty));
}

#[test]
fn queue_keeps_order_when_takes_and_submits_alternate() {
    let mut queue = WorkQueue::new();
    let mut served = Vec::new();
    assert!(queue.submit(1).is_none());
    assert!(queue.submit(2).is_none());
    if let Taken::Work(item) = queue.take() {
        served.push(item);
    }
    assert!(queue.submit(3).is_none());
    while let Taken::Work(item) = queue.take() {
        served.push(item);
    }
    assert_eq!(served, vec![1, 2, 3]);
}

#[test]
fn closed_queue_drains_and_then_reports_closed() {
    let mut queue = WorkQueue::new();
    assert!(queue.submit("a").is_none());
    assert!(queue.submit("b").is_none());
    queue.close();
    assert_eq!(queue.submit("c"), Some("c"));
    assert!(matches!(queue.take(), Taken::Work("a")));
    assert!(matches!(queue.take(), Taken::Work("b")));
    assert!(matches!(queue.take(), Taken::Closed));
    assert!(matches!(queue.take(), Taken::Closed));
}

#[test]
fn interleaved_submitters_are_served_in_the_order_they_entered() {
    // Four submitters take turns in an uneven schedule; the queue is taken
    // from between their turns.
    let mut queue = WorkQueue::new();
    let mut entered = Vec::new();
    let mut served = Vec::new();
    let mut next = [0u32; 4];
    let mut turn = 0usize;
    for round in 0..200usize {
        turn = (turn * 7 + round * 3 + 1) % 4;
        let ticket = (turn as u32) * 1000 + next[turn];
        next[turn] += 1;
        assert!(queue.submit(ticket).is_none());
        entered.push(ticket);
        if round % 3 == 2 {
            if let Taken::Work(ticket) = queue.take() {
                served.push(ticket);
            }
        }
    }
    queue.close();
    loop {
        match queue.take() {
            Taken::Work(ticket) => served.push(ticket),
            Taken::Closed => break,
            Taken::Empty => panic!("a closed queue is never merely empty"),
        }
    }
    assert_eq!(served.len(), 200);
    assert_eq!(served, entered);
}

#[test]
fn work_taken_from_the_queue_runs_in_submission_order() {
    let mut queue = WorkQueue::new();
    for ticket in [5u32, 3, 9, 1] {
        assert!(queue.submit(ticket).is_none());
    }
    queue.close();
    let (mut state, _) = drive(vec![
        BridgeEvent::Started,
        BridgeEvent::WinsockStarted(0),
        BridgeEvent::ComInitialized(0),
        BridgeEvent::SecurityInitialized(Ok(())),
        BridgeEvent::SessionActivated(Ok(())),
        BridgeEvent::BlanketSet(Ok(())),
    ]);
    let mut observed = Vec::new();
    let mut event = match queue.take() {
        Taken::Work(work) => BridgeEvent::WorkReceived(work),
        _ => BridgeEvent::QueueClosed,
    };
    loop {
        let (next, commands) = state.step(event);
        state = next;
        let mut answer = None;
        for command in commands {
            match command {
                BridgeCommand::Run(work) => observed.push(work),
                BridgeCommand::ServeNext => {
                    answer = Some(match queue.take() {
                        Taken::Work(work) => BridgeEvent::WorkReceived(work),
                        _ => BridgeEvent::QueueClosed,
                    });
                }
                BridgeCommand::Uninitialize => {}
                other => panic!("unexpected command {:?}", other),
            }
        }
        match answer {
            Some(next) => event = next,
            None => break,
        }
    }
    assert_eq!(state, BridgeState::Stopped);
    assert_eq!(observed, vec![5, 3, 9, 1]);
}

fn ready_bridge() -> Bridge<u32> {
    let mut bridge = Bridge::new();
    assert_eq!(bridge.state(), BridgeState::Created);
    for event in [
        BridgeEvent::Started,
        BridgeEvent::WinsockStarted(0),
        BridgeEvent::ComInitialized(0),
        BridgeEvent::SecurityInitialized(Ok(())),
        BridgeEvent::SessionActivated(Ok(())),
        BridgeEvent::BlanketSet(Ok(())),
    ] {
        bridge.advance(event);
    }
    assert_eq!(bridge.state(), BridgeState::Serving);
    bridge
}

fn polled(bridge: &mut Bridge<u32>) -> Option<Vec<&'static str>> {
    match bridge.poll() {
        Poll::Wait => None,
        Poll::Do(commands) => Some(kinds(&commands)),
    }
}

#[test]
fn bridge_waits_while_there_is_no_work() {
    let mut bridge = ready_bridge();
    assert_eq!(polled(&mut bridge), None);
    assert_eq!(polled(&mut bridge), None);
    assert!(bridge.submit(1).is_none());
    assert_eq!(polled(&mut bridge), Some(vec!["run", "next"]));
    assert_eq!(polled(&mut bridge), None);
}

#[test]
fn bridge_runs_submissions_in_order_between_polls() {
    let mut bridge = ready_bridge();
    let mut submitted = Vec::new();
    let mut ran = Vec::new();
    let mut turn = 0usize;
    for round in 0..120u32 {
        turn = (turn * 5 + round as usize + 1) % 3;
        let ticket = (turn as u32) * 1000 + round;
        assert!(bridge.submit(ticket).is_none());
        submitted.push(ticket);
        if round % 4 == 1 {
            if let Poll::Do(commands) = bridge.poll() {
                for command in commands {
                    if let BridgeCommand::Run(work) = command {
                        ran.push(work);
                    }
                }
            }
        }
    }
    bridge.close();
    assert_eq!(bridge.submit(7), Some(7));
    while bridge.state() == BridgeState::Serving {
        match bridge.poll() {
            Poll::Do(commands) => {
                for command in commands {
                    if let BridgeCommand::Run(work) = command {
                        ran.push(work);
                    }
                }
            }
            Poll::Wait => panic!("a closed bridge never waits"),
        }
    }
    assert_eq!(bridge.state(), BridgeState::Stopped);
    assert_eq!(ran, submitted);
}

#[test]
fn closed_bridge_tears_down_after_the_last_work() {
    let mut bridge = ready_bridge();
    assert!(bridge.submit(1).is_none());
    bridge.close();
    assert_eq!(polled(&mut bridge), Some(vec!["run", "next"]));
    assert_eq!(polled(&mut bridge), Some(vec!["uninitialize"]));
    assert_eq!(bridge.state(), BridgeState::Stopped);
    assert_eq!(polled(&mut bridge), Some(vec![]));
}

#[test]
fn bridge_that_does_not_serve_is_told_nothing() {
    let mut bridge: Bridge<u32> = Bridge::new();
    assert!(bridge.submit(1).is_none());
    assert_eq!(polled(&mut bridge), Some(vec![]));
    assert_eq!(kinds(&bridge.advance(BridgeEvent::Started)), vec!["winsock"]);
    assert_eq!(
        kinds(&bridge.advance(BridgeEvent::WinsockStarted(1))),
        vec!["failure"]
    );
    assert_eq!(bridge.state(), BridgeState::Stopped);
    assert_eq!(polled(&mut bridge), Some(vec![]));
}

#[test]
fn work_reaches_the_bridge_thread_through_the_queue_alone() {
    let mut bridge = ready_bridge();
    assert!(bridge.advance(BridgeEvent::WorkReceived(99)).is_empty());
    assert!(bridge.advance(BridgeEvent::QueueClosed).is_empty());
    assert_eq!(bridge.state(), BridgeState::Serving);
    assert_eq!(polled(&mut bridge), None);
}

#[test]
fn failures_of_later_steps_are_handed_on_as_they_came() {
    for failed in [
        InitFailure::Security(failure()),
        InitFailure::Session(failure()),
        InitFailure::Blanket(failure()),
    ] {
        let error = failed.into_error(&codes());
        assert_eq!(error.hresult(), -77);
        assert_eq!(error.message(), "refused");
        assert!(error.has_source());
    }
}

#[test]
fn only_shutdown_and_launch_go_through_the_bridge_thread() {
    assert_eq!(Operation::Shutdown.route(), Route::BridgeThread);
    assert_eq!(Operation::CreateProcess.route(), Route::BridgeThread);
    for operation in [
        Operation::GetDefaultDistribution,
        Operation::EnumerateDistributions,
        Operation::ExportDistribution,
        Operation::RegisterDistribution,
        Operation::SetVersion,
    ] {
        assert_eq!(operation.route(), Route::CallingThread);
    }
}
