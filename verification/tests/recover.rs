use block_runtime::api::CommonApi;
use block_runtime::errors::Error;
use block_runtime::event::BlockEvent;
use block_runtime::recover::{Directive, Progress, RecoverState};
use block_runtime::request::{Request, RequestCmd};
use futures::future::{select, Either};
use std::cell::Cell;
use std::future::Future;
use std::pin::Pin;
use std::time::Duration;
use tokio::sync::mpsc;
use tokio::time::{sleep, Instant, Sleep};

fn wired(
    id: usize,
    interval: Duration,
) -> (CommonApi, mpsc::Sender<BlockEvent>, mpsc::Receiver<Request>) {
    let (event_sender, event_receiver) = mpsc::channel::<BlockEvent>(4);
    let (request_sender, request_receiver) = mpsc::channel::<Request>(8);
    let api = CommonApi { id, event_receiver, request_sender, error_interval: interval };
    (api, event_sender, request_receiver)
}

fn api_with(id: usize, interval: Duration) -> CommonApi {
    wired(id, interval).0
}

fn paused<F: Future>(f: F) -> F::Output {
    tokio::runtime::Builder::new_current_thread()
        .enable_time()
        .start_paused(true)
        .build()
        .unwrap()
        .block_on(f)
}

async fn race(api: &mut CommonApi, timer: &mut Pin<Box<Sleep>>) -> Progress<u32> {
    let first = match select(timer, Box::pin(api.event_receiver.recv())).await {
        Either::Left(_) => None,
        Either::Right((received, _)) => Some(received),
    };
    match first {
        None => Progress::TimerElapsed,
        Some(received) => {
            if received.is_none() {
                panic!("events stream ended");
            }
            Progress::Received(api.event(received))
        }
    }
}

/// Runs the retry loop over real channels and timers, counting the attempts.
async fn drive(
    api: &mut CommonApi,
    failures_before_success: u32,
    attempts: &Cell<u32>,
) -> Result<u32, Error> {
    let mut state = RecoverState::Attempting;
    let mut directive: Directive<u32> = Directive::Attempt;
    let mut timer: Pin<Box<Sleep>> = Box::pin(sleep(Duration::ZERO));
    loop {
        let input = match directive {
            Directive::Attempt => {
                attempts.set(attempts.get() + 1);
                if attempts.get() <= failures_before_success {
                    Progress::Attempted(Err(Error::new(&format!("failure {}", attempts.get()))))
                } else {
                    Progress::Attempted(Ok(attempts.get()))
                }
            }
            Directive::Report(request) => Progress::Reported(api.request_sender.send(request).await),
            Directive::Wait(interval) => {
                timer = Box::pin(sleep(interval));
                race(api, &mut timer).await
            }
            Directive::KeepWaiting => race(api, &mut timer).await,
            Directive::Finish(result) => return result,
        };
        assert!(state.accepts(&input));
        let next = api.recoverable(state, input);
        state = next.0;
        directive = next.1;
    }
}

fn error_message(request: Request) -> (usize, String) {
    match request.cmd {
        RequestCmd::SetError(e) => (request.block_id, e.message),
        other => panic!("unexpected command {:?}", other),
    }
}

#[test]
fn two_failures_then_success_takes_two_intervals_and_two_reports() {
    let (mut api, _event_tx, mut request_rx) = wired(13, Duration::from_secs(1));
    let attempts = Cell::new(0);
    let (result, elapsed) = paused(async {
        let start = Instant::now();
        let r = drive(&mut api, 2, &attempts).await;
        (r, start.elapsed())
    });
    assert_eq!(result.unwrap(), 3);
    assert_eq!(attempts.get(), 3);
    assert!(elapsed >= Duration::from_secs(2));
    assert!(elapsed < Duration::from_secs(3));
    assert_eq!(error_message(request_rx.try_recv().unwrap()), (13, "failure 1".to_string()));
    assert_eq!(error_message(request_rx.try_recv().unwrap()), (13, "failure 2".to_string()));
    assert!(request_rx.try_recv().is_err());
}

#[test]
fn update_request_cuts_the_wait_short() {
    let (mut api, event_tx, mut request_rx) = wired(2, Duration::from_secs(3600));
    event_tx.try_send(BlockEvent::UpdateRequest).unwrap();
    let attempts = Cell::new(0);
    let (result, elapsed) = paused(async {
        let start = Instant::now();
        let r = drive(&mut api, 1, &attempts).await;
        (r, start.elapsed())
    });
    assert_eq!(result.unwrap(), 2);
    assert!(elapsed < Duration::from_secs(1));
    assert_eq!(error_message(request_rx.try_recv().unwrap()), (2, "failure 1".to_string()));
    assert!(request_rx.try_recv().is_err());
}

#[test]
fn actions_do_not_cut_the_wait_short_nor_restart_the_timer() {
    let (mut api, event_tx, mut request_rx) = wired(2, Duration::from_secs(5));
    event_tx.try_send(BlockEvent::Action("toggle".to_string())).unwrap();
    event_tx.try_send(BlockEvent::Action("next".to_string())).unwrap();
    let attempts = Cell::new(0);
    let (result, elapsed) = paused(async {
        let start = Instant::now();
        let r = drive(&mut api, 1, &attempts).await;
        (r, start.elapsed())
    });
    assert_eq!(result.unwrap(), 2);
    assert!(elapsed >= Duration::from_secs(5));
    assert!(elapsed < Duration::from_secs(6));
    assert!(api.event_receiver.try_recv().is_err());
    assert_eq!(error_message(request_rx.try_recv().unwrap()), (2, "failure 1".to_string()));
}

#[test]
fn closed_request_channel_ends_the_loop_with_the_send_failure() {
    let (mut api, _event_tx, request_rx) = wired(2, Duration::from_secs(1));
    drop(request_rx);
    let attempts = Cell::new(0);
    let result = paused(drive(&mut api, 5, &attempts));
    assert_eq!(result.unwrap_err().message(), "Failed to send Request");
    assert_eq!(attempts.get(), 1);
}

#[test]
fn success_leaves_the_loop_with_the_value() {
    let mut api = api_with(1, Duration::from_secs(1));
    let (state, directive) = api.recoverable(RecoverState::Attempting, Progress::Attempted(Ok(77u32)));
    assert_eq!(state, RecoverState::Succeeded);
    match directive {
        Directive::Finish(Ok(v)) => assert_eq!(v, 77),
        _ => panic!("expected the value"),
    }
}

#[test]
fn failure_is_reported_as_this_blocks_error() {
    let mut api = api_with(21, Duration::from_secs(1));
    let (state, directive) = api
        .recoverable::<u32>(RecoverState::Attempting, Progress::Attempted(Err(Error::new("nope"))));
    assert_eq!(state, RecoverState::Reporting);
    match directive {
        Directive::Report(request) => assert_eq!(error_message(request), (21, "nope".to_string())),
        _ => panic!("expected a report"),
    }
    assert_eq!(api.id, 21);
}

#[test]
fn delivered_report_starts_a_wait_of_the_error_interval() {
    let mut api = api_with(1, Duration::from_millis(1500));
    let (state, directive) =
        api.recoverable::<u32>(RecoverState::Reporting, Progress::Reported(Ok(())));
    assert_eq!(state, RecoverState::Waiting);
    match directive {
        Directive::Wait(d) => assert_eq!(d, Duration::from_millis(1500)),
        _ => panic!("expected a wait"),
    }
}

#[test]
fn undelivered_report_is_fatal() {
    let mut api = api_with(1, Duration::from_secs(1));
    let undelivered = api.set_error(Error::new("nope"));
    let (state, directive) = api.recoverable::<u32>(
        RecoverState::Reporting,
        Progress::Reported(Err(mpsc::error::SendError(undelivered))),
    );
    assert_eq!(state, RecoverState::Failed);
    match directive {
        Directive::Finish(Err(e)) => {
            assert_eq!(e.message(), "Failed to send Request");
            assert_eq!(e.block, None);
        }
        _ => panic!("expected the send failure"),
    }
}

#[test]
fn timer_and_update_request_both_start_a_new_attempt() {
    let mut api = api_with(1, Duration::from_secs(1));
    let (state, directive) = api.recoverable::<u32>(RecoverState::Waiting, Progress::TimerElapsed);
    assert_eq!(state, RecoverState::Attempting);
    assert!(matches!(directive, Directive::Attempt));
    let (state, directive) = api
        .recoverable::<u32>(RecoverState::Waiting, Progress::Received(BlockEvent::UpdateRequest));
    assert_eq!(state, RecoverState::Attempting);
    assert!(matches!(directive, Directive::Attempt));
}

#[test]
fn action_while_waiting_keeps_waiting() {
    let mut api = api_with(1, Duration::from_secs(1));
    let (state, directive) = api.recoverable::<u32>(
        RecoverState::Waiting,
        Progress::Received(BlockEvent::Action("toggle".to_string())),
    );
    assert_eq!(state, RecoverState::Waiting);
    assert!(matches!(directive, Directive::KeepWaiting));
}

#[test]
fn one_report_and_one_wake_per_failure() {
    let mut api = api_with(8, Duration::from_secs(1));
    let mut state = RecoverState::Attempting;
    let mut reports = 0;
    let mut wakes = 0;
    for round in 0..5u32 {
        let (s, d) = api.recoverable::<u32>(state, Progress::Attempted(Err(Error::new("again"))));
        assert!(matches!(d, Directive::Report(_)));
        reports += 1;
        let (s, d) = api.recoverable::<u32>(s, Progress::Reported(Ok(())));
        assert!(matches!(d, Directive::Wait(_)));
        let wake =
            if round % 2 == 0 { Progress::TimerElapsed } else { Progress::Received(BlockEvent::UpdateRequest) };
        let (s, d) = api.recoverable::<u32>(s, wake);
        assert!(matches!(d, Directive::Attempt));
        wakes += 1;
        state = s;
    }
    assert_eq!(state, RecoverState::Attempting);
    assert_eq!(reports, 5);
    assert_eq!(wakes, 5);
}
