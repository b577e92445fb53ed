use server_supervisor::prober::{ProbeAction, ProbeEvent, Prober, POLL_INTERVAL_NANOS};

const SECOND: u128 = 1_000_000_000;
const INTERVAL: u128 = POLL_INTERVAL_NANOS as u128;

/// How a wait through the simulated world ended.
struct Run {
    ready: bool,
    ended_at: u128,
    attempts: u32,
    sleeps: u32,
}

/// Drives a prober through a world in which readings and attempts take no
/// time, a sleep lasts exactly the polling interval, and the server listens
/// from `ready_at` on.
fn run_in_ideal_world(timeout: u128, ready_at: Option<u128>) -> Run {
    let mut prober = Prober::new(timeout);
    let mut now: u128 = 0;
    let mut attempts: u32 = 0;
    let mut sleeps: u32 = 0;
    loop {
        let event = match prober.pending() {
            ProbeAction::ReadClock => ProbeEvent::Elapsed(now),
            ProbeAction::Connect => {
                attempts += 1;
                ProbeEvent::Connected(matches!(ready_at, Some(since) if since <= now))
            }
            ProbeAction::Sleep => {
                sleeps += 1;
                now += INTERVAL;
                ProbeEvent::Woke
            }
            ProbeAction::Finish(ready) => {
                return Run { ready, ended_at: now, attempts, sleeps };
            }
        };
        prober.advance(event);
    }
}

#[test]
fn polling_interval_is_half_a_second() {
    assert_eq!(POLL_INTERVAL_NANOS, 500_000_000);
}

#[test]
fn new_prober_asks_for_the_clock() {
    let prober = Prober::new(30 * SECOND);
    assert_eq!(prober.pending(), ProbeAction::ReadClock);
    assert_eq!(prober.timeout_nanos(), 30_000_000_000);
    assert_eq!(prober.verdict(), None);
}

#[test]
fn reading_below_the_timeout_leads_to_an_attempt() {
    let mut prober = Prober::new(30 * SECOND);
    assert_eq!(prober.advance(ProbeEvent::Elapsed(0)), ProbeAction::Connect);
    assert_eq!(prober.pending(), ProbeAction::Connect);

    let mut late = Prober::new(30 * SECOND);
    assert_eq!(late.advance(ProbeEvent::Elapsed(30 * SECOND - 1)), ProbeAction::Connect);
}

#[test]
fn reading_at_the_timeout_ends_the_wait() {
    let mut prober = Prober::new(30 * SECOND);
    assert_eq!(prober.advance(ProbeEvent::Elapsed(30 * SECOND)), ProbeAction::Finish(false));
    assert_eq!(prober.verdict(), Some(false));

    let mut later = Prober::new(30 * SECOND);
    assert_eq!(later.advance(ProbeEvent::Elapsed(u128::MAX)), ProbeAction::Finish(false));
}

#[test]
fn first_success_wins() {
    let mut prober = Prober::new(30 * SECOND);
    prober.advance(ProbeEvent::Elapsed(0));
    assert_eq!(prober.advance(ProbeEvent::Connected(true)), ProbeAction::Finish(true));
    assert_eq!(prober.verdict(), Some(true));
}

#[test]
fn failed_attempt_leads_to_a_sleep_and_then_to_the_clock() {
    let mut prober = Prober::new(30 * SECOND);
    prober.advance(ProbeEvent::Elapsed(0));
    assert_eq!(prober.advance(ProbeEvent::Connected(false)), ProbeAction::Sleep);
    assert_eq!(prober.verdict(), None);
    assert_eq!(prober.advance(ProbeEvent::Woke), ProbeAction::ReadClock);
}

#[test]
fn finished_wait_stays_finished() {
    let mut ready = Prober::new(30 * SECOND);
    ready.advance(ProbeEvent::Elapsed(0));
    ready.advance(ProbeEvent::Connected(true));
    assert_eq!(ready.advance(ProbeEvent::Elapsed(0)), ProbeAction::Finish(true));
    assert_eq!(ready.advance(ProbeEvent::Connected(false)), ProbeAction::Finish(true));
    assert_eq!(ready.advance(ProbeEvent::Woke), ProbeAction::Finish(true));

    let mut timed_out = Prober::new(SECOND);
    timed_out.advance(ProbeEvent::Elapsed(SECOND));
    assert_eq!(timed_out.advance(ProbeEvent::Connected(true)), ProbeAction::Finish(false));
    assert_eq!(timed_out.advance(ProbeEvent::Elapsed(0)), ProbeAction::Finish(false));
}

#[test]
fn report_that_answers_nothing_is_ignored() {
    let mut prober = Prober::new(30 * SECOND);
    assert_eq!(prober.advance(ProbeEvent::Connected(true)), ProbeAction::ReadClock);
    assert_eq!(prober.advance(ProbeEvent::Woke), ProbeAction::ReadClock);
    prober.advance(ProbeEvent::Elapsed(0));
    assert_eq!(prober.advance(ProbeEvent::Elapsed(31 * SECOND)), ProbeAction::Connect);
    assert_eq!(prober.advance(ProbeEvent::Woke), ProbeAction::Connect);
    prober.advance(ProbeEvent::Connected(false));
    assert_eq!(prober.advance(ProbeEvent::Connected(true)), ProbeAction::Sleep);
    assert_eq!(prober.advance(ProbeEvent::Elapsed(0)), ProbeAction::Sleep);
}

#[test]
fn timeout_is_kept_across_reports() {
    let mut prober = Prober::new(7 * SECOND);
    prober.advance(ProbeEvent::Elapsed(0));
    prober.advance(ProbeEvent::Connected(false));
    prober.advance(ProbeEvent::Woke);
    assert_eq!(prober.timeout_nanos(), 7 * SECOND);
}

#[test]
fn zero_timeout_fails_without_an_attempt() {
    let run = run_in_ideal_world(0, Some(0));
    assert!(!run.ready);
    assert_eq!(run.ended_at, 0);
    assert_eq!(run.attempts, 0);
}

#[test]
fn server_reachable_at_two_seconds_is_found_at_two_seconds() {
    let run = run_in_ideal_world(30 * SECOND, Some(2 * SECOND));
    assert!(run.ready);
    assert_eq!(run.ended_at, 2 * SECOND);
    assert_eq!(run.attempts, 5);
    assert_eq!(run.sleeps, 4);
}

#[test]
fn server_that_never_listens_times_out_at_thirty_seconds() {
    let run = run_in_ideal_world(30 * SECOND, None);
    assert!(!run.ready);
    assert_eq!(run.ended_at, 30 * SECOND);
    assert_eq!(run.attempts, 60);
    assert_eq!(run.sleeps, 60);
}

#[test]
fn server_listening_from_the_start_is_found_at_once() {
    let run = run_in_ideal_world(30 * SECOND, Some(0));
    assert!(run.ready);
    assert_eq!(run.ended_at, 0);
    assert_eq!(run.attempts, 1);
    assert_eq!(run.sleeps, 0);
}

#[test]
fn server_is_found_at_the_first_poll_after_it_listens() {
    let run = run_in_ideal_world(30 * SECOND, Some(2 * SECOND + 1));
    assert!(run.ready);
    assert_eq!(run.ended_at, 2 * SECOND + INTERVAL);

    let just_before = run_in_ideal_world(30 * SECOND, Some(2 * SECOND - 1));
    assert!(just_before.ready);
    assert_eq!(just_before.ended_at, 2 * SECOND);
}

#[test]
fn server_that_listens_after_the_last_poll_is_missed() {
    // The last attempt is made at 29.5 s; the next reading of the clock is
    // at 30 s and ends the wait.
    let run = run_in_ideal_world(30 * SECOND, Some(29 * SECOND + 800_000_000));
    assert!(!run.ready);
    assert_eq!(run.ended_at, 30 * SECOND);

    let at_last_poll = run_in_ideal_world(30 * SECOND, Some(29 * SECOND + 500_000_000));
    assert!(at_last_poll.ready);
    assert_eq!(at_last_poll.ended_at, 29 * SECOND + 500_000_000);

    let at_timeout = run_in_ideal_world(30 * SECOND, Some(30 * SECOND));
    assert!(!at_timeout.ready);
}

#[test]
fn wait_never_exceeds_timeout_plus_one_interval() {
    let timeouts: [u128; 7] = [1, 499_999_999, INTERVAL, INTERVAL + 1, 1_250_000_000, 3 * SECOND, 30 * SECOND];
    let starts: [Option<u128>; 6] =
        [None, Some(0), Some(1), Some(700_000_000), Some(2 * SECOND), Some(40 * SECOND)];
    for timeout in timeouts {
        for ready_at in starts {
            let run = run_in_ideal_world(timeout, ready_at);
            assert!(run.ended_at <= timeout + INTERVAL);
            if run.ready {
                let since = ready_at.unwrap();
                assert!(since <= run.ended_at);
                assert!(run.ended_at < since + INTERVAL);
                assert!(run.ended_at < timeout);
            } else {
                assert!(timeout <= run.ended_at);
                assert!(run.ended_at < timeout + INTERVAL);
            }
        }
    }
}

#[test]
fn silent_server_times_out_at_the_first_poll_past_the_timeout() {
    let run = run_in_ideal_world(1_250_000_000, None);
    assert!(!run.ready);
    assert_eq!(run.ended_at, 1_500_000_000);
    assert_eq!(run.attempts, 3);

    let short = run_in_ideal_world(1, None);
    assert!(!short.ready);
    assert_eq!(short.ended_at, INTERVAL);
    assert_eq!(short.attempts, 1);
}
