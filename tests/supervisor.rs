use sdp_app::command::greet;
use sdp_app::launch::{
    launch_args, log_dir, plan_startup, BuildMode, LogDir, Startup, BACKEND_HOST, BACKEND_PORT,
    STDERR_LOG, STDOUT_LOG,
};
use sdp_app::locate::{candidates, resolve, BaseDir, Candidate, Resolution};
use sdp_app::readiness::{PollStatus, ReadinessPoller, MAX_ATTEMPTS, POLL_INTERVAL_MS};
use sdp_app::tracker::{BackendState, ShutdownAction, EXIT_CODE};

/// Runs a poll against a backend that accepts connections from attempt
/// `opens_at` on (never, if `None`), and returns the final status together
/// with the number of connection attempts made.
fn poll_against(opens_at: Option<u32>) -> (PollStatus, u32) {
    let mut poller = ReadinessPoller::new();
    let mut made: u32 = 0;
    loop {
        made += 1;
        let connected = matches!(opens_at, Some(n) if made >= n);
        let status = poller.record(connected);
        if status.is_finished() {
            return (status, made);
        }
        assert!(made < 1000, "the poll never finished");
    }
}

fn terminations(actions: &[ShutdownAction]) -> usize {
    actions
        .iter()
        .filter(|a| matches!(a, ShutdownAction::Terminate { .. }))
        .count()
}

#[test]
fn resolve_prefers_development_binary() {
    let exists = vec![true, true, true, true, true, true];
    assert_eq!(resolve(&exists), Resolution::Found(Candidate::DevBinary));
}

#[test]
fn resolve_takes_first_existing_in_order() {
    let exists = vec![false, false, true, false, true, true];
    assert_eq!(resolve(&exists), Resolution::Found(Candidate::TargetExe));
    let exists = vec![false, true, false, false, false, false];
    assert_eq!(resolve(&exists), Resolution::Found(Candidate::BundledExe));
    let exists = vec![false, false, false, false, true, false];
    assert_eq!(resolve(&exists), Resolution::Found(Candidate::NestedTargetExe));
}

#[test]
fn resolve_last_candidate() {
    let exists = vec![false, false, false, false, false, true];
    assert_eq!(resolve(&exists), Resolution::Found(Candidate::ResourceEntry));
}

#[test]
fn resolve_reports_sentinel_when_nothing_exists() {
    assert_eq!(resolve(&vec![false; 6]), Resolution::NotFound);
    assert_eq!(resolve(&Vec::new()), Resolution::NotFound);
}

#[test]
fn resolve_ignores_results_beyond_the_list() {
    let exists = vec![false, false, false, false, false, false, true];
    assert_eq!(resolve(&exists), Resolution::NotFound);
    let exists = vec![false, false, true];
    assert_eq!(resolve(&exists), Resolution::Found(Candidate::TargetExe));
}

#[test]
fn candidates_in_documented_order() {
    let order = candidates();
    assert_eq!(
        order,
        vec![
            Candidate::DevBinary,
            Candidate::BundledExe,
            Candidate::TargetExe,
            Candidate::TargetBare,
            Candidate::NestedTargetExe,
            Candidate::ResourceEntry,
        ]
    );
    let names: Vec<&str> = order.iter().map(|c| c.file_name()).collect();
    assert_eq!(
        names,
        vec![
            "sdp-api-x86_64-pc-windows-msvc.exe",
            "sdp-api.exe",
            "sdp-api-x86_64-pc-windows-msvc.exe",
            "sdp-api-x86_64-pc-windows-msvc",
            "sdp-api-x86_64-pc-windows-msvc.exe",
            "sdp-api",
        ]
    );
}

#[test]
fn candidate_directories() {
    assert_eq!(Candidate::DevBinary.base(), BaseDir::DevBinaries);
    assert_eq!(Candidate::DevBinary.subdir(), None);
    assert_eq!(Candidate::BundledExe.base(), BaseDir::Resources);
    assert_eq!(Candidate::NestedTargetExe.base(), BaseDir::Resources);
    assert_eq!(Candidate::NestedTargetExe.subdir(), Some("binaries"));
    assert_eq!(Candidate::ResourceEntry.subdir(), None);
}

#[test]
fn poll_ready_on_first_attempt() {
    assert_eq!(poll_against(Some(1)), (PollStatus::Ready { attempts: 1 }, 1));
}

#[test]
fn poll_ready_at_attempt_n() {
    for n in [2u32, 7, 30, 59, 60] {
        assert_eq!(poll_against(Some(n)), (PollStatus::Ready { attempts: n }, n));
    }
}

#[test]
fn poll_times_out_after_sixty_attempts() {
    assert_eq!(MAX_ATTEMPTS, 60);
    assert_eq!(
        poll_against(None),
        (PollStatus::TimedOut { attempts: 60 }, 60)
    );
    assert_eq!(
        poll_against(Some(61)),
        (PollStatus::TimedOut { attempts: 60 }, 60)
    );
}

#[test]
fn poll_waits_before_the_limit() {
    let mut poller = ReadinessPoller::new();
    assert_eq!(poller.status(), PollStatus::Waiting { attempts: 0 });
    for k in 1..MAX_ATTEMPTS {
        assert_eq!(poller.record(false), PollStatus::Waiting { attempts: k });
    }
    assert_eq!(poller.record(false), PollStatus::TimedOut { attempts: 60 });
    assert_eq!(POLL_INTERVAL_MS, 500);
}

#[test]
fn finished_poll_ignores_later_attempts() {
    let mut poller = ReadinessPoller::new();
    poller.record(false);
    assert_eq!(poller.record(true), PollStatus::Ready { attempts: 2 });
    assert_eq!(poller.record(false), PollStatus::Ready { attempts: 2 });
    assert_eq!(poller.record(true), PollStatus::Ready { attempts: 2 });
    assert_eq!(poller.status(), PollStatus::Ready { attempts: 2 });
}

#[test]
fn new_state_tracks_nothing() {
    let state = BackendState::new();
    assert_eq!(state.tracked_pid(), None);
}

#[test]
fn close_terminates_tracked_backend_once() {
    let mut state = BackendState::new();
    state.track(4242);
    assert_eq!(state.tracked_pid(), Some(4242));
    let actions = state.on_close_requested();
    assert_eq!(
        actions,
        vec![
            ShutdownAction::Terminate { pid: 4242 },
            ShutdownAction::Exit { code: 0 },
        ]
    );
    assert_eq!(terminations(&actions), 1);
    assert_eq!(state.tracked_pid(), None);
    let again = state.on_close_requested();
    assert_eq!(terminations(&again), 0);
}

#[test]
fn close_without_backend_only_exits() {
    let mut state = BackendState::new();
    let actions = state.on_close_requested();
    assert_eq!(actions, vec![ShutdownAction::Exit { code: EXIT_CODE }]);
    assert_eq!(terminations(&actions), 0);
}

#[test]
fn startup_plan() {
    assert_eq!(plan_startup(Resolution::NotFound, false), Startup::NoExecutable);
    assert_eq!(plan_startup(Resolution::NotFound, true), Startup::NoExecutable);
    assert_eq!(
        plan_startup(Resolution::Found(Candidate::TargetExe), true),
        Startup::AlreadyRunning
    );
    assert_eq!(
        plan_startup(Resolution::Found(Candidate::TargetExe), false),
        Startup::Launch(Candidate::TargetExe)
    );
}

#[test]
fn backend_arguments() {
    assert_eq!(launch_args(), vec!["--host", "127.0.0.1", "--port", "9123"]);
    assert_eq!(BACKEND_HOST, "127.0.0.1");
    assert_eq!(BACKEND_PORT, 9123);
    assert_eq!(STDOUT_LOG, "backend-stdout.log");
    assert_eq!(STDERR_LOG, "backend-stderr.log");
}

#[test]
fn log_directory_by_build_mode() {
    assert_eq!(log_dir(BuildMode::Development), LogDir::Project);
    assert_eq!(log_dir(BuildMode::Installed), LogDir::AppLog);
}

#[test]
fn greeting() {
    assert_eq!(
        greet("Ada"),
        "Hello, Ada! You've been greeted from Rust! v2"
    );
    assert_eq!(greet(""), "Hello, ! You've been greeted from Rust! v2");
}
