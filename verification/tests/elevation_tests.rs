use mutools::elevation::{
    check_and_elevate, elevation_attempt_text, get_elevation_attempt, has_elevation_flag,
    relaunch_args, relaunch_params, ElevationStep, ELEVATION_FLAG,
};
use mutools::logger::{log_line, log_lines, logger_line};

fn args(a: &[&str]) -> Vec<String> {
    a.iter().map(|s| s.to_string()).collect()
}

#[test]
fn flag_detection_and_attempts() {
    assert!(has_elevation_flag(&args(&["x", "--elevated"])));
    assert!(!has_elevation_flag(&args(&["x"])));
    assert_eq!(get_elevation_attempt(Some("2".into())), 2);
    assert_eq!(get_elevation_attempt(Some("x".into())), 0);
    assert_eq!(get_elevation_attempt(None), 0);
    assert_eq!(elevation_attempt_text(3), "3");
}

#[test]
fn restart_arguments() {
    assert_eq!(relaunch_args(&args(&["--elevated", "a", "--elevated"])), args(&["a", ELEVATION_FLAG]));
    assert_eq!(relaunch_params(&args(&["a b", "c", "--elevated"])), "\"a b\" c --elevated");
    assert_eq!(relaunch_params(&args(&[])), "");
}

#[test]
fn elevation_decisions() {
    let a = args(&["p"]);
    assert!(matches!(check_and_elevate(false, false, &a, false, 0), ElevationStep::Disabled));
    assert!(matches!(check_and_elevate(true, true, &args(&["--elevated"]), false, 0), ElevationStep::AlreadyAdmin { restarted: true }));
    assert!(matches!(check_and_elevate(true, false, &a, true, 0), ElevationStep::Development));
    assert!(matches!(check_and_elevate(true, false, &a, false, 3), ElevationStep::GiveUp { attempts: 3 }));
    match check_and_elevate(true, false, &a, false, 2) {
        ElevationStep::Restart { args: r, attempt } => {
            assert_eq!(attempt, 3);
            assert_eq!(r, args(&["p", "--elevated"]));
        }
        _ => panic!("restart expected"),
    }
}

#[test]
fn log_lines_round_trip() {
    assert_eq!(log_line("2024-01-01 00:00:00", "hi"), "[2024-01-01 00:00:00] hi\n");
    assert_eq!(logger_line("t", "INFO", "m"), "[t] [INFO] m\n");
    let content = format!("{}{}", log_line("t1", "a"), log_line("t2", "b"));
    assert_eq!(log_lines(&content), vec!["[t1] a", "[t2] b"]);
    assert!(log_lines("").is_empty());
}

#[test]
fn restart_chain_gives_up_after_three() {
    let mut stored: Option<String> = None;
    let mut restarts = 0;
    loop {
        let attempt = get_elevation_attempt(stored.clone());
        match check_and_elevate(true, false, &args(&["p"]), false, attempt) {
            ElevationStep::Restart { attempt: n, .. } => {
                restarts += 1;
                assert_eq!(n, restarts);
                stored = Some(elevation_attempt_text(n));
            }
            ElevationStep::GiveUp { attempts } => {
                assert_eq!(attempts, 3);
                break;
            }
            _ => panic!("unexpected step"),
        }
    }
    assert_eq!(restarts, 3);
}
