use flint::error::Error;
use flint::launchd_config::{LaunchdConfig, LaunchdConfigBuilder};
use flint::services::service_state::{ServiceState, ServiceStateData, ServiceStatus, StateFile};

fn foo_launchd_config() -> Result<LaunchdConfig, Error> {
    LaunchdConfigBuilder::default()
        .program(Some("/usr/bin/foo".to_string()))
        .args(vec!["--option".to_string(), "value".to_string()])
        .stdout_path(Some("/var/log/foo_stdout.log".to_string()))
        .stderr_path(Some("/var/log/foo_stderr.log".to_string()))
        .working_directory("/usr/local/foo".to_string())
        .build()
}

#[test]
fn test_write_and_read_state() {
    let formula = "demo_service";
    let state = ServiceState::new(formula.to_string(), &foo_launchd_config().unwrap());

    let data = ServiceStateData::new(vec![1234], ServiceStatus::Running);
    let file = StateFile::Stored(data);

    let read = state.read_state(&file).unwrap();
    assert_eq!(read.pids(), vec![1234]);
    assert_eq!(*read.status(), ServiceStatus::Running);
}

#[test]
fn test_mark_stopped() {
    let formula = "stoppable_service";
    let state = ServiceState::new(formula.to_string(), &foo_launchd_config().unwrap());
    let mut file = StateFile::Missing;

    // Write initial running state
    state.mark_running(&mut file, vec![5678]);

    // Mark stopped
    state.mark_stopped(&mut file).unwrap();
    let updated = state.read_state(&file).unwrap();

    assert_eq!(*updated.status(), ServiceStatus::Stopped);
}

#[test]
fn test_mark_running_writes_correct_state() {
    let formula = "mark_running_service";
    let state = ServiceState::new(formula.to_string(), &foo_launchd_config().unwrap());
    let mut file = StateFile::Missing;

    state.mark_running(&mut file, vec![4242]);
    let read = state.read_state(&file).unwrap();

    assert_eq!(read.pids(), vec![4242]);
    assert_eq!(*read.status(), ServiceStatus::Running);
}

#[test]
fn test_read_state_returns_stale_when_missing() {
    let formula = "missing_service";
    let state = ServiceState::new(formula.to_string(), &foo_launchd_config().unwrap());

    // No file written
    let data = state.read_state(&StateFile::Missing).unwrap();

    assert_eq!(data.pids(), Vec::<i32>::new());
    assert_eq!(*data.status(), ServiceStatus::Stale);
}

#[test]
fn test_get_pid_returns_correct_value() {
    let formula = "pid_service";
    let state = ServiceState::new(formula.to_string(), &foo_launchd_config().unwrap());
    let mut file = StateFile::Missing;

    state.mark_running(&mut file, vec![7777]);
    let data = state.read_state(&file).unwrap();

    assert_eq!(data.pids(), [7777]);
}

#[test]
fn test_state_can_toggle_between_running_and_stopped() {
    let formula = "toggle_service";
    let state = ServiceState::new(formula.to_string(), &foo_launchd_config().unwrap());
    let mut file = StateFile::Missing;

    state.mark_running(&mut file, vec![1000]);
    let running = state.read_state(&file).unwrap();
    assert_eq!(*running.status(), ServiceStatus::Running);

    state.mark_stopped(&mut file).unwrap();
    let stopped = state.read_state(&file).unwrap();
    assert_eq!(*stopped.status(), ServiceStatus::Stopped);

    state.mark_running(&mut file, vec![2000]);
    let running_again = state.read_state(&file).unwrap();
    assert_eq!(*running_again.status(), ServiceStatus::Running);
    assert_eq!(running_again.pids(), vec![2000]);
}

#[test]
fn test_formula_returns_correct_value() {
    let formula = "test_formula_service";
    let state = ServiceState::new(formula.to_string(), &foo_launchd_config().unwrap());
    assert_eq!(state.formula(), formula);
}

#[test]
fn test_search_pids_returns_empty_on_no_process() {
    let formula = "dummy_service";
    let state = ServiceState::new(formula.to_string(), &foo_launchd_config().unwrap());

    // A search that finds no process does not succeed and prints nothing.
    let pids = state.search_pids(false, "");
    assert!(pids.is_empty());
}

#[test]
fn test_round_trip_keeps_pids_in_order() {
    let state = ServiceState::new("round".to_string(), &foo_launchd_config().unwrap());
    let mut file = StateFile::Malformed("not a record".to_string());

    state.mark_running(&mut file, vec![31, 7, 31, 2]);
    let read = state.read_state(&file).unwrap();

    assert_eq!(read, ServiceStateData::new(vec![31, 7, 31, 2], ServiceStatus::Running));
}

#[test]
fn test_mark_stopped_keeps_pids() {
    let state = ServiceState::new("keeper".to_string(), &foo_launchd_config().unwrap());
    let mut file = StateFile::Missing;

    state.mark_running(&mut file, vec![10, 20]);
    state.mark_stopped(&mut file).unwrap();
    let read = state.read_state(&file).unwrap();

    assert_eq!(read, ServiceStateData::new(vec![10, 20], ServiceStatus::Stopped));
}

#[test]
fn test_mark_stopped_without_a_record_writes_an_empty_stopped_state() {
    let state = ServiceState::new("fresh".to_string(), &foo_launchd_config().unwrap());
    let mut file = StateFile::Missing;

    state.mark_stopped(&mut file).unwrap();

    match file {
        StateFile::Stored(data) => {
            assert_eq!(data, ServiceStateData::new(vec![], ServiceStatus::Stopped))
        }
        other => panic!("a record should have been written, found {:?}", other),
    }
}

#[test]
fn test_malformed_state_is_an_error_and_not_stale() {
    let state = ServiceState::new("broken".to_string(), &foo_launchd_config().unwrap());
    let reason = serde_json::from_str::<serde_json::Value>("{\"pids\": [")
        .unwrap_err()
        .to_string();
    let mut file = StateFile::Malformed(reason.clone());

    match state.read_state(&file) {
        Err(Error::Json(message)) => assert_eq!(message, reason),
        other => panic!("a decode error should come back, found {:?}", other),
    }
    match state.mark_stopped(&mut file) {
        Err(Error::Json(message)) => assert_eq!(message, reason),
        other => panic!("a decode error should come back, found {:?}", other),
    }
    assert!(matches!(file, StateFile::Malformed(ref kept) if *kept == reason));
}

#[test]
fn test_state_file_path_follows_the_formula() {
    let state = ServiceState::new("demo".to_string(), &foo_launchd_config().unwrap());
    assert_eq!(ServiceState::state_dir(), "/tmp/flint");
    assert_eq!(state.state_file_path(), "/tmp/flint/demo.state.json");

    let expected = std::path::PathBuf::from("/tmp/flint").join(format!("{}.state.json", "demo"));
    assert_eq!(std::path::Path::new(&state.state_file_path()), expected);

    let rooted = ServiceState::new("/etc/x".to_string(), &foo_launchd_config().unwrap());
    let expected = std::path::PathBuf::from("/tmp/flint").join("/etc/x.state.json");
    assert_eq!(std::path::Path::new(&rooted.state_file_path()), expected);
    assert_eq!(rooted.state_file_path(), "/etc/x.state.json");
}

#[test]
fn test_binary_name_is_the_last_segment_of_the_program() {
    let state = ServiceState::new("foo".to_string(), &foo_launchd_config().unwrap());
    assert_eq!(state.binary_name(), "foo");
}

#[test]
fn test_status_words() {
    assert_eq!(ServiceStateData::new(vec![], ServiceStatus::Running).to_string(), "Running");
    assert_eq!(ServiceStateData::new(vec![1], ServiceStatus::Stopped).to_string(), "Stopped");
    assert_eq!(ServiceStateData::new(vec![], ServiceStatus::Stale).to_string(), "Stale");
}

fn pids_as_std_reads_them(output: &str) -> Vec<i32> {
    let mut pids = Vec::new();
    for line in output.lines() {
        if let Ok(pid) = line.trim().parse::<i32>() {
            pids.push(pid);
        }
    }
    pids
}

#[test]
fn test_search_pids_reads_one_pid_per_line() {
    let state = ServiceState::new("lister".to_string(), &foo_launchd_config().unwrap());
    assert_eq!(state.search_pids(true, "123\n456\n"), vec![123, 456]);
    assert_eq!(state.search_pids(true, "123\n456"), vec![123, 456]);
    assert_eq!(state.search_pids(true, "  42 \r\n\t7\n"), vec![42, 7]);
    assert_eq!(state.search_pids(true, ""), Vec::<i32>::new());
    assert_eq!(state.search_pids(true, "\n\n"), Vec::<i32>::new());
    assert_eq!(state.search_pids(false, "123\n456\n"), Vec::<i32>::new());
}

#[test]
fn test_search_pids_passes_over_what_is_no_pid() {
    let state = ServiceState::new("lister".to_string(), &foo_launchd_config().unwrap());
    assert_eq!(state.search_pids(true, "pid\n12 34\n56x\n78\n"), vec![78]);
    assert_eq!(state.search_pids(true, "+5\n-6\n-\n+\n--7\n"), vec![5, -6]);
    assert_eq!(
        state.search_pids(true, "2147483647\n2147483648\n-2147483648\n-2147483649\n"),
        vec![2147483647, -2147483648]
    );
    assert_eq!(state.search_pids(true, "0000000000000000000012\n"), vec![12]);
    assert_eq!(state.search_pids(true, "99999999999999999999999999\n3\n"), vec![3]);
}

#[test]
fn test_search_pids_agrees_with_the_standard_library() {
    let state = ServiceState::new("lister".to_string(), &foo_launchd_config().unwrap());
    let outputs = [
        "",
        "\n",
        "\r\n",
        "1",
        "1\n",
        "1\r\n2\r\n",
        "1\r2\n",
        "1\r",
        "1\r\r\n2",
        " 1 \n\u{a0}2\u{3000}\n\u{2003}3\n",
        "\u{85}4\u{85}\n\u{1680}5\n\u{200b}6\n",
        "\u{0661}\u{0662}\n7\n",
        "1_000\n0x10\n1e3\n1.0\n",
        "-0\n+0\n-00012\n",
        "2147483647\n2147483648\n-2147483648\n-2147483649\n4294967296\n",
        "12\n\n\n34\n\n",
        "a\nb\nc",
        "\t\t17\t\t\n\u{b}18\u{c}\n",
        "5\n \n6",
        "0\n7\n42\n-1\n+1\n-\n+\n+-1\n-+1\n--1\n1-\n1a\na1\n00\n-00\n007\n",
        "2147483649\n-2147483647\n+2147483647\n+2147483648\n21474836470\n9999999999\n",
        "99999999999999999999\n-99999999999999999999\n",
        "000000000000000000002147483647\n000000000000000000002147483648\n",
        "\u{ff11}\n1\u{0661}\n \t a b \n\u{2028}8\u{2029}\n\u{202f}9\u{205f}\n",
        "  \r\n\r\n \u{a0} \n10",
    ];
    for output in outputs {
        assert_eq!(state.search_pids(true, output), pids_as_std_reads_them(output), "{:?}", output);
    }
}

#[test]
fn test_managed_units_are_found_by_their_label() {
    let state = ServiceState::new("nginx".to_string(), &foo_launchd_config().unwrap());
    let listing = "PID\tStatus\tLabel\n-\t0\tcom.apple.Safari\n812\t0\thomebrew.mxcl.nginx\n";
    assert!(state.is_managed_by_launchctl(listing));
    assert!(state.is_managed_by_launchctl("homebrew.mxcl.nginx"));
    assert!(state.is_managed_by_launchctl("xhomebrew.mxcl.nginx-extra"));
    assert!(!state.is_managed_by_launchctl("homebrew.mxcl.ngin"));
    assert!(!state.is_managed_by_launchctl("homebrew.mxcl.redis\nnginx\n"));
    assert!(!state.is_managed_by_launchctl(""));
}

#[test]
fn test_search_pids_agrees_with_the_standard_library_on_generated_listings() {
    let state = ServiceState::new("lister".to_string(), &foo_launchd_config().unwrap());
    let alphabet = [
        '0', '1', '2', '9', '-', '+', ' ', '\n', '\r', '\t', '\n', '4', '7', 'x', '\u{a0}', '8',
    ];
    let mut seed: u64 = 13;
    let mut number = || {
        seed = seed.wrapping_mul(6364136223846793005).wrapping_add(1442695040888963407);
        seed >> 33
    };
    for _ in 0..20000 {
        let length = number() % 25;
        let output: String =
            (0..length).map(|_| alphabet[(number() % alphabet.len() as u64) as usize]).collect();
        assert_eq!(state.search_pids(true, &output), pids_as_std_reads_them(&output), "{:?}", output);
    }
}
