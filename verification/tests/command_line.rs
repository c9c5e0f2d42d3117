use std::time::Duration as StdDuration;
use wrap_command::args::{Args, Platform, Shell};
use wrap_command::command::{caffeinate_command, make_command_to_run, make_tmux_command, push_opt};
use wrap_command::duration::{parse_duration, Duration};
use wrap_command::text::decimal_text;

fn strings(v: &[&str]) -> Vec<String> {
    v.iter().map(|s| s.to_string()).collect()
}

/// The options as the command-line parser leaves them when only a command is
/// given: the signal defaults to SIGTERM.
fn parsed(command: &[&str]) -> Args {
    Args {
        signal: Some("SIGTERM".to_string()),
        command: strings(command),
        ..Args::default()
    }
}

/// The path of the running program, as the application finds it.
fn exe() -> String {
    "/usr/local/bin/wrap-command".to_string()
}

#[test]
fn test_make_tmux_command_basic() {
    let args = Args {
        tmux_window_name: Some("my_window".to_string()),
        ..parsed(&["echo", "hello"])
    };
    let current_exe = exe();
    let result = make_tmux_command(args, current_exe.clone());
    assert_eq!(
        result,
        vec!["tmux", "new-window", "-d", "-n", "my_window", &current_exe, "echo", "hello"]
    );
}

#[test]
fn test_make_tmux_command_all_args() {
    let args = Args {
        tmux_window_name: Some("another_window".to_string()),
        lockfile: Some("/tmp/foo.lock".to_string()),
        lock_timeout: Some(parse_duration("1000ms").unwrap()),
        command_timeout: Some(parse_duration("5000ms").unwrap()),
        directory: Some("/tmp".to_string()),
        signal: Some("SIGTERM".to_string()),
        signal_timeout: parse_duration("2000ms").unwrap(),
        shell: true,
        caffeinate: true,
        url_retry_delay: parse_duration("2000ms").unwrap(),
        url_retry_count: 10,
        network_check_timeout: Some(parse_duration("3s").unwrap()),
        network_check_url: "http://example.com".to_string(),
        ..parsed(&["ls", "-la"])
    };
    let current_exe = exe();
    let result = make_tmux_command(args, current_exe.clone());
    assert_eq!(
        result,
        vec![
            "tmux",
            "new-window",
            "-d",
            "-n",
            "another_window",
            &current_exe,
            "--directory",
            "/tmp",
            "--lockfile",
            "/tmp/foo.lock",
            "--lock_timeout",
            "1000ms",
            "--command_timeout",
            "5000ms",
            "--signal",
            "SIGTERM",
            "--signal_timeout",
            "2000ms",
            "--shell",
            "--url_retry_delay",
            "2000ms",
            "--url_retry_count",
            "10",
            "--caffeinate",
            "--network_check_timeout",
            "3000ms",
            "--network_check_url",
            "http://example.com",
            "ls",
            "-la"
        ]
    );
}

#[test]
fn test_make_tmux_command_wait() {
    let args = Args {
        tmux_window_name: Some("window".to_string()),
        wait: true,
        ..parsed(&["echo", "hello"])
    };
    let current_exe = exe();
    let result = make_tmux_command(args, current_exe.clone());
    assert_eq!(
        result,
        vec!["tmux", "new-window", "-d", "-n", "window", &current_exe, "--wait", "echo", "hello"]
    );
}

#[test]
fn test_make_tmux_command_forward_urls() {
    let args = Args {
        tmux_window_name: Some("window".to_string()),
        success_url: Some("http://success".to_string()),
        failure_url: Some("http://failure".to_string()),
        ..parsed(&["echo", "hello"])
    };
    let current_exe = exe();
    let result = make_tmux_command(args, current_exe.clone());
    assert_eq!(
        result,
        vec![
            "tmux",
            "new-window",
            "-d",
            "-n",
            "window",
            &current_exe,
            "--success_url",
            "http://success",
            "--failure_url",
            "http://failure",
            "echo",
            "hello"
        ]
    );
}

#[test]
fn test_make_tmux_command_custom_network_check_url() {
    let args = Args {
        tmux_window_name: Some("window".to_string()),
        network_check_url: "http://custom.url".to_string(),
        ..parsed(&["echo", "hello"])
    };
    let current_exe = exe();
    let result = make_tmux_command(args, current_exe.clone());
    assert_eq!(
        result,
        vec![
            "tmux",
            "new-window",
            "-d",
            "-n",
            "window",
            &current_exe,
            "--network_check_url",
            "http://custom.url",
            "echo",
            "hello"
        ]
    );
}

#[test]
fn tmux_command_forwards_retry_settings() {
    let args = Args {
        tmux_window_name: Some("w".to_string()),
        retries: 3,
        retry_delay: Some(Duration::from_millis(1500)),
        retry_wait: false,
        ..parsed(&["make"])
    };
    let result = make_tmux_command(args, "wc".to_string());
    assert_eq!(
        result,
        vec!["tmux", "new-window", "-d", "-n", "w", "wc", "--retries", "3", "--retry_delay", "1500ms", "make"]
    );
}

#[test]
fn tmux_command_writes_whole_milliseconds() {
    // Sub-millisecond parts are dropped, as `as_millis` does.
    let args = Args {
        tmux_window_name: Some("w".to_string()),
        lockfile: Some("l".to_string()),
        lock_timeout: Some(Duration::new(2, 999_999)),
        ..parsed(&["x"])
    };
    let result = make_tmux_command(args, "exe".to_string());
    assert_eq!(
        result,
        vec!["tmux", "new-window", "-d", "-n", "w", "exe", "--lockfile", "l", "--lock_timeout", "2000ms", "x"]
    );
}

#[test]
fn test_make_command_to_run_tmux() {
    let args = Args {
        tmux_window_name: Some("my_window".to_string()),
        lockfile: Some("/tmp/foo.lock".to_string()),
        ..parsed(&["echo", "hello"])
    };
    let current_exe = exe();
    let result_args = make_command_to_run(args, current_exe.clone(), Platform::Linux);
    assert_eq!(
        result_args.command,
        vec![
            "tmux",
            "new-window",
            "-d",
            "-n",
            "my_window",
            &current_exe,
            "--lockfile",
            "/tmp/foo.lock",
            "echo",
            "hello"
        ]
    );
    assert!(result_args.tmux_window_name.is_none());
    assert!(result_args.lockfile.is_none());
    assert!(result_args.lock_timeout.is_none());
    assert!(result_args.command_timeout.is_none());
    assert!(result_args.directory.is_none());
    assert_eq!(Duration::from_secs(1), result_args.signal_timeout);
    assert!(!result_args.shell);
    assert!(result_args.network_check_timeout.is_none());
    assert_eq!(Duration::from_secs(1), result_args.url_retry_delay);
    assert_eq!(5, result_args.url_retry_count);
}

#[test]
fn test_make_command_to_run_network_check() {
    let args = Args {
        network_check_timeout: Some(parse_duration("500ms").unwrap()),
        network_check_url: "http://example.com".to_string(),
        ..parsed(&["true"])
    };
    let result_args = make_command_to_run(args, exe(), Platform::Linux);
    assert_eq!(result_args.network_check_timeout, Some(Duration::from_millis(500)));
    assert_eq!(result_args.network_check_url, "http://example.com");
}

#[test]
fn test_make_command_to_run_shell() {
    let args = Args { shell: true, ..parsed(&["echo", "foo", "bar"]) };
    let result_args = make_command_to_run(args, exe(), Platform::Linux);
    assert_eq!(result_args.command, vec!["sh", "-c", "echo", "foo", "bar"]);
    assert!(result_args.shell);
}

#[test]
fn test_make_command_to_run_no_modification() {
    let args = Args {
        lockfile: Some("/tmp/foo.lock".to_string()),
        ..parsed(&["echo", "hello"])
    };
    let given_args = args.clone();
    let result_args = make_command_to_run(args, exe(), Platform::Linux);
    assert_eq!(result_args.command, given_args.command);
    assert_eq!(result_args.lockfile, given_args.lockfile);
    assert_eq!(result_args.lock_timeout, given_args.lock_timeout);
    assert_eq!(result_args.command_timeout, given_args.command_timeout);
    assert_eq!(result_args.directory, given_args.directory);
    assert_eq!(result_args.shell, given_args.shell);
    assert_eq!(result_args.signal_timeout, given_args.signal_timeout);
    assert_eq!(result_args.caffeinate, given_args.caffeinate);
}

#[test]
fn test_make_command_to_run_caffeinate() {
    let args = Args { caffeinate: true, ..parsed(&["echo", "foo"]) };
    let result_args = make_command_to_run(args, exe(), Platform::Linux);
    let mut expected_command = caffeinate_command(Platform::Linux);
    expected_command.extend_from_slice(&["echo".to_string(), "foo".to_string()]);
    assert_eq!(result_args.command, expected_command);
    assert!(result_args.caffeinate);
}

#[test]
fn test_make_command_to_run_shell_caffeinate() {
    let args = Args { shell: true, caffeinate: true, ..parsed(&["echo", "foo"]) };
    let result_args = make_command_to_run(args, exe(), Platform::Linux);
    let mut expected_command = caffeinate_command(Platform::Linux);
    expected_command.extend_from_slice(&[
        "sh".to_string(),
        "-c".to_string(),
        "echo".to_string(),
        "foo".to_string(),
    ]);
    assert_eq!(result_args.command, expected_command);
    assert!(result_args.caffeinate);
    assert!(result_args.shell);
}

#[test]
fn caffeinate_prefix_per_platform() {
    assert_eq!(caffeinate_command(Platform::Linux), vec!["systemd-inhibit", "--what=idle"]);
    assert_eq!(caffeinate_command(Platform::MacOs), vec!["caffeinate", "-i"]);
    let args = Args { shell: true, caffeinate: true, ..parsed(&["ls"]) };
    let result_args = make_command_to_run(args, exe(), Platform::MacOs);
    assert_eq!(result_args.command, vec!["caffeinate", "-i", "sh", "-c", "ls"]);
}

#[test]
fn test_args_default() {
    let default_args = Args::default();
    assert!(!default_args.wait);
    assert!(default_args.tmux_window_name.is_none());
    assert!(default_args.lockfile.is_none());
    assert!(default_args.lock_timeout.is_none());
    assert!(default_args.command_timeout.is_none());
    assert!(default_args.signal.is_none());
    assert_eq!(default_args.signal_timeout, Duration::from_secs(1));
    assert!(default_args.directory.is_none());
    assert!(!default_args.shell);
    assert!(default_args.success_url.is_none());
    assert!(default_args.failure_url.is_none());
    assert_eq!(default_args.url_retry_delay, Duration::from_secs(1));
    assert_eq!(default_args.url_retry_count, 5);
    assert!(!default_args.caffeinate);
    assert!(default_args.network_check_timeout.is_none());
    assert_eq!(default_args.network_check_url, "http://clients3.google.com/generate_204");
    assert!(default_args.output_shell_completion.is_none());
    assert!(default_args.command.is_empty());
    assert_eq!(default_args.retries, 0);
    assert!(default_args.retry_delay.is_none());
    assert!(!default_args.retry_wait);
    let _ = Shell::Bash;
}

#[test]
fn test_push_opt_some_string() {
    let mut vec = Vec::new();
    push_opt(&mut vec, "--flag", Some("value".to_string()));
    assert_eq!(vec, vec!["--flag", "value"]);
}

#[test]
fn test_push_opt_some_u64() {
    let mut vec = Vec::new();
    push_opt(&mut vec, "--timeout", Some(1000u64));
    assert_eq!(vec, vec!["--timeout", "1000"]);
}

#[test]
fn test_push_opt_none() {
    let mut vec = Vec::new();
    let opt: Option<String> = None;
    push_opt(&mut vec, "--flag", opt);
    assert!(vec.is_empty());
}

#[test]
fn push_opt_appends_after_existing_items() {
    let mut vec = vec!["a".to_string()];
    push_opt(&mut vec, "--count", Some(7u32));
    push_opt(&mut vec, "--n", Some(0u64));
    assert_eq!(vec, vec!["a", "--count", "7", "--n", "0"]);
}

#[test]
fn test_parse_duration_valid() {
    assert_eq!(parse_duration("1s"), Ok(Duration::from_secs(1)));
    assert_eq!(parse_duration("500ms"), Ok(Duration::from_millis(500)));
    assert_eq!(parse_duration("1.5s"), Ok(Duration::from_millis(1500)));
    assert_eq!(parse_duration("2h"), Ok(Duration::from_secs(7200)));
    assert_eq!(parse_duration("0"), Ok(Duration::from_secs(0)));
    assert_eq!(parse_duration("0s"), Ok(Duration::from_secs(0)));
}

#[test]
fn test_parse_duration_invalid() {
    assert!(parse_duration("invalid").is_err());
    assert!(parse_duration("1s2ms").is_err());
    assert!(parse_duration("-5s").is_err());
}

#[test]
fn parse_duration_defaults_to_seconds_and_floats() {
    assert_eq!(parse_duration("10"), Ok(Duration::from_secs(10)));
    assert_eq!(parse_duration(".5h"), Ok(Duration::from_secs(1800)));
    assert_eq!(parse_duration("2e-3s"), Ok(Duration::from_millis(2)));
    assert_eq!(parse_duration("3us"), Ok(Duration::from_nanos(3000)));
    assert_eq!(parse_duration("3\u{b5}s"), Ok(Duration::from_nanos(3000)));
    assert_eq!(parse_duration("7ns"), Ok(Duration::from_nanos(7)));
    assert_eq!(parse_duration("1w"), Ok(Duration::from_secs(604_800)));
    assert_eq!(parse_duration("1M"), Ok(Duration::from_secs(2_629_800)));
    assert_eq!(parse_duration("1y"), Ok(Duration::from_secs(31_557_600)));
    assert!(parse_duration("5xs").is_err());
}

#[test]
fn duration_parts_and_millis() {
    let d = Duration::new(3, 250_000_000);
    assert_eq!(d.as_secs(), 3);
    assert_eq!(d.subsec_nanos(), 250_000_000);
    assert_eq!(d.as_millis(), 3250);
    assert_eq!(d.as_nanos(), 3_250_000_000);
    assert!(!d.is_zero());
    assert!(Duration::zero().is_zero());
    assert!(d.at_least(&Duration::from_secs(3)));
    assert!(!Duration::from_secs(3).at_least(&d));
    assert!(d.same_as(&Duration::from_millis(3250)));
    let std_d = StdDuration::new(d.as_secs(), d.subsec_nanos());
    assert_eq!(std_d, StdDuration::from_millis(3250));
}

#[test]
fn decimal_text_renders_base_ten() {
    assert_eq!(decimal_text(0), "0");
    assert_eq!(decimal_text(9), "9");
    assert_eq!(decimal_text(10), "10");
    assert_eq!(decimal_text(1_000_000), "1000000");
    assert_eq!(decimal_text(u128::MAX), u128::MAX.to_string());
}


#[test]
fn parse_duration_errors_quote_the_given_text() {
    let e = parse_duration("xus").unwrap_err();
    assert!(!e.contains("Ms"), "{}", e);
}
