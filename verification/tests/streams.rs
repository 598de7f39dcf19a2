use launcher_core::sanitize::sanitize_line;
use launcher_core::supervisor::{
    build_launch_command, exit_code_or_sentinel, launch_script_name, port_kill_command,
    ready_marker_str, server_environment, server_port, shell_single_quote, OutputReader, Platform,
    Supervisor,
};
use launcher_core::text::{contains_str, starts_with, str_equal, u64_to_string};

#[test]
fn sanitize_strips_color_sequence_keeps_text() {
    let line = "\u{1b}[31mRed\u{1b}[0m text";
    assert_eq!(sanitize_line(line), "Red text");
}

#[test]
fn sanitize_spinner_only_line_becomes_empty() {
    let line = "\u{2819}\u{2839}\u{2838}";
    assert_eq!(sanitize_line(line), "");
}

#[test]
fn sanitize_drops_control_chars_but_keeps_tab() {
    assert_eq!(sanitize_line("a\tb\u{7}c"), "a\tbc");
}

#[test]
fn sanitize_escape_without_bracket_drops_escape_only() {
    assert_eq!(sanitize_line("\u{1b}Zabc"), "Zabc");
}

#[test]
fn sanitize_unterminated_sequence_swallows_rest() {
    assert_eq!(sanitize_line("x\u{1b}[31"), "x");
}

#[test]
fn spinner_only_line_is_dropped_from_log_stream() {
    let mut reader = OutputReader::new();
    let outcome = reader.process_stdout_line("\u{2819}\u{2839}\u{2838}");
    assert!(outcome.log.is_none());
    assert!(!outcome.ready);
}

#[test]
fn ready_signal_fires_exactly_once_over_three_marker_lines() {
    let mut reader = OutputReader::new();
    let marker = ready_marker_str();
    let mut fired = 0;
    for _ in 0..3 {
        let line = format!("12:00 {} on port 8000", marker);
        let outcome = reader.process_stdout_line(&line);
        assert!(outcome.log.is_some());
        if outcome.ready {
            fired += 1;
        }
    }
    assert_eq!(fired, 1);
}

#[test]
fn ready_signal_ignores_unrelated_lines() {
    let mut reader = OutputReader::new();
    let outcome = reader.process_stdout_line("installing dependencies");
    assert!(!outcome.ready);
    assert_eq!(outcome.log.unwrap(), "installing dependencies");
}

#[test]
fn ready_marker_hidden_by_color_codes_still_detected() {
    let mut reader = OutputReader::new();
    let outcome = reader.process_stdout_line("\u{1b}[32mStarting Webserver\u{1b}[0m");
    assert!(outcome.ready);
    assert_eq!(outcome.log.unwrap(), "Starting Webserver");
}

#[test]
fn stderr_lines_are_sanitized_and_empty_ones_dropped() {
    let reader = OutputReader::new();
    assert_eq!(
        reader.process_stderr_line("\u{1b}[31merror:\u{1b}[0m boom").unwrap(),
        "error: boom"
    );
    assert!(reader.process_stderr_line("\u{1b}[31m").is_none());
}

#[test]
fn supervisor_refuses_second_start_and_keeps_handle() {
    let mut sup = Supervisor::new();
    assert!(sup.store_handle(41).is_ok());
    let conflict = sup.store_handle(42);
    assert!(conflict.is_err());
    assert_eq!(conflict.unwrap_err().held, 41);
    assert_eq!(sup.take_handle(), Some(41));
    assert_eq!(sup.take_handle(), None);
    assert!(sup.store_handle(42).is_ok());
}

#[test]
fn exit_code_sentinel_when_unavailable() {
    assert_eq!(exit_code_or_sentinel(Some(3)), 3);
    assert_eq!(exit_code_or_sentinel(None), -1);
}

#[test]
fn launch_script_selection_by_mode_and_platform() {
    assert_eq!(launch_script_name("full", true), "run.bat");
    assert_eq!(launch_script_name("quick", true), "start-server.bat");
    assert_eq!(launch_script_name("full", false), "run.sh");
    assert_eq!(launch_script_name("quick", false), "start-server.sh");
}

#[test]
fn shell_quoting_wraps_and_escapes() {
    assert_eq!(shell_single_quote("/a b/run.sh"), "'/a b/run.sh'");
    assert_eq!(shell_single_quote("it's"), "'it'\\''s'");
}

#[test]
fn linux_launch_command_uses_login_shell() {
    let cmd = build_launch_command(Platform::Linux, "/r/scripts/run.sh");
    assert_eq!(cmd.program, "/bin/bash");
    assert_eq!(cmd.args, vec!["-l", "-c", "'/r/scripts/run.sh'"]);
}

#[test]
fn macos_launch_command_wraps_in_pty() {
    let cmd = build_launch_command(Platform::MacOs, "/r/scripts/run.sh");
    assert_eq!(cmd.program, "script");
    assert_eq!(
        cmd.args,
        vec!["-q", "/dev/stdout", "/bin/zsh", "-l", "-c", "'/r/scripts/run.sh'"]
    );
}

#[test]
fn windows_launch_command_uses_interpreter() {
    let cmd = build_launch_command(Platform::Windows, "C:/r/scripts/run.bat");
    assert_eq!(cmd.program, "cmd.exe");
    assert_eq!(cmd.args, vec!["/c", "C:/r/scripts/run.bat"]);
}

#[test]
fn server_environment_forces_plain_output() {
    let env = server_environment();
    assert_eq!(env.len(), 4);
    assert_eq!(env[0], ("PYTHONUNBUFFERED".to_string(), "1".to_string()));
    assert_eq!(env[1], ("NO_COLOR".to_string(), "1".to_string()));
    assert_eq!(env[2], ("FORCE_COLOR".to_string(), "0".to_string()));
    assert_eq!(env[3], ("TERM".to_string(), "dumb".to_string()));
}

#[test]
fn port_kill_command_embeds_port_number() {
    let unix = port_kill_command(server_port(), false);
    assert_eq!(unix.program, "sh");
    assert_eq!(unix.args, vec!["-c", "lsof -ti :8000 | xargs kill 2>/dev/null || true"]);
    let win = port_kill_command(8000, true);
    assert_eq!(win.program, "powershell");
    assert_eq!(win.args[0], "-NoProfile");
    assert_eq!(win.args[1], "-Command");
    assert!(win.args[2].contains("-LocalPort 8000 "));
}

#[test]
fn decimal_formatting() {
    assert_eq!(u64_to_string(0), "0");
    assert_eq!(u64_to_string(8000), "8000");
    assert_eq!(u64_to_string(18446744073709551615), "18446744073709551615");
}

#[test]
fn text_search_helpers() {
    assert!(contains_str("ab Starting Webserver cd", "Starting Webserver"));
    assert!(!contains_str("starting webserver", "Starting Webserver"));
    assert!(starts_with("https://x", "https://"));
    assert!(!starts_with("http://x", "https://"));
    assert!(str_equal("full", "full"));
    assert!(!str_equal("full", "ful"));
}
