use scuttle_launcher::control::shutdown_command;
use scuttle_launcher::decimal::u16_to_string;
use scuttle_launcher::log_sink::LogSink;
use scuttle_launcher::supervisor::{SetupRefused, StartRefused, Supervisor};

fn installed_supervisor() -> Supervisor {
    let mut sup = Supervisor::new();
    sup.setup_exists(true);
    sup
}

#[test]
fn bind_succeeds_exactly_once() {
    let mut sup = Supervisor::new();
    assert_eq!(sup.bind_control_port(43210), Ok(43210));
    assert!(sup.bind_control_port(50000).is_err());
    assert_eq!(sup.control_port(), Some(43210));
}

#[test]
fn start_stop_round_trip() {
    let mut sup = installed_supervisor();
    sup.bind_control_port(43211).unwrap();
    assert!(!sup.is_running());
    let args = sup.start().unwrap();
    assert_eq!(args, vec!["-u", "main.py", "--control-port", "43211"]);
    assert!(!sup.is_running());
    sup.mark_server_started();
    assert!(sup.is_running());
    assert!(sup.has_handle);
    let send = sup.stop();
    assert!(send);
    assert!(!sup.is_running());
    assert!(!sup.has_handle);
}

#[test]
fn stop_when_stopped_is_idempotent() {
    let mut sup = installed_supervisor();
    assert!(!sup.stop());
    assert!(!sup.stop());
    assert!(!sup.is_running());
    assert!(sup.is_installed());
}

#[test]
fn spawn_failure_leaves_state_and_logs_once() {
    let mut sup = installed_supervisor();
    sup.bind_control_port(43212).unwrap();
    let mut sink = LogSink::new(100);
    let args = sup.start();
    assert!(args.is_ok());
    let before = sup.is_installed();
    sup.on_spawn_failed(&mut sink, &String::from("No such file or directory"));
    let snap = sink.snapshot_logs();
    assert_eq!(snap.len(), 1);
    assert_eq!(snap[0].text, "Failed to spawn Python: No such file or directory");
    assert_eq!(sup.is_installed(), before);
    assert!(!sup.is_running());
}

#[test]
fn start_refusals() {
    let mut sup = Supervisor::new();
    assert_eq!(sup.start(), Err(StartRefused::NotInstalled));

    let mut sink = LogSink::new(10);
    sup.run_setup(&mut sink).unwrap();
    assert_eq!(sup.start(), Err(StartRefused::InstallInProgress));
    sup.on_setup_finished(&mut sink, true);

    assert_eq!(sup.start(), Err(StartRefused::PortUnbound));
    sup.bind_control_port(43213).unwrap();
    assert!(sup.start().is_ok());
    sup.mark_server_started();
    assert_eq!(sup.start(), Err(StartRefused::AlreadyRunning));
}

#[test]
fn start_args_with_verbose_and_webhook() {
    let mut sup = installed_supervisor();
    sup.bind_control_port(8080).unwrap();
    sup.set_verbose(true);
    sup.load_webhook(String::from("https://old.example"));
    sup.set_webhook_url(String::from("https://new.example"));
    assert!(sup.webhook_dirty);
    let args = sup.start().unwrap();
    assert_eq!(
        args,
        vec![
            "-u",
            "main.py",
            "-v",
            "--control-port",
            "8080",
            "--set-webhook",
            "https://new.example",
        ]
    );
    assert!(!sup.webhook_dirty);
    // The edit is committed as "last applied" only once the backend is up.
    assert_eq!(sup.webhook_saved, "https://old.example");
    sup.mark_server_started();
    assert_eq!(sup.webhook_saved, "https://new.example");
}

#[test]
fn webhook_dirty_tracking() {
    let mut sup = Supervisor::new();
    sup.load_webhook(String::from("a"));
    assert!(!sup.webhook_dirty);
    sup.set_webhook_url(String::from("b"));
    assert!(sup.webhook_dirty);
    sup.set_webhook_url(String::from("a"));
    assert!(!sup.webhook_dirty);
    sup.set_webhook_url(String::from("c"));
    sup.revert_webhook();
    assert_eq!(sup.webhook_url, "a");
    assert!(!sup.webhook_dirty);
}

#[test]
fn setup_flow_success() {
    let mut sup = Supervisor::new();
    let mut sink = LogSink::new(100);
    assert!(!sup.is_installed());
    let plan = sup.run_setup(&mut sink).unwrap();
    assert_eq!(plan.program, "python");
    assert_eq!(plan.args, vec!["main.py", "--setup"]);
    assert!(sup.is_installing());
    assert!(matches!(sup.run_setup(&mut sink), Err(SetupRefused::InstallInProgress)));
    sup.on_setup_spawned(&mut sink);
    sup.on_setup_finished(&mut sink, true);
    assert!(sup.is_installed());
    assert!(!sup.is_installing());
    let snap = sink.snapshot_logs();
    let texts: Vec<&str> = snap.iter().map(|l| l.text.as_str()).collect();
    assert_eq!(
        texts,
        vec!["Starting setup...", "Please don't close this window.", "Setup success!"]
    );
    assert!(matches!(sup.run_setup(&mut sink), Err(SetupRefused::AlreadyInstalled)));
}

#[test]
fn setup_flow_failure() {
    let mut sup = Supervisor::new();
    let mut sink = LogSink::new(100);
    sup.run_setup(&mut sink).unwrap();
    sup.on_setup_finished(&mut sink, false);
    assert!(!sup.is_installed());
    let snap = sink.snapshot_logs();
    assert_eq!(snap.last().unwrap().text, "Setup failed.");
}

#[test]
fn setup_spawn_failure_resets_state() {
    let mut sup = Supervisor::new();
    let mut sink = LogSink::new(100);
    sup.run_setup(&mut sink).unwrap();
    assert!(sup.is_installing());
    sup.on_setup_spawn_failed(&mut sink, &String::from("permission denied"));
    assert!(!sup.is_installing());
    assert!(!sup.is_installed());
    let snap = sink.snapshot_logs();
    assert_eq!(snap.last().unwrap().text, "Failed to launch Python: permission denied");
}

#[test]
fn verbose_setup_logs_invocation() {
    let mut sup = Supervisor::new();
    sup.set_verbose(true);
    let mut sink = LogSink::new(100);
    let plan = sup.run_setup(&mut sink).unwrap();
    assert_eq!(plan.args, vec!["main.py", "--setup", "-v"]);
    let snap = sink.snapshot_logs();
    assert_eq!(snap.len(), 1);
    assert_eq!(snap[0].text, "Executing: python main.py --setup");
}

#[test]
fn child_exit_demotes_and_logs() {
    let mut sup = installed_supervisor();
    sup.bind_control_port(43214).unwrap();
    sup.start().unwrap();
    sup.mark_server_started();
    let mut sink = LogSink::new(100);
    sup.on_child_exit(&mut sink, false);
    assert!(!sup.is_running());
    let snap = sink.snapshot_logs();
    assert_eq!(snap.len(), 1);
    assert_eq!(snap[0].text, "Backend exited with an error.");
    // A second notification after the teardown is a no-op.
    sup.on_child_exit(&mut sink, true);
    assert_eq!(sink.snapshot_logs().len(), 1);
}

#[test]
fn handshake_failure_directs_kill() {
    let sup = installed_supervisor();
    let mut sink = LogSink::new(100);
    assert!(sup.on_handshake_failed(&mut sink));
    let snap = sink.snapshot_logs();
    assert_eq!(snap.len(), 1);
    assert_eq!(snap[0].text, "Control connection failed; terminating the backend.");
}

#[test]
fn detect_python_picks_first_usable() {
    let mut sup = Supervisor::new();
    let mut sink = LogSink::new(100);
    let lines: Vec<Vec<u8>> = vec![
        b"C:\\WindowsApps\\python.exe\r".to_vec(),
        b"C:\\Python311\\python.exe\r".to_vec(),
    ];
    sup.detect_and_set_python(&mut sink, &lines, false);
    assert_eq!(sup.python_cmd, "C:\\Python311\\python.exe");
    assert_eq!(sink.snapshot_logs().len(), 0);
}

#[test]
fn detect_python_verbose_reports() {
    let mut sup = Supervisor::new();
    sup.set_verbose(true);
    let mut sink = LogSink::new(100);
    let lines: Vec<Vec<u8>> = vec![b"/opt/py/python.exe".to_vec()];
    sup.detect_and_set_python(&mut sink, &lines, false);
    let snap = sink.snapshot_logs();
    assert_eq!(snap.len(), 1);
    assert_eq!(snap[0].text, "Python found: /opt/py/python.exe");
}

#[test]
fn detect_python_fallbacks() {
    let mut sup = Supervisor::new();
    let mut sink = LogSink::new(100);
    sup.detect_and_set_python(&mut sink, &Vec::new(), true);
    assert_eq!(sup.python_cmd, "py");
    assert_eq!(sink.snapshot_logs().len(), 0);

    sup.detect_and_set_python(&mut sink, &Vec::new(), false);
    assert_eq!(sup.python_cmd, "python");
    let snap = sink.snapshot_logs();
    assert_eq!(snap.len(), 1);
    assert_eq!(snap[0].text, "No verified Python path found. Using default.");
}

#[test]
fn shutdown_token_bytes() {
    assert_eq!(shutdown_command(), b"STOP\n".to_vec());
}

#[test]
fn decimal_rendering() {
    assert_eq!(u16_to_string(0), "0");
    assert_eq!(u16_to_string(7), "7");
    assert_eq!(u16_to_string(10), "10");
    assert_eq!(u16_to_string(8080), "8080");
    assert_eq!(u16_to_string(65535), "65535");
}

#[test]
fn child_clean_exit_message() {
    let mut sup = installed_supervisor();
    sup.bind_control_port(43215).unwrap();
    sup.start().unwrap();
    sup.mark_server_started();
    let mut sink = LogSink::new(100);
    sup.on_child_exit(&mut sink, true);
    assert!(!sup.is_running());
    let snap = sink.snapshot_logs();
    assert_eq!(snap.len(), 1);
    assert_eq!(snap[0].text, "Backend exited.");
}

#[test]
fn setup_check_can_demote() {
    let mut sup = installed_supervisor();
    assert!(sup.is_installed());
    sup.setup_exists(false);
    assert!(!sup.is_installed());
    sup.setup_exists(true);
    assert!(sup.is_installed());
}
