use modkit::cmd_config::Config;
use modkit::command::{CommandBuilder, Output};
use modkit::file_watcher::{match_pattern, EventKind, FileEvent, FileWatcher};
use modkit::http::{HttpClient, Response};
use modkit::progress::SpinnerStyle;
use modkit::serial::{DataBits, Parity, SerialPortBuilder, StopBits};
use modkit::sysinfo::{humanize_bytes, humanize_duration, DiskInfo, NetworkInfo, SystemInfo};
use modkit::updater::find_target_path;
use modkit::websocket::WsMessage;

#[test]
fn match_pattern_wildcards() {
    assert!(match_pattern("*", ""));
    assert!(match_pattern("*", "anything"));
    assert!(match_pattern("*.txt", "notes.txt"));
    assert!(!match_pattern("*.txt", "notes.txt.bak"));
    assert!(match_pattern("a?c", "abc"));
    assert!(!match_pattern("a?c", "ac"));
    assert!(match_pattern("**", "x"));
    assert!(match_pattern("a*b*c", "a-1-b-2-c"));
    assert!(!match_pattern("a*b*c", "acb"));
    assert!(match_pattern("", ""));
    assert!(!match_pattern("", "x"));
}

#[test]
fn watcher_filters_by_extension_ignoring_case() {
    let w = FileWatcher::new().extensions(&["TXT", "md"]);
    assert!(w.passes_filters(Some("notes.txt"), Some("txt")));
    assert!(w.passes_filters(Some("notes.txt"), Some("TXT")));
    assert!(w.passes_filters(Some("readme.md"), Some("md")));
    assert!(!w.passes_filters(Some("image.png"), Some("png")));
    assert!(!w.passes_filters(Some("no-extension"), None));
}

#[test]
fn watcher_filters_by_pattern() {
    let w = FileWatcher::new().pattern("report-*.csv");
    assert!(w.passes_filters(Some("report-2024.csv"), Some("csv")));
    assert!(!w.passes_filters(Some("summary.csv"), Some("csv")));
    // A path without a file name is not held back by the pattern.
    assert!(w.passes_filters(None, Some("csv")));
}

#[test]
fn watcher_builder_gathers_settings() {
    let w = FileWatcher::new()
        .path("/tmp/a")
        .paths(&["/tmp/b", "/tmp/c"])
        .recursive(true)
        .debounce(250);
    assert_eq!(w.paths, vec!["/tmp/a", "/tmp/b", "/tmp/c"]);
    assert!(w.recursive);
    assert_eq!(w.debounce_ms, Some(250));
}

#[test]
fn file_events_carry_paths() {
    let e = FileEvent::new(EventKind::Modify, "/tmp/x".to_string());
    assert_eq!(e.kind, EventKind::Modify);
    assert_eq!(e.path, "/tmp/x");
    assert!(e.from_path.is_none());
    let r = FileEvent::rename("/tmp/old".to_string(), "/tmp/new".to_string());
    assert_eq!(r.kind, EventKind::Rename);
    assert_eq!(r.path, "/tmp/new");
    assert_eq!(r.from_path.as_deref(), Some("/tmp/old"));
}

#[test]
fn output_combines_streams() {
    let both = Output {
        stdout: "out".to_string(),
        stderr: "err".to_string(),
        status: 0,
        success: true,
    };
    assert_eq!(both.combined(), "out\nerr");
    let only_out = Output { stderr: String::new(), ..both };
    assert_eq!(only_out.combined(), "out");
    let only_err = Output {
        stdout: String::new(),
        stderr: "err".to_string(),
        status: 1,
        success: false,
    };
    assert_eq!(only_err.combined(), "err");
}

#[test]
fn output_trims_whitespace() {
    let o = Output {
        stdout: "  hello world \n".to_string(),
        stderr: "\t warn \n".to_string(),
        status: 0,
        success: true,
    };
    assert_eq!(o.stdout_trimmed(), "hello world");
    assert_eq!(o.stderr_trimmed(), "warn");
}

#[test]
fn command_builder_gathers_settings() {
    let b = CommandBuilder::new("echo")
        .arg("-n")
        .args(&["a", "b"])
        .cwd("/tmp")
        .env("K", "V")
        .env_clear()
        .stdin("input");
    assert_eq!(b.program, "echo");
    assert_eq!(b.args, vec!["-n", "a", "b"]);
    assert_eq!(b.cwd.as_deref(), Some("/tmp"));
    assert_eq!(b.envs, vec![("K".to_string(), "V".to_string())]);
    assert!(b.env_clear);
    assert_eq!(b.stdin_data.as_deref(), Some("input"));
    assert!(b.timeout.is_none());
    let b = b.timeout(std::time::Duration::from_secs(5));
    assert_eq!(b.timeout, Some(std::time::Duration::from_secs(5)));
}

#[test]
fn response_reports_success() {
    for status in [200u16, 204, 299] {
        assert!(Response::new(status, String::new()).is_success());
    }
    for status in [199u16, 301, 404, 500] {
        assert!(!Response::new(status, String::new()).is_success());
    }
    let r = Response::new(200, "body text".to_string());
    assert_eq!(r.text(), "body text");
}

#[test]
fn http_client_gathers_headers() {
    let c = HttpClient::new().with_header("Accept", "application/json").with_bearer_token(
        "token-123",
    );
    assert_eq!(c.headers.len(), 2);
    assert_eq!(c.headers[0], ("Accept".to_string(), "application/json".to_string()));
    assert_eq!(
        c.headers[1],
        ("Authorization".to_string(), "Bearer token-123".to_string())
    );
}

#[test]
fn ws_message_accessors() {
    let t = WsMessage::Text("hi".to_string());
    assert!(t.is_text());
    assert!(!t.is_binary());
    assert_eq!(t.as_text(), Some("hi"));
    assert_eq!(t.as_binary(), None);
    let b = WsMessage::Binary(vec![1, 2]);
    assert!(b.is_binary());
    assert_eq!(b.as_binary(), Some(&[1u8, 2][..]));
    assert_eq!(b.as_text(), None);
    assert!(!WsMessage::Close.is_text());
}

#[test]
fn serial_builder_gathers_settings() {
    let b = SerialPortBuilder::new();
    assert_eq!(b.baud_rate, 115200);
    assert_eq!(b.data_bits, DataBits::Eight);
    assert_eq!(b.stop_bits, StopBits::One);
    assert_eq!(b.parity, Parity::Off);
    assert!(b.port.is_none());
    let b = b.port("/dev/ttyUSB0").baud_rate(9600).data_bits(DataBits::Seven).stop_bits(
        StopBits::Two,
    ).parity(Parity::Even);
    assert_eq!(b.port.as_deref(), Some("/dev/ttyUSB0"));
    assert_eq!(b.baud_rate, 9600);
    assert_eq!(b.data_bits, DataBits::Seven);
    assert_eq!(b.stop_bits, StopBits::Two);
    assert_eq!(b.parity, Parity::Even);
}

#[test]
fn spinner_styles_have_frames() {
    assert_eq!(SpinnerStyle::Line.tick_chars(), "-\\|/");
    assert_eq!(SpinnerStyle::Circle.tick_chars(), "◐◓◑◒");
    assert!(!SpinnerStyle::Dots.tick_chars().is_empty());
}

#[test]
fn config_reports_debug() {
    assert!(Config { debug: true }.is_debug());
    assert!(!Config { debug: false }.is_debug());
}

#[test]
fn find_target_path_returns_first_match() {
    let mappings = [("app", "/usr/bin/app"), ("helper", "/usr/bin/helper"), ("app", "/opt/app")];
    assert_eq!(find_target_path("app", &mappings), Some("/usr/bin/app"));
    assert_eq!(find_target_path("helper", &mappings), Some("/usr/bin/helper"));
    assert_eq!(find_target_path("missing", &mappings), None);
}

#[test]
fn humanize_bytes_picks_units() {
    assert_eq!(humanize_bytes(0), "0 B");
    assert_eq!(humanize_bytes(1023), "1023 B");
    assert_eq!(humanize_bytes(1024), "1.00 KB");
    assert_eq!(humanize_bytes(1536), "1.50 KB");
    assert_eq!(humanize_bytes(10 * 1024 * 1024), "10.00 MB");
    assert_eq!(humanize_bytes(5 * 1024 * 1024 * 1024 + 512 * 1024 * 1024), "5.50 GB");
    assert_eq!(humanize_bytes(3 * 1024 * 1024 * 1024 * 1024), "3.00 TB");
    // Rounding half up on the second decimal.
    assert_eq!(humanize_bytes(1024 + 5), "1.00 KB");
    assert_eq!(humanize_bytes(1024 + 6), "1.01 KB");
}

#[test]
fn humanize_duration_picks_units() {
    assert_eq!(humanize_duration(59), "59秒");
    assert_eq!(humanize_duration(61), "1分钟1秒");
    assert_eq!(humanize_duration(3 * 3600 + 5 * 60), "3小时5分钟");
    assert_eq!(humanize_duration(2 * 86400 + 3600), "2天1小时0分钟");
}

#[test]
fn disk_and_network_renderings() {
    let d = DiskInfo {
        name: "root".to_string(),
        mount_point: "/".to_string(),
        file_system: "ext4".to_string(),
        total: 100 * 1024 * 1024 * 1024,
        available: 25 * 1024 * 1024 * 1024,
        is_removable: false,
    };
    assert_eq!(d.used(), 75 * 1024 * 1024 * 1024);
    assert_eq!(d.total_human(), "100.00 GB");
    assert_eq!(d.used_human(), "75.00 GB");
    assert_eq!(d.available_human(), "25.00 GB");

    let n = NetworkInfo {
        name: "eth0".to_string(),
        received: 2 * 1024 * 1024,
        transmitted: 1024,
        packets_received: 10,
        packets_transmitted: 5,
    };
    assert_eq!(n.received_human(), "2.00 MB");
    assert_eq!(n.transmitted_human(), "1.00 KB");
}

#[test]
fn system_snapshot_is_consistent() {
    let mut info = SystemInfo::new();
    assert_eq!(info.cpu_count(), info.cpu_count_v);
    assert_eq!(info.memory_total(), info.memory_total_v);
    assert_eq!(info.disk_count(), info.disks_v.len());
    assert_eq!(info.network_count(), info.networks_v.len());
    let basic = info.system_info();
    assert_eq!(basic.hostname, info.hostname());
    let disks_before = info.disk_count();
    info.refresh_memory();
    assert_eq!(info.disk_count(), disks_before, "memory refresh keeps the disks");
    let light = SystemInfo::new_light();
    assert_eq!(light.disk_count(), 0);
    assert_eq!(light.network_count(), 0);
}
