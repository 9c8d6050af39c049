use zeroclaw::service::artifacts::{
    build_launchd_plist, build_systemd_unit, xml_escape, ServiceDescriptor,
};
use zeroclaw::service::supervisor::build_windows_supervisor_wrapper;
use zeroclaw::service::windows::{windows_run_reg_value, windows_task_name};

#[test]
fn xml_escape_escapes_reserved_chars() {
    let escaped = xml_escape("<&>\"' and text");
    assert_eq!(escaped, "&lt;&amp;&gt;&quot;&apos; and text");
}

#[test]
fn xml_escape_does_not_escape_twice() {
    assert_eq!(xml_escape("&amp;"), "&amp;amp;");
    assert_eq!(xml_escape("&lt;"), "&amp;lt;");
    assert_eq!(xml_escape("a&&b"), "a&amp;&amp;b");
}

#[test]
fn xml_escape_keeps_other_text() {
    assert_eq!(xml_escape(""), "");
    assert_eq!(xml_escape("/Users/a b/日本語.log"), "/Users/a b/日本語.log");
}

#[test]
fn windows_task_name_is_constant() {
    assert_eq!(windows_task_name(), "ZeroClaw Daemon");
}

#[test]
fn windows_run_value_is_constant() {
    assert_eq!(windows_run_reg_value(), "ZeroClawDaemon");
}

#[test]
fn windows_supervisor_wrapper_has_restart_loop_and_state_reset() {
    let wrapper = build_windows_supervisor_wrapper(
        "C:\\bin\\zeroclaw.exe",
        "C:\\data\\daemon_state.json",
        "C:\\logs\\daemon.stdout.log",
        "C:\\logs\\daemon.stderr.log",
        "C:\\logs\\daemon.supervisor.log",
    );
    assert!(wrapper.contains(":run_loop"));
    assert!(wrapper.contains("goto run_loop"));
    assert!(wrapper.contains("daemon exited with code"));
    assert!(wrapper.contains("del /f /q"));
    assert!(wrapper.contains("timeout /t 5 /nobreak"));
}

#[test]
fn windows_supervisor_wrapper_is_the_whole_script() {
    let wrapper = build_windows_supervisor_wrapper(
        "C:\\bin\\zeroclaw.exe",
        "C:\\data\\daemon_state.json",
        "C:\\logs\\daemon.stdout.log",
        "C:\\logs\\daemon.stderr.log",
        "C:\\logs\\daemon.supervisor.log",
    );
    let expected = "@echo off\r\n\
setlocal EnableExtensions EnableDelayedExpansion\r\n\
set \"ZEROCLAW_EXE=C:\\bin\\zeroclaw.exe\"\r\n\
set \"ZEROCLAW_STATE=C:\\data\\daemon_state.json\"\r\n\
set \"ZEROCLAW_STDOUT=C:\\logs\\daemon.stdout.log\"\r\n\
set \"ZEROCLAW_STDERR=C:\\logs\\daemon.stderr.log\"\r\n\
set \"ZEROCLAW_SUPERVISOR=C:\\logs\\daemon.supervisor.log\"\r\n\
set /a RESTART_COUNT=0\r\n\
:run_loop\r\n\
set /a RESTART_COUNT+=1\r\n\
echo [%date% %time%] starting daemon attempt !RESTART_COUNT!>>\"!ZEROCLAW_SUPERVISOR!\"\r\n\
if exist \"!ZEROCLAW_STATE!\" del /f /q \"!ZEROCLAW_STATE!\" >nul 2>&1\r\n\
\"!ZEROCLAW_EXE!\" daemon >>\"!ZEROCLAW_STDOUT!\" 2>>\"!ZEROCLAW_STDERR!\"\r\n\
set \"EXIT_CODE=!errorlevel!\"\r\n\
echo [%date% %time%] daemon exited with code !EXIT_CODE!; restarting in 5s>>\"!ZEROCLAW_SUPERVISOR!\"\r\n\
timeout /t 5 /nobreak >nul\r\n\
goto run_loop\r\n";
    assert_eq!(wrapper, expected);
}

#[test]
fn windows_supervisor_deletes_state_before_each_run_and_logs_after_it() {
    let wrapper = build_windows_supervisor_wrapper("e", "s", "o", "r", "l");
    let lines: Vec<&str> = wrapper.split("\r\n").collect();
    let at = |needle: &str| lines.iter().position(|line| line.contains(needle)).unwrap();
    let label = at(":run_loop");
    let delete = at("del /f /q \"!ZEROCLAW_STATE!\"");
    let run = at("\"!ZEROCLAW_EXE!\" daemon");
    let exit = at("daemon exited with code !EXIT_CODE!");
    let wait = at("timeout /t 5 /nobreak");
    let jump = at("goto run_loop");
    assert!(label < delete && delete < run && run < exit && exit < wait && wait < jump);
    assert_eq!(lines[jump + 1], "");
    assert_eq!(lines.len(), jump + 2);
    assert_eq!(lines[3], "set \"ZEROCLAW_STATE=s\"");
}

#[test]
fn launchd_plist_holds_every_part_escaped() {
    let descriptor = ServiceDescriptor::new("/Applications/Zero & Claw/zeroclaw");
    assert_eq!(descriptor.label, "com.zeroclaw.daemon");
    assert_eq!(descriptor.start_arg, "daemon");
    let plist = build_launchd_plist(&descriptor, "/tmp/<out>.log", "/tmp/'err'.log");
    let expected = "<?xml version=\"1.0\" encoding=\"UTF-8\"?>\n\
<!DOCTYPE plist PUBLIC \"-//Apple//DTD PLIST 1.0//EN\" \"http://www.apple.com/DTDs/PropertyList-1.0.dtd\">\n\
<plist version=\"1.0\">\n\
<dict>\n\
\x20 <key>Label</key>\n\
\x20 <string>com.zeroclaw.daemon</string>\n\
\x20 <key>ProgramArguments</key>\n\
\x20 <array>\n\
\x20   <string>/Applications/Zero &amp; Claw/zeroclaw</string>\n\
\x20   <string>daemon</string>\n\
\x20 </array>\n\
\x20 <key>RunAtLoad</key>\n\
\x20 <true/>\n\
\x20 <key>KeepAlive</key>\n\
\x20 <true/>\n\
\x20 <key>StandardOutPath</key>\n\
\x20 <string>/tmp/&lt;out&gt;.log</string>\n\
\x20 <key>StandardErrorPath</key>\n\
\x20 <string>/tmp/&apos;err&apos;.log</string>\n\
</dict>\n\
</plist>\n";
    assert_eq!(plist, expected);
}

#[test]
fn systemd_unit_restarts_always_after_three_seconds() {
    let unit = build_systemd_unit(&ServiceDescriptor::new("/usr/local/bin/zeroclaw"));
    assert_eq!(
        unit,
        "[Unit]\nDescription=ZeroClaw daemon\nAfter=network.target\n\n[Service]\nType=simple\nExecStart=/usr/local/bin/zeroclaw daemon\nRestart=always\nRestartSec=3\n\n[Install]\nWantedBy=default.target\n"
    );
}
