use ollama_lite::autostart::{linux_desktop_entry, macos_launch_agent, windows_run_command};

#[test]
fn windows_command_quotes_the_executable() {
    assert_eq!(
        windows_run_command("C:\\Program Files\\Ollama Lite\\app.exe"),
        "\"C:\\Program Files\\Ollama Lite\\app.exe\" --autostart"
    );
    assert_eq!(windows_run_command(""), "\"\" --autostart");
}

#[test]
fn linux_entry_launches_with_autostart_flag() {
    let entry = linux_desktop_entry("/usr/bin/ollama-lite");
    assert_eq!(
        entry,
        "[Desktop Entry]\nType=Application\nName=Ollama Lite\nComment=Ollama Lite Local LLM\nExec=\"/usr/bin/ollama-lite\" --autostart\nTerminal=false\nStartupNotify=false\n"
    );
}

#[test]
fn macos_agent_runs_at_load() {
    let plist = macos_launch_agent("/Applications/Ollama Lite.app/Contents/MacOS/ollama-lite");
    assert!(plist.starts_with("<?xml version=\"1.0\" encoding=\"UTF-8\"?>\n"));
    assert!(plist.contains("<string>/Applications/Ollama Lite.app/Contents/MacOS/ollama-lite</string>\n        <string>--autostart</string>"));
    assert!(plist.contains("<key>RunAtLoad</key>\n    <true/>"));
    assert!(plist.ends_with("</dict>\n</plist>\n"));
}
