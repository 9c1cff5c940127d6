//! What is written to start the application at login on each platform.
use vstd::prelude::*;
use crate::text::{chars_of, string_of};
use crate::json::push_text;

verus! {

/// The command registered under the Windows `Run` key for `exe_path`.
pub fn windows_run_command(exe_path: &str) -> (res: String)
    ensures
        res@ == "\""@ + exe_path@ + "\" --autostart"@,
{
    let mut out = chars_of("\"");
    push_text(&mut out, exe_path);
    push_text(&mut out, "\" --autostart");
    string_of(&out)
}

/// The XDG autostart entry that launches `exe_path`.
pub fn linux_desktop_entry(exe_path: &str) -> (res: String)
    ensures
        res@ == "[Desktop Entry]\nType=Application\nName=Ollama Lite\nComment=Ollama Lite Local LLM\nExec=\""@ + exe_path@
            + "\" --autostart\nTerminal=false\nStartupNotify=false\n"@,
{
    let mut out = chars_of(
        "[Desktop Entry]\nType=Application\nName=Ollama Lite\nComment=Ollama Lite Local LLM\nExec=\"",
    );
    push_text(&mut out, exe_path);
    push_text(&mut out, "\" --autostart\nTerminal=false\nStartupNotify=false\n");
    string_of(&out)
}

/// The macOS launch agent property list that runs `exe_path` at load.
pub fn macos_launch_agent(exe_path: &str) -> (res: String)
    ensures
        res@ == "<?xml version=\"1.0\" encoding=\"UTF-8\"?>\n<!DOCTYPE plist PUBLIC \"-//Apple//DTD PLIST 1.0//EN\" \"http://www.apple.com/DTDs/PropertyList-1.0.dtd\">\n<plist version=\"1.0\">\n<dict>\n    <key>Label</key>\n    <string>com.anumhosen.ollamalite</string>\n    <key>ProgramArguments</key>\n    <array>\n        <string>"@
            + exe_path@
            + "</string>\n        <string>--autostart</string>\n    </array>\n    <key>RunAtLoad</key>\n    <true/>\n</dict>\n</plist>\n"@,
{
    let mut out = chars_of(
        "<?xml version=\"1.0\" encoding=\"UTF-8\"?>\n<!DOCTYPE plist PUBLIC \"-//Apple//DTD PLIST 1.0//EN\" \"http://www.apple.com/DTDs/PropertyList-1.0.dtd\">\n<plist version=\"1.0\">\n<dict>\n    <key>Label</key>\n    <string>com.anumhosen.ollamalite</string>\n    <key>ProgramArguments</key>\n    <array>\n        <string>",
    );
    push_text(&mut out, exe_path);
    push_text(
        &mut out,
        "</string>\n        <string>--autostart</string>\n    </array>\n    <key>RunAtLoad</key>\n    <true/>\n</dict>\n</plist>\n",
    );
    string_of(&out)
}

} // verus!
