//! File-system paths of the application, composed as `PathBuf::push` joins a
//! relative name onto a directory.
use vstd::prelude::*;
use crate::text::{chars_of, string_of, owned, to_lowercase, lowercase, contains, contains_seq, ends_with, is_suffix_of};
use crate::json::push_text;

verus! {

/// `c` separates path components where `sep` is the primary separator.
pub open spec fn is_separator(c: char, sep: char) -> bool {
    c == '/' || c == sep
}

/// `dir` is a bare Windows drive such as `C:`: with `\` as the primary
/// separator, an ASCII letter followed by a colon and nothing else.
pub open spec fn is_bare_drive(dir: Seq<char>, sep: char) -> bool {
    sep == '\\' && dir.len() == 2 && (('a' <= dir[0] && dir[0] <= 'z') || ('A' <= dir[0] && dir[0] <= 'Z'))
        && dir[1] == ':'
}

/// `name` joined onto `dir`: a separator is put between them unless `dir`
/// is empty, already ends in one, or is a bare Windows drive (`C:` and `x`
/// give `C:x`, a path relative to that drive's current directory).
pub open spec fn joined(dir: Seq<char>, name: Seq<char>, sep: char) -> Seq<char> {
    if dir.len() == 0 || is_separator(dir.last(), sep) || is_bare_drive(dir, sep) {
        dir + name
    } else {
        dir + seq![sep] + name
    }
}

/// `name` joined onto `dir` with the primary separator `sep`.
pub fn join_path(dir: &str, name: &str, sep: char) -> (res: String)
    ensures
        res@ == joined(dir@, name@, sep),
{
    let d = chars_of(dir);
    let mut out = crate::text::copy_chars(&d);
    let n = d.len();
    let bare_drive = sep == '\\' && n == 2 && (('a' <= d[0] && d[0] <= 'z') || ('A' <= d[0] && d[0] <= 'Z'))
        && d[1] == ':';
    if n > 0 && !(d[n - 1] == '/' || d[n - 1] == sep) && !bare_drive {
        out.push(sep);
    }
    push_text(&mut out, name);
    string_of(&out)
}

/// The application directory inside the user's data directory.
pub fn app_dir_in(data_dir: &str, sep: char) -> (res: String)
    ensures
        res@ == joined(data_dir@, "ollama-lite"@, sep),
{
    join_path(data_dir, "ollama-lite", sep)
}

/// Where downloaded models are kept, inside the application directory.
pub fn models_dir_in(app_dir: &str, sep: char) -> (res: String)
    ensures
        res@ == joined(app_dir@, "models"@, sep),
{
    join_path(app_dir, "models", sep)
}

/// Where the engine binaries are kept, inside the application directory.
pub fn bin_dir_in(app_dir: &str, sep: char) -> (res: String)
    ensures
        res@ == joined(app_dir@, "bin"@, sep),
{
    join_path(app_dir, "bin", sep)
}

/// Where the command-line launchers are kept, inside the user's data directory.
pub fn cli_dir_in(data_dir: &str, sep: char) -> (res: String)
    ensures
        res@ == joined(joined(data_dir@, "ollama-lite"@, sep), "cli"@, sep),
{
    let app = join_path(data_dir, "ollama-lite", sep);
    join_path(app.as_str(), "cli", sep)
}

/// The Windows batch launcher `ollama.cmd`.
pub fn get_ollama_cmd_path(cli_dir: &str, sep: char) -> (res: String)
    ensures
        res@ == joined(cli_dir@, "ollama.cmd"@, sep),
{
    join_path(cli_dir, "ollama.cmd", sep)
}

/// The PowerShell command-line client `ollama.ps1`.
pub fn get_ollama_ps1_path(cli_dir: &str, sep: char) -> (res: String)
    ensures
        res@ == joined(cli_dir@, "ollama.ps1"@, sep),
{
    join_path(cli_dir, "ollama.ps1", sep)
}

/// The Windows batch alias `ollama-lite.cmd`.
pub fn get_ollama_lite_cmd_path(cli_dir: &str, sep: char) -> (res: String)
    ensures
        res@ == joined(cli_dir@, "ollama-lite.cmd"@, sep),
{
    join_path(cli_dir, "ollama-lite.cmd", sep)
}

/// The POSIX shell client `ollama`.
pub fn get_ollama_sh_path(cli_dir: &str, sep: char) -> (res: String)
    ensures
        res@ == joined(cli_dir@, "ollama"@, sep),
{
    join_path(cli_dir, "ollama", sep)
}

/// The POSIX shell alias `ollama-lite`.
pub fn get_ollama_lite_sh_path(cli_dir: &str, sep: char) -> (res: String)
    ensures
        res@ == joined(cli_dir@, "ollama-lite"@, sep),
{
    join_path(cli_dir, "ollama-lite", sep)
}

/// The batch launcher, under its older name.
pub fn get_cli_bat_path(cli_dir: &str, sep: char) -> (res: String)
    ensures
        res@ == joined(cli_dir@, "ollama.cmd"@, sep),
{
    get_ollama_cmd_path(cli_dir, sep)
}

/// The user `Path` with the launcher directory added, or `None` when it is
/// already there (compared without regard to case): appended after a `;`
/// unless the value is empty or already ends in one.
pub open spec fn path_with_dir_spec(current: Seq<char>, dir: Seq<char>) -> Option<Seq<char>> {
    if contains_seq(lowercase(current), lowercase(dir)) {
        None
    } else if is_suffix_of(";"@, current) || current.len() == 0 {
        Some(current + dir)
    } else {
        Some(current + ";"@ + dir)
    }
}

/// The user `Path` value with `dir` added, or `None` when it already holds it.
pub fn path_with_dir(current: &str, dir: &str) -> (res: Option<String>)
    ensures
        match res {
            Some(p) => path_with_dir_spec(current@, dir@) == Some(p@),
            None => path_with_dir_spec(current@, dir@) is None,
        },
{
    let c = chars_of(current);
    if contains(&to_lowercase(&c), &to_lowercase(&chars_of(dir))) {
        return None;
    }
    let mut out = crate::text::copy_chars(&c);
    if !(ends_with(&c, &chars_of(";")) || c.len() == 0) {
        push_text(&mut out, ";");
    }
    push_text(&mut out, dir);
    Some(string_of(&out))
}

/// The engine binaries looked for, in order, inside the binary directory.
pub fn engine_binary_candidates(bin_dir: &str, sep: char) -> (res: Vec<String>)
    ensures
        res@.len() == 3,
        res@[0]@ == joined(bin_dir@, "llama-server.exe"@, sep),
        res@[1]@ == joined(bin_dir@, "llama-server-x86_64-pc-windows-msvc.exe"@, sep),
        res@[2]@ == joined(joined(bin_dir@, "resources"@, sep), "llama-server.exe"@, sep),
{
    let mut out: Vec<String> = Vec::new();
    out.push(join_path(bin_dir, "llama-server.exe", sep));
    out.push(join_path(bin_dir, "llama-server-x86_64-pc-windows-msvc.exe", sep));
    let resources = join_path(bin_dir, "resources", sep);
    out.push(join_path(resources.as_str(), "llama-server.exe", sep));
    out
}

/// Whether the engine is installed, where, and which build.
pub struct EngineInfo {
    pub is_installed: bool,
    pub exe_path: Option<String>,
    pub version: Option<String>,
}

/// What is reported of the engine found at `exe_path`, if any.
pub fn engine_info(exe_path: Option<String>) -> (res: EngineInfo)
    ensures
        res.is_installed == exe_path is Some,
        res.exe_path == exe_path,
        exe_path is Some ==> (res.version matches Some(v) && v@ == "llama.cpp release build"@),
        exe_path is None ==> res.version is None,
{
    match exe_path {
        Some(p) => EngineInfo {
            is_installed: true,
            exe_path: Some(p),
            version: Some(owned("llama.cpp release build")),
        },
        None => EngineInfo { is_installed: false, exe_path: None, version: None },
    }
}

} // verus!
