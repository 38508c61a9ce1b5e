//! Starting with Windows: the names used, the scheduled-task definition, and
//! the commands and registry value that register the program.
use vstd::prelude::*;
use crate::text::{
    append_str, chars_of, contains_chars, copy_str, replace_chars, spec_contains, spec_replace,
    spec_str_to_lowercase, str_to_lowercase, string_of,
};

verus! {

/// The name of the scheduled task that starts the program at logon.
pub fn task_name() -> (r: &'static str)
    ensures
        r@ == "TommyMemoryCleanerAutoStart"@,
{
    "TommyMemoryCleanerAutoStart"
}

/// The name of the program's startup entry in the registry.
pub fn app_name() -> (r: &'static str)
    ensures
        r@ == "Tommy Memory Cleaner"@,
{
    "Tommy Memory Cleaner"
}

/// Text made safe inside XML content: `&`, `<`, `>`, `"` and `'` written as
/// entities (the ampersand first, so entities are not escaped twice).
pub open spec fn xml_escaped(s: Seq<char>) -> Seq<char> {
    spec_replace(
        spec_replace(
            spec_replace(
                spec_replace(spec_replace(s, seq!['&'], "&amp;"@), seq!['<'], "&lt;"@),
                seq!['>'],
                "&gt;"@,
            ),
            seq!['"'],
            "&quot;"@,
        ),
        seq!['\''],
        "&apos;"@,
    )
}

fn replace_one(v: &Vec<char>, c: char, by: &str) -> (r: Vec<char>)
    ensures
        r@ == spec_replace(v@, seq![c], by@),
{
    let from: Vec<char> = vec![c];
    proof {
        assert(from@ =~= seq![c]);
    }
    replace_chars(v, &from, &chars_of(by))
}

/// Escapes text for XML content (see `xml_escaped`).
pub fn escape_xml(s: &str) -> (r: String)
    ensures
        r@ == xml_escaped(s@),
{
    let v = chars_of(s);
    let v = replace_one(&v, '&', "&amp;");
    let v = replace_one(&v, '<', "&lt;");
    let v = replace_one(&v, '>', "&gt;");
    let v = replace_one(&v, '"', "&quot;");
    let v = replace_one(&v, '\'', "&apos;");
    string_of(&v)
}

/// The task definition up to the command.
pub open spec fn task_xml_head() -> Seq<char> {
    "<?xml version=\"1.0\" encoding=\"UTF-16\"?>\n<Task version=\"1.2\" xmlns=\"http://schemas.microsoft.com/windows/2004/02/mit/task\">\n  <RegistrationInfo>\n    <Date>2025-01-01T00:00:00</Date>\n    <Author>Tommy Memory Cleaner</Author>\n    <Description>Tommy Memory Cleaner - Auto Start on Login</Description>\n  </RegistrationInfo>\n  <Triggers>\n    <LogonTrigger>\n      <Enabled>true</Enabled>\n      <Delay>PT30S</Delay>\n    </LogonTrigger>\n  </Triggers>\n  <Principals>\n    <Principal id=\"Author\">\n      <LogonType>InteractiveToken</LogonType>\n      <RunLevel>LeastPrivilege</RunLevel>\n    </Principal>\n  </Principals>\n  <Settings>\n    <MultipleInstancesPolicy>IgnoreNew</MultipleInstancesPolicy>\n    <DisallowStartIfOnBatteries>false</DisallowStartIfOnBatteries>\n    <StopIfGoingOnBatteries>false</StopIfGoingOnBatteries>\n    <AllowHardTerminate>true</AllowHardTerminate>\n    <StartWhenAvailable>true</StartWhenAvailable>\n    <RunOnlyIfNetworkAvailable>false</RunOnlyIfNetworkAvailable>\n    <IdleSettings>\n      <StopOnIdleEnd>false</StopOnIdleEnd>\n      <RestartOnIdle>false</RestartOnIdle>\n    </IdleSettings>\n    <AllowStartOnDemand>true</AllowStartOnDemand>\n    <Enabled>true</Enabled>\n    <Hidden>false</Hidden>\n    <RunOnlyIfIdle>false</RunOnlyIfIdle>\n    <WakeToRun>false</WakeToRun>\n    <ExecutionTimeLimit>PT0S</ExecutionTimeLimit>\n    <Priority>7</Priority>\n  </Settings>\n  <Actions Context=\"Author\">\n    <Exec>\n      <Command>\""@
}

/// The task definition between the command and the working directory.
pub open spec fn task_xml_middle() -> Seq<char> {
    "\"</Command>\n      <WorkingDirectory>"@
}

/// The task definition after the working directory.
pub open spec fn task_xml_tail() -> Seq<char> {
    "</WorkingDirectory>\n    </Exec>\n  </Actions>\n</Task>"@
}

/// The scheduled-task definition that starts the program 30 seconds after
/// logon, with the least privileges: the program path with its backslashes
/// doubled, then escaped, is the command; the escaped directory is the
/// working directory.
pub open spec fn task_xml_text(exe_path: Seq<char>, exe_dir: Seq<char>) -> Seq<char> {
    task_xml_head() + xml_escaped(spec_replace(exe_path, seq!['\\'], seq!['\\', '\\']))
        + task_xml_middle() + xml_escaped(exe_dir) + task_xml_tail()
}

/// Builds the scheduled-task definition (see `task_xml_text`).
pub fn startup_task_xml(exe_path: &str, exe_dir: &str) -> (r: String)
    ensures
        r@ == task_xml_text(exe_path@, exe_dir@),
{
    let doubled = string_of(&replace_one(&chars_of(exe_path), '\\', "\\\\"));
    proof {
        reveal_strlit("\\\\");
        assert("\\\\"@ =~= seq!['\\', '\\']);
    }
    let mut r = copy_str("<?xml version=\"1.0\" encoding=\"UTF-16\"?>\n<Task version=\"1.2\" xmlns=\"http://schemas.microsoft.com/windows/2004/02/mit/task\">\n  <RegistrationInfo>\n    <Date>2025-01-01T00:00:00</Date>\n    <Author>Tommy Memory Cleaner</Author>\n    <Description>Tommy Memory Cleaner - Auto Start on Login</Description>\n  </RegistrationInfo>\n  <Triggers>\n    <LogonTrigger>\n      <Enabled>true</Enabled>\n      <Delay>PT30S</Delay>\n    </LogonTrigger>\n  </Triggers>\n  <Principals>\n    <Principal id=\"Author\">\n      <LogonType>InteractiveToken</LogonType>\n      <RunLevel>LeastPrivilege</RunLevel>\n    </Principal>\n  </Principals>\n  <Settings>\n    <MultipleInstancesPolicy>IgnoreNew</MultipleInstancesPolicy>\n    <DisallowStartIfOnBatteries>false</DisallowStartIfOnBatteries>\n    <StopIfGoingOnBatteries>false</StopIfGoingOnBatteries>\n    <AllowHardTerminate>true</AllowHardTerminate>\n    <StartWhenAvailable>true</StartWhenAvailable>\n    <RunOnlyIfNetworkAvailable>false</RunOnlyIfNetworkAvailable>\n    <IdleSettings>\n      <StopOnIdleEnd>false</StopOnIdleEnd>\n      <RestartOnIdle>false</RestartOnIdle>\n    </IdleSettings>\n    <AllowStartOnDemand>true</AllowStartOnDemand>\n    <Enabled>true</Enabled>\n    <Hidden>false</Hidden>\n    <RunOnlyIfIdle>false</RunOnlyIfIdle>\n    <WakeToRun>false</WakeToRun>\n    <ExecutionTimeLimit>PT0S</ExecutionTimeLimit>\n    <Priority>7</Priority>\n  </Settings>\n  <Actions Context=\"Author\">\n    <Exec>\n      <Command>\"");
    append_str(&mut r, escape_xml(doubled.as_str()).as_str());
    append_str(&mut r, "\"</Command>\n      <WorkingDirectory>");
    append_str(&mut r, escape_xml(exe_dir).as_str());
    append_str(&mut r, "</WorkingDirectory>\n    </Exec>\n  </Actions>\n</Task>");
    r
}

/// The views of a list of arguments.
pub open spec fn arg_texts(v: Seq<String>) -> Seq<Seq<char>> {
    v.map_values(|a: String| a@)
}

/// `schtasks` arguments that register the task from its definition file.
pub fn create_task_args(xml_path: &str) -> (r: Vec<String>)
    ensures
        arg_texts(r@) == seq!["/Create"@, "/F"@, "/TN"@, "TommyMemoryCleanerAutoStart"@, "/XML"@, xml_path@],
{
    let mut r: Vec<String> = Vec::new();
    r.push(copy_str("/Create"));
    r.push(copy_str("/F"));
    r.push(copy_str("/TN"));
    r.push(copy_str(task_name()));
    r.push(copy_str("/XML"));
    r.push(copy_str(xml_path));
    proof {
        assert(arg_texts(r@) =~= seq!["/Create"@, "/F"@, "/TN"@, "TommyMemoryCleanerAutoStart"@, "/XML"@, xml_path@]);
    }
    r
}

/// `schtasks` arguments of the simpler registration used when the
/// definition file is refused: at logon, highest privileges, 30 s delay.
pub fn fallback_task_args(exe_path: &str) -> (r: Vec<String>)
    ensures
        arg_texts(r@) == seq![
            "/Create"@, "/F"@, "/SC"@, "ONLOGON"@, "/TN"@, "TommyMemoryCleanerAutoStart"@, "/TR"@,
            seq!['"'] + exe_path@ + seq!['"'], "/RL"@, "HIGHEST"@, "/DELAY"@, "0000:30"@,
        ],
{
    let mut r: Vec<String> = Vec::new();
    r.push(copy_str("/Create"));
    r.push(copy_str("/F"));
    r.push(copy_str("/SC"));
    r.push(copy_str("ONLOGON"));
    r.push(copy_str("/TN"));
    r.push(copy_str(task_name()));
    r.push(copy_str("/TR"));
    r.push(quoted_path(exe_path));
    r.push(copy_str("/RL"));
    r.push(copy_str("HIGHEST"));
    r.push(copy_str("/DELAY"));
    r.push(copy_str("0000:30"));
    proof {
        assert(arg_texts(r@) =~= seq![
            "/Create"@, "/F"@, "/SC"@, "ONLOGON"@, "/TN"@, "TommyMemoryCleanerAutoStart"@, "/TR"@,
            seq!['"'] + exe_path@ + seq!['"'], "/RL"@, "HIGHEST"@, "/DELAY"@, "0000:30"@,
        ]);
    }
    r
}

/// `schtasks` arguments that remove the task.
pub fn delete_task_args() -> (r: Vec<String>)
    ensures
        arg_texts(r@) == seq!["/Delete"@, "/F"@, "/TN"@, "TommyMemoryCleanerAutoStart"@],
{
    let mut r: Vec<String> = Vec::new();
    r.push(copy_str("/Delete"));
    r.push(copy_str("/F"));
    r.push(copy_str("/TN"));
    r.push(copy_str(task_name()));
    proof {
        assert(arg_texts(r@) =~= seq!["/Delete"@, "/F"@, "/TN"@, "TommyMemoryCleanerAutoStart"@]);
    }
    r
}

/// A path in double quotes: the form of the registry startup value and of
/// the task command.
pub fn quoted_path(path: &str) -> (r: String)
    ensures
        r@ == seq!['"'] + path@ + seq!['"'],
{
    let mut r = copy_str("\"");
    append_str(&mut r, path);
    append_str(&mut r, "\"");
    proof {
        reveal_strlit("\"");
    }
    r
}

/// Removing the registry value failed for a reason other than its absence
/// (error 2, "file not found").
pub fn registry_delete_failed(code: u32) -> (r: bool)
    ensures
        r == (code != 0 && code != 2),
{
    code != 0 && code != 2
}

/// How the program is started with Windows.
#[derive(Clone, Copy, Debug, PartialEq, Eq, Structural)]
pub enum StartupMechanism {
    /// A shortcut in the user's Startup folder (portable copy).
    StartupShortcut,
    /// The registry Run value, with a scheduled task as fallback (installed copy).
    RegistryOrTask,
}

/// The startup mechanism of a portable or an installed copy.
pub fn startup_mechanism(is_portable: bool) -> (r: StartupMechanism)
    ensures
        r == (if is_portable {
            StartupMechanism::StartupShortcut
        } else {
            StartupMechanism::RegistryOrTask
        }),
{
    if is_portable {
        StartupMechanism::StartupShortcut
    } else {
        StartupMechanism::RegistryOrTask
    }
}

/// The name of the scheduled task that restarts the program elevated.
pub fn elevated_task_name() -> (r: &'static str)
    ensures
        r@ == "TommyMemoryCleanerElevated"@,
{
    "TommyMemoryCleanerElevated"
}

/// `schtasks` arguments of the elevated task: run on demand only (a single
/// start time in the past), with the highest privileges, interactively.
pub fn create_elevated_task_args(exe_path: &str) -> (r: Vec<String>)
    ensures
        arg_texts(r@) == seq![
            "/create"@, "/tn"@, "TommyMemoryCleanerElevated"@, "/tr"@, seq!['"'] + exe_path@
                + seq!['"'], "/sc"@, "once"@, "/st"@, "00:00"@, "/rl"@, "highest"@, "/f"@, "/it"@,
        ],
{
    let mut r: Vec<String> = Vec::new();
    r.push(copy_str("/create"));
    r.push(copy_str("/tn"));
    r.push(copy_str(elevated_task_name()));
    r.push(copy_str("/tr"));
    r.push(quoted_path(exe_path));
    r.push(copy_str("/sc"));
    r.push(copy_str("once"));
    r.push(copy_str("/st"));
    r.push(copy_str("00:00"));
    r.push(copy_str("/rl"));
    r.push(copy_str("highest"));
    r.push(copy_str("/f"));
    r.push(copy_str("/it"));
    proof {
        assert(arg_texts(r@) =~= seq![
            "/create"@, "/tn"@, "TommyMemoryCleanerElevated"@, "/tr"@, seq!['"'] + exe_path@
                + seq!['"'], "/sc"@, "once"@, "/st"@, "00:00"@, "/rl"@, "highest"@, "/f"@, "/it"@,
        ]);
    }
    r
}

/// `schtasks` arguments that start the elevated task.
pub fn run_elevated_task_args() -> (r: Vec<String>)
    ensures
        arg_texts(r@) == seq!["/run"@, "/tn"@, "TommyMemoryCleanerElevated"@],
{
    let mut r: Vec<String> = Vec::new();
    r.push(copy_str("/run"));
    r.push(copy_str("/tn"));
    r.push(copy_str(elevated_task_name()));
    proof {
        assert(arg_texts(r@) =~= seq!["/run"@, "/tn"@, "TommyMemoryCleanerElevated"@]);
    }
    r
}

/// `schtasks` arguments that remove the elevated task.
pub fn delete_elevated_task_args() -> (r: Vec<String>)
    ensures
        arg_texts(r@) == seq!["/delete"@, "/tn"@, "TommyMemoryCleanerElevated"@, "/f"@],
{
    let mut r: Vec<String> = Vec::new();
    r.push(copy_str("/delete"));
    r.push(copy_str("/tn"));
    r.push(copy_str(elevated_task_name()));
    r.push(copy_str("/f"));
    proof {
        assert(arg_texts(r@) =~= seq!["/delete"@, "/tn"@, "TommyMemoryCleanerElevated"@, "/f"@]);
    }
    r
}

/// `schtasks` arguments that print the elevated task's definition.
pub fn query_elevated_task_args() -> (r: Vec<String>)
    ensures
        arg_texts(r@) == seq!["/query"@, "/tn"@, "TommyMemoryCleanerElevated"@, "/xml"@],
{
    let mut r: Vec<String> = Vec::new();
    r.push(copy_str("/query"));
    r.push(copy_str("/tn"));
    r.push(copy_str(elevated_task_name()));
    r.push(copy_str("/xml"));
    proof {
        assert(arg_texts(r@) =~= seq!["/query"@, "/tn"@, "TommyMemoryCleanerElevated"@, "/xml"@]);
    }
    r
}

/// The elevated task starts this program: its definition, lower-cased,
/// holds the program's path, lower-cased.
pub fn task_definition_names_exe(definition: &str, exe_path: &str) -> (r: bool)
    ensures
        r == spec_contains(spec_str_to_lowercase(definition@), spec_str_to_lowercase(exe_path@)),
{
    let d = chars_of(str_to_lowercase(definition).as_str());
    let e = chars_of(str_to_lowercase(exe_path).as_str());
    contains_chars(&d, &e)
}

/// The answer to a request to start (or not) with Windows, once the
/// mechanism was set and the system asked again whether startup is on: a
/// failure is reported with advice; a startup asked for but not found is an
/// error; otherwise the setting to store is what the system reports.
pub open spec fn startup_answer(set_error: Option<Seq<char>>, enable: bool, is_enabled: bool) -> Result<bool, Seq<char>> {
    match set_error {
        Some(e) => Err("Failed to set startup: "@ + e + ". Try running as administrator."@),
        None => if enable && !is_enabled {
            Err("Failed to enable startup. Please add the app manually to Windows startup."@)
        } else {
            Ok(is_enabled)
        },
    }
}

/// The answer to a startup request (see `startup_answer`).
pub fn startup_request_outcome(set_result: Result<(), String>, enable: bool, is_enabled: bool) -> (r: Result<bool, String>)
    ensures
        match r {
            Ok(b) => startup_answer(
                match set_result { Ok(()) => None, Err(e) => Some(e@) },
                enable,
                is_enabled,
            ) == Ok::<bool, Seq<char>>(b),
            Err(m) => startup_answer(
                match set_result { Ok(()) => None, Err(e) => Some(e@) },
                enable,
                is_enabled,
            ) == Err::<bool, Seq<char>>(m@),
        },
{
    match set_result {
        Err(e) => {
            let mut m = copy_str("Failed to set startup: ");
            append_str(&mut m, e.as_str());
            append_str(&mut m, ". Try running as administrator.");
            Err(m)
        },
        Ok(()) => {
            if enable && !is_enabled {
                Err(copy_str("Failed to enable startup. Please add the app manually to Windows startup."))
            } else {
                Ok(is_enabled)
            }
        },
    }
}

} // verus!
