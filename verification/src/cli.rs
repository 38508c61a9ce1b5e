//! Console mode: what the command-line arguments ask for, and the lines the
//! console shows.
use vstd::prelude::*;
use crate::config::{profile_areas, Profile};
use crate::engine::{op_bit, op_key_text, AreaOp, OptimizeAreaResult};
use crate::memory::types::{
    Areas, COMBINED_PAGE_LIST_BIT, MODIFIED_FILE_CACHE_BIT, MODIFIED_PAGE_LIST_BIT,
    REGISTRY_CACHE_BIT, STANDBY_LIST_BIT, STANDBY_LIST_LOW_BIT, SYSTEM_FILE_CACHE_BIT,
    WORKING_SET_BIT,
};
use crate::notifications::profile_key;
use crate::os::OsVersion;
use crate::text::{
    append_str, chars_of, chars_eq, copy_str, decimal_string, decimal_text, matches_at, occurs_at, seq_join, str_eq, string_of,
    sub_vec,
};

verus! {

/// What the console was asked to do.
#[derive(Debug, Clone)]
pub enum ConsoleCommand {
    /// Print the help text.
    Help,
    /// An argument was not understood (exit status 1).
    UnknownArgument(String),
    /// `/Profile:` named no profile (exit status 1).
    InvalidProfile(String),
    /// Optimize these areas; `profile` is the profile that chose them.
    Run { areas: Areas, profile: Option<Profile> },
}

/// The arguments that ask for help.
pub open spec fn is_help_arg(a: Seq<char>) -> bool {
    a == "/?"@ || a == "/help"@ || a == "-h"@ || a == "--help"@
}

/// The prefix of a profile argument.
pub open spec fn profile_prefix() -> Seq<char> {
    "/Profile:"@
}

/// A `/Profile:<name>` argument.
pub open spec fn is_profile_arg(a: Seq<char>) -> bool {
    occurs_at(a, profile_prefix(), 0)
}

/// The area bit an argument selects, 0 for none.
pub open spec fn arg_bit(a: Seq<char>) -> u32 {
    if a == "/WorkingSet"@ {
        WORKING_SET_BIT
    } else if a == "/ModifiedPageList"@ {
        MODIFIED_PAGE_LIST_BIT
    } else if a == "/StandbyList"@ {
        STANDBY_LIST_BIT
    } else if a == "/StandbyListLow"@ {
        STANDBY_LIST_LOW_BIT
    } else if a == "/SystemFileCache"@ {
        SYSTEM_FILE_CACHE_BIT
    } else if a == "/CombinedPageList"@ {
        COMBINED_PAGE_LIST_BIT
    } else if a == "/ModifiedFileCache"@ {
        MODIFIED_FILE_CACHE_BIT
    } else if a == "/RegistryCache"@ {
        REGISTRY_CACHE_BIT
    } else {
        0
    }
}

/// An argument that neither asks for help nor stops the parse: a profile or an area.
pub open spec fn is_setting_arg(a: Seq<char>) -> bool {
    !is_help_arg(a) && (is_profile_arg(a) || arg_bit(a) != 0)
}

/// Parsing stops at argument `i`: it asks for help or is not understood, and
/// every argument before it is a setting.
pub open spec fn stops_at(args: Seq<Seq<char>>, i: int) -> bool {
    &&& 0 <= i < args.len()
    &&& !is_setting_arg(args[i])
    &&& forall|j: int| 0 <= j < i ==> is_setting_arg(#[trigger] args[j])
}

/// Every argument is a setting.
pub open spec fn all_settings(args: Seq<Seq<char>>) -> bool {
    forall|j: int| 0 <= j < args.len() ==> is_setting_arg(#[trigger] args[j])
}

/// The union of the area bits the arguments select.
pub open spec fn selected_bits(args: Seq<Seq<char>>) -> u32
    decreases args.len(),
{
    if args.len() == 0 {
        0
    } else {
        selected_bits(args.drop_last()) | arg_bit(args.last())
    }
}

/// The name given by the last profile argument, if any.
pub open spec fn last_profile(args: Seq<Seq<char>>) -> Option<Seq<char>>
    decreases args.len(),
{
    if args.len() == 0 {
        None
    } else if is_profile_arg(args.last()) {
        Some(args.last().skip(profile_prefix().len() as int))
    } else {
        last_profile(args.drop_last())
    }
}

/// The profile a name stands for.
pub open spec fn profile_named(name: Seq<char>) -> Option<Profile> {
    if name == "Normal"@ {
        Some(Profile::Normal)
    } else if name == "Balanced"@ {
        Some(Profile::Balanced)
    } else if name == "Gaming"@ {
        Some(Profile::Gaming)
    } else {
        None
    }
}

/// The views of the arguments.
pub open spec fn arg_views(args: Seq<String>) -> Seq<Seq<char>> {
    args.map_values(|a: String| a@)
}

/// `cmd` is what the arguments ask for on the given Windows version: the
/// first help or unknown argument decides; else the last profile argument
/// (which must name a profile) chooses the areas; else the area arguments
/// do, and with none of them the Balanced profile's areas are used.
pub open spec fn console_command_for(args: Seq<Seq<char>>, os: OsVersion, cmd: ConsoleCommand) -> bool {
    match cmd {
        ConsoleCommand::Help => exists|i: int| stops_at(args, i) && is_help_arg(#[trigger] args[i]),
        ConsoleCommand::UnknownArgument(a) => exists|i: int|
            stops_at(args, i) && !is_help_arg(#[trigger] args[i]) && a@ == args[i],
        ConsoleCommand::InvalidProfile(n) => all_settings(args) && last_profile(args) == Some(n@)
            && profile_named(n@) is None,
        ConsoleCommand::Run { areas, profile } => all_settings(args) && match last_profile(args) {
            Some(n) => profile_named(n) == profile && profile is Some && areas.bits == profile_areas(
                profile->0,
                os,
            ),
            None => profile is None && areas.bits == (if selected_bits(args) == 0 {
                profile_areas(Profile::Balanced, os)
            } else {
                selected_bits(args)
            }),
        },
    }
}

/// The console argument that asks for an operation's area: a slash and the
/// operation's internal name (the low-priority standby list is written
/// `/StandbyListLow`).
pub open spec fn area_argument(op: AreaOp) -> Seq<char> {
    if op == AreaOp::StandbyListLowPriority {
        "/StandbyListLow"@
    } else {
        "/"@ + op_key_text(op)
    }
}

proof fn lemma_area_argument_bit(op: AreaOp)
    ensures
        arg_bit(area_argument(op)) == op_bit(op),
        !is_help_arg(area_argument(op)),
        !is_profile_arg(area_argument(op)),
{
    reveal_strlit("/");
    reveal_strlit("/?");
    reveal_strlit("/help");
    reveal_strlit("-h");
    reveal_strlit("--help");
    reveal_strlit("/Profile:");
    reveal_strlit("/WorkingSet");
    reveal_strlit("/ModifiedPageList");
    reveal_strlit("/StandbyList");
    reveal_strlit("/StandbyListLow");
    reveal_strlit("/SystemFileCache");
    reveal_strlit("/CombinedPageList");
    reveal_strlit("/ModifiedFileCache");
    reveal_strlit("/RegistryCache");
    reveal_strlit("WorkingSet");
    reveal_strlit("ModifiedPageList");
    reveal_strlit("StandbyList");
    reveal_strlit("SystemFileCache");
    reveal_strlit("CombinedPageList");
    reveal_strlit("ModifiedFileCache");
    reveal_strlit("RegistryCache");
    let a = area_argument(op);
    match op {
        AreaOp::WorkingSet => {
            assert(a =~= "/WorkingSet"@);
        },
        AreaOp::ModifiedPageList => {
            assert(a =~= "/ModifiedPageList"@);
            assert(a != "/WorkingSet"@);
        },
        AreaOp::StandbyList => {
            assert(a =~= "/StandbyList"@);
            assert(a != "/WorkingSet"@ && a != "/ModifiedPageList"@);
        },
        AreaOp::StandbyListLowPriority => {
            assert(a == "/StandbyListLow"@);
            assert(a.len() == 15);
            assert("/WorkingSet"@.len() == 11);
            assert("/ModifiedPageList"@.len() == 17);
            assert("/StandbyList"@.len() == 12);
        },
        AreaOp::SystemFileCache => {
            assert(a =~= "/SystemFileCache"@);
            assert(a != "/WorkingSet"@ && a != "/ModifiedPageList"@ && a != "/StandbyList"@);
            assert(a != "/StandbyListLow"@);
        },
        AreaOp::CombinedPageList => {
            assert(a =~= "/CombinedPageList"@);
            assert(a[1] != "/ModifiedPageList"@[1]);
            assert(a != "/WorkingSet"@ && a != "/ModifiedPageList"@ && a != "/StandbyList"@);
            assert(a != "/StandbyListLow"@ && a != "/SystemFileCache"@);
        },
        AreaOp::ModifiedFileCache => {
            assert(a =~= "/ModifiedFileCache"@);
            assert(a != "/WorkingSet"@ && a != "/ModifiedPageList"@ && a != "/StandbyList"@);
            assert(a != "/StandbyListLow"@ && a != "/SystemFileCache"@ && a != "/CombinedPageList"@);
            assert(a[9] != "/ModifiedPageList"@[9]);
        },
        AreaOp::RegistryCache => {
            assert(a =~= "/RegistryCache"@);
            assert(a != "/WorkingSet"@ && a != "/ModifiedPageList"@ && a != "/StandbyList"@);
            assert(a != "/StandbyListLow"@ && a != "/SystemFileCache"@ && a != "/CombinedPageList"@);
            assert(a != "/ModifiedFileCache"@);
        },
    }
    assert(a[1] != 'P');
    assert("/Profile:"@[1] == 'P');
    if a.len() >= 9 {
        assert(a.subrange(0, 9)[1] == a[1]);
    }
}

/// Each area argument selects the area it names: given alone it asks for a
/// run of exactly that operation's area, with no profile, on any Windows
/// version; and two different operations' arguments select different areas.
pub proof fn lemma_area_argument_selects_its_area(op: AreaOp, other: AreaOp, os: OsVersion, cmd: ConsoleCommand)
    ensures
        console_command_for(seq![area_argument(op)], os, cmd) ==> (cmd matches ConsoleCommand::Run {
            areas,
            profile,
        } && areas.bits == op_bit(op) && profile is None),
        op != other ==> arg_bit(area_argument(op)) != arg_bit(area_argument(other)),
{
    lemma_area_argument_bit(op);
    lemma_area_argument_bit(other);
    let args = seq![area_argument(op)];
    assert(is_setting_arg(args[0]));
    assert(args.drop_last() =~= Seq::<Seq<char>>::empty());
    assert(args.last() == area_argument(op));
    assert(selected_bits(args.drop_last()) == 0);
    assert(last_profile(args.drop_last()) is None);
    assert(selected_bits(args) == 0u32 | op_bit(op));
    assert(0u32 | op_bit(op) == op_bit(op)) by (bit_vector);
    assert(last_profile(args) is None);
    if console_command_for(args, os, cmd) {
        match cmd {
            ConsoleCommand::Help => {
                let i = choose|i: int| stops_at(args, i) && is_help_arg(#[trigger] args[i]);
            },
            ConsoleCommand::UnknownArgument(x) => {
                let i = choose|i: int| stops_at(args, i) && !is_help_arg(#[trigger] args[i]) && x@ == args[i];
            },
            _ => {},
        }
    }
}

fn help_arg(a: &str) -> (r: bool)
    ensures
        r == is_help_arg(a@),
{
    str_eq(a, "/?") || str_eq(a, "/help") || str_eq(a, "-h") || str_eq(a, "--help")
}

fn area_arg_bit(a: &str) -> (r: u32)
    ensures
        r == arg_bit(a@),
{
    if str_eq(a, "/WorkingSet") {
        WORKING_SET_BIT
    } else if str_eq(a, "/ModifiedPageList") {
        MODIFIED_PAGE_LIST_BIT
    } else if str_eq(a, "/StandbyList") {
        STANDBY_LIST_BIT
    } else if str_eq(a, "/StandbyListLow") {
        STANDBY_LIST_LOW_BIT
    } else if str_eq(a, "/SystemFileCache") {
        SYSTEM_FILE_CACHE_BIT
    } else if str_eq(a, "/CombinedPageList") {
        COMBINED_PAGE_LIST_BIT
    } else if str_eq(a, "/ModifiedFileCache") {
        MODIFIED_FILE_CACHE_BIT
    } else if str_eq(a, "/RegistryCache") {
        REGISTRY_CACHE_BIT
    } else {
        0
    }
}

fn profile_from_name(name: &str) -> (r: Option<Profile>)
    ensures
        r == profile_named(name@),
{
    if str_eq(name, "Normal") {
        Some(Profile::Normal)
    } else if str_eq(name, "Balanced") {
        Some(Profile::Balanced)
    } else if str_eq(name, "Gaming") {
        Some(Profile::Gaming)
    } else {
        None
    }
}

/// Reads the console arguments (see `console_command_for`).
pub fn parse_console_args(args: &Vec<String>, os: &OsVersion) -> (r: ConsoleCommand)
    ensures
        console_command_for(arg_views(args@), *os, r),
{
    let ghost views = arg_views(args@);
    let prefix = chars_of("/Profile:");
    proof {
        reveal_strlit("/Profile:");
        assert(prefix@.len() == 9);
    }
    let mut bits: u32 = 0;
    let mut profile_name: Option<String> = None;
    let mut i: usize = 0;
    while i < args.len()
        invariant
            i <= args.len(),
            views == arg_views(args@),
            prefix@ == profile_prefix(),
            prefix@.len() == 9,
            forall|j: int| 0 <= j < i ==> is_setting_arg(#[trigger] views[j]),
            bits == selected_bits(views.take(i as int)),
            match profile_name {
                Some(n) => last_profile(views.take(i as int)) == Some(n@),
                None => last_profile(views.take(i as int)) is None,
            },
        decreases args.len() - i,
    {
        proof {
            assert(views.take(i + 1).drop_last() =~= views.take(i as int));
            assert(views.take(i + 1).last() == views[i as int]);
            assert(views[i as int] == args@[i as int]@);
        }
        let a = args[i].as_str();
        if help_arg(a) {
            return ConsoleCommand::Help;
        }
        let chars = chars_of(a);
        let b = area_arg_bit(a);
        if matches_at(&chars, &prefix, 0) {
            let name = string_of(&sub_vec(&chars, 9, chars.len()));
            profile_name = Some(name);
        } else if b == 0 {
            return ConsoleCommand::UnknownArgument(copy_str(a));
        }
        bits = bits | b;
        i = i + 1;
    }
    proof {
        assert(views.take(args.len() as int) =~= views);
    }
    match profile_name {
        Some(n) => match profile_from_name(n.as_str()) {
            Some(p) => ConsoleCommand::Run { areas: p.get_memory_areas(os), profile: Some(p) },
            None => ConsoleCommand::InvalidProfile(n),
        },
        None => {
            if bits == 0 {
                ConsoleCommand::Run { areas: Profile::Balanced.get_memory_areas(os), profile: None }
            } else {
                ConsoleCommand::Run { areas: Areas { bits }, profile: None }
            }
        },
    }
}

/// The help text of the console mode.
pub open spec fn help_text() -> Seq<char> {
    "Tommy Memory Cleaner - Console Mode\n\nUsage: TommyMemoryCleaner.exe [OPTIONS]\n\nOptions:\n  /WorkingSet              Optimize Working Set\n  /ModifiedPageList        Optimize Modified Page List\n  /StandbyList             Optimize Standby List\n  /StandbyListLow          Optimize Low Priority Standby List\n  /SystemFileCache         Optimize System File Cache\n  /CombinedPageList        Optimize Combined Page List\n  /ModifiedFileCache       Optimize Modified File Cache\n  /RegistryCache           Optimize Registry Cache\n  /Profile:Normal          Use Normal profile\n  /Profile:Balanced        Use Balanced profile\n  /Profile:Gaming          Use Gaming profile\n  /?                       Show this help\n\nExamples:\n  TommyMemoryCleaner.exe /WorkingSet /StandbyList\n  TommyMemoryCleaner.exe /Profile:Balanced\n"@
}

/// The help text of the console mode.
pub fn console_help() -> (r: String)
    ensures
        r@ == help_text(),
{
    copy_str(
        "Tommy Memory Cleaner - Console Mode\n\nUsage: TommyMemoryCleaner.exe [OPTIONS]\n\nOptions:\n  /WorkingSet              Optimize Working Set\n  /ModifiedPageList        Optimize Modified Page List\n  /StandbyList             Optimize Standby List\n  /StandbyListLow          Optimize Low Priority Standby List\n  /SystemFileCache         Optimize System File Cache\n  /CombinedPageList        Optimize Combined Page List\n  /ModifiedFileCache       Optimize Modified File Cache\n  /RegistryCache           Optimize Registry Cache\n  /Profile:Normal          Use Normal profile\n  /Profile:Balanced        Use Balanced profile\n  /Profile:Gaming          Use Gaming profile\n  /?                       Show this help\n\nExamples:\n  TommyMemoryCleaner.exe /WorkingSet /StandbyList\n  TommyMemoryCleaner.exe /Profile:Balanced\n",
    )
}

/// The message for an argument that is not understood.
pub fn unknown_argument_message(arg: &str) -> (r: String)
    ensures
        r@ == "Unknown argument: "@ + arg@ + "\nUse /? for help\n"@,
{
    let mut r = copy_str("Unknown argument: ");
    append_str(&mut r, arg);
    append_str(&mut r, "\nUse /? for help\n");
    r
}

/// The message for a profile name that is not known.
pub fn invalid_profile_message(name: &str) -> (r: String)
    ensures
        r@ == "Invalid profile: "@ + name@ + ". Use Normal, Balanced, or Gaming\n"@,
{
    let mut r = copy_str("Invalid profile: ");
    append_str(&mut r, name);
    append_str(&mut r, ". Use Normal, Balanced, or Gaming\n");
    r
}

/// The line naming the profile in use.
pub fn using_profile_message(profile: Profile) -> (r: String)
    ensures
        r@ == "Using profile: "@ + profile_key(profile) + "\n"@,
{
    let mut r = copy_str("Using profile: ");
    append_str(&mut r, crate::notifications::profile_name_key(profile));
    append_str(&mut r, "\n");
    r
}

/// Names written as a list, each in double quotes: `["A", "B"]` (the form of
/// a debug-printed list of names free of quotes and backslashes).
pub open spec fn quoted_list(names: Seq<Seq<char>>) -> Seq<char> {
    "["@ + seq_join(names.map_values(|n: Seq<char>| seq!['"'] + n + seq!['"']), ", "@) + "]"@
}

/// The line announcing the areas to be optimized.
pub fn areas_message(areas: &Areas) -> (r: String)
    ensures
        r@ == "Optimizing memory areas: "@ + quoted_list(crate::memory::types::area_names(*areas))
            + "\n"@,
{
    let names = areas.get_names();
    let ghost views = crate::memory::types::views_of(names@);
    let mut quoted: Vec<String> = Vec::new();
    let mut i: usize = 0;
    while i < names.len()
        invariant
            i <= names.len(),
            views == crate::memory::types::views_of(names@),
            quoted@.len() == i,
            forall|k: int| 0 <= k < i ==> (#[trigger] quoted@[k])@ == seq!['"'] + views[k] + seq!['"'],
        decreases names.len() - i,
    {
        let mut q = copy_str("\"");
        append_str(&mut q, names[i]);
        append_str(&mut q, "\"");
        proof {
            reveal_strlit("\"");
            assert(views[i as int] == names@[i as int]@);
            assert(q@ =~= seq!['"'] + views[i as int] + seq!['"']);
        }
        quoted.push(q);
        i = i + 1;
    }
    let mut refs: Vec<&str> = Vec::new();
    let mut k: usize = 0;
    while k < quoted.len()
        invariant
            k <= quoted.len(),
            refs@.len() == k,
            forall|m: int| 0 <= m < k ==> (#[trigger] refs@[m])@ == quoted@[m]@,
        decreases quoted.len() - k,
    {
        refs.push(quoted[k].as_str());
        k = k + 1;
    }
    proof {
        assert(refs@.map_values(|x: &str| x@) =~= views.map_values(|n: Seq<char>| seq!['"'] + n + seq!['"']));
    }
    let joined = crate::text::join_strs(&refs, ", ");
    let mut r = copy_str("Optimizing memory areas: [");
    append_str(&mut r, joined.as_str());
    append_str(&mut r, "]\n");
    proof {
        reveal_strlit("Optimizing memory areas: [");
        reveal_strlit("Optimizing memory areas: ");
        reveal_strlit("[");
        reveal_strlit("]\n");
        reveal_strlit("]");
        reveal_strlit("\n");
        assert(r@ =~= "Optimizing memory areas: "@ + quoted_list(crate::memory::types::area_names(*areas)) + "\n"@);
    }
    r
}

/// The progress line for step `current` (counted from 0) of `total`.
pub fn progress_line(current: u8, total: u8, area: &str) -> (r: String)
    requires
        current < 255,
    ensures
        r@ == "["@ + decimal_text((current + 1) as nat) + "/"@ + decimal_text(total as nat)
            + "] Optimizing: "@ + area@ + "\n"@,
{
    let mut r = copy_str("[");
    append_str(&mut r, decimal_string((current + 1) as u64).as_str());
    append_str(&mut r, "/");
    append_str(&mut r, decimal_string(total as u64).as_str());
    append_str(&mut r, "] Optimizing: ");
    append_str(&mut r, area);
    append_str(&mut r, "\n");
    r
}

/// The line reporting one area's outcome: `  <name>: OK` or
/// `  <name>: FAILED - <error>`.
pub fn area_outcome_line(area: &OptimizeAreaResult) -> (r: String)
    ensures
        r@ == match area.error {
            Some(e) => "  "@ + area.name@ + ": FAILED - "@ + e@ + "\n"@,
            None => "  "@ + area.name@ + ": OK\n"@,
        },
{
    let mut r = copy_str("  ");
    append_str(&mut r, area.name.as_str());
    match &area.error {
        Some(e) => {
            append_str(&mut r, ": FAILED - ");
            append_str(&mut r, e.as_str());
            append_str(&mut r, "\n");
        },
        None => {
            append_str(&mut r, ": OK\n");
        },
    }
    r
}

} // verus!
