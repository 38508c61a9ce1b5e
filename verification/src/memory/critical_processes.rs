//! Processes whose memory is never trimmed: system, security, desktop,
//! storage, driver, antivirus, virtualization, database, development,
//! backup and monitoring processes, and this program itself.
use vstd::prelude::*;
use crate::text::string_views;
use crate::text::{
    chars_eq, chars_of, contains_chars, copy_str, spec_contains, spec_str_to_lowercase, str_to_lowercase,
    trim_end_pattern, trim_end_seq,
};

verus! {

/// The names of the critical processes (each once, in lower case).
pub open spec fn critical_names() -> Seq<Seq<char>> {
    seq![
        "system"@, "smss.exe"@, "csrss.exe"@, "wininit.exe"@,
        "winlogon.exe"@, "services.exe"@, "lsass.exe"@, "lsm.exe"@,
        "svchost.exe"@, "rpcss"@, "dllhost.exe"@, "msmpeng.exe"@,
        "nissrv.exe"@, "securityhealthservice.exe"@, "sgrmbroker.exe"@, "vmcompute.exe"@,
        "vmms.exe"@, "dwm.exe"@, "explorer.exe"@, "sihost.exe"@,
        "fontdrvhost.exe"@, "logonui.exe"@, "userinit.exe"@, "memory compression"@,
        "registry"@, "vmmem"@, "vmwp.exe"@, "pagefileconfig.exe"@,
        "ntoskrnl.exe"@, "hal.dll"@, "win32k.sys"@, "win32kbase.sys"@,
        "win32kfull.sys"@, "cng.sys"@, "ksecdd.sys"@, "mountmgr.sys"@,
        "volmgr.sys"@, "volsnap.sys"@, "fltmgr.sys"@, "ntfs.sys"@,
        "tcpip.sys"@, "afd.sys"@, "http.sys"@, "mrxsmb.sys"@,
        "rdbss.sys"@, "csc.sys"@, "powercfg.exe"@, "poqexec.exe"@,
        "wuauserv"@, "trustedinstaller.exe"@, "tiworker.exe"@, "wuauclt.exe"@,
        "dhcp"@, "dnscache"@, "netman"@, "nlasvc"@,
        "nsi"@, "audiodg.exe"@, "audiosrv"@, "avp.exe"@,
        "avpui.exe"@, "klnagent.exe"@, "vsserv.exe"@, "bdagent.exe"@,
        "updatesrv.exe"@, "ns.exe"@, "nsbu.exe"@, "ccsvchst.exe"@,
        "avgnt.exe"@, "avguard.exe"@, "avastsvc.exe"@, "avastui.exe"@,
        "ekrn.exe"@, "egui.exe"@, "mcshield.exe"@, "mfefire.exe"@,
        "mfemms.exe"@, "mbamservice.exe"@, "mbamtray.exe"@, "mpcmdrun.exe"@,
        "msascuil.exe"@, "vmware-vmx.exe"@, "virtualbox.exe"@, "vboxsvc.exe"@,
        "qemu-system-x86_64.exe"@, "sqlservr.exe"@, "mysqld.exe"@, "postgres.exe"@,
        "oracle.exe"@, "mongod.exe"@, "devenv.exe"@, "code.exe"@,
        "docker.exe"@, "dockerd.exe"@, "com.docker.service"@, "onedrive.exe"@,
        "googledrivesync.exe"@, "dropbox.exe"@, "procmon.exe"@, "procexp.exe"@,
        "perfmon.exe"@, "resmon.exe"@, "tommymemorycleaner.exe"@, "tmc.exe"@,
    ]
}

/// Name fragments that make a process critical wherever they occur.
pub open spec fn critical_patterns() -> Seq<Seq<char>> {
    seq![
        "svchost"@, "runtimebroker"@, "taskhostw"@, "searchindexer"@, "searchprotocolhost"@,
        "conhost"@, "wmiprv"@, "spoolsv"@, "msdtc"@, "lsaiso"@,
        "ctfmon"@, "dashost"@, "backgroundtaskhost"@, "compattelrunner"@,
    ]
}

/// A name without its trailing `.exe`, `.sys` and `.dll` (each removed as
/// often as it repeats, in that order).
pub open spec fn strip_extensions(name: Seq<char>) -> Seq<char> {
    trim_end_seq(trim_end_seq(trim_end_seq(name, ".exe"@), ".sys"@), ".dll"@)
}

/// A process name as compared: lower-cased, extensions removed.
pub open spec fn clean_process_name(name: Seq<char>) -> Seq<char> {
    strip_extensions(spec_str_to_lowercase(name))
}

/// The critical names as compared: each without its extension.
pub open spec fn critical_stems() -> Seq<Seq<char>> {
    critical_names().map_values(|n: Seq<char>| strip_extensions(n))
}

/// The process is critical: its cleaned name is a critical name without its
/// extension (so `lsass.exe`, `LSASS.EXE` and `lsass` all are), or holds one
/// of the critical fragments.
pub open spec fn spec_is_critical(name: Seq<char>) -> bool {
    critical_stems().contains(clean_process_name(name)) || exists|k: int|
        0 <= k < critical_patterns().len() && spec_contains(
            clean_process_name(name),
            #[trigger] critical_patterns()[k],
        )
}

/// A name without its extensions (see `strip_extensions`).
fn strip_extensions_exec(v: &Vec<char>) -> (r: Vec<char>)
    ensures
        r@ == strip_extensions(v@),
{
    let exe = chars_of(".exe");
    let sys = chars_of(".sys");
    let dll = chars_of(".dll");
    proof {
        reveal_strlit(".exe");
        reveal_strlit(".sys");
        reveal_strlit(".dll");
    }
    trim_end_pattern(&trim_end_pattern(&trim_end_pattern(v, &exe), &sys), &dll)
}

fn name_table() -> (r: Vec<&'static str>)
    ensures
        r@.map_values(|s: &str| s@) == critical_names(),
{
    let r: Vec<&'static str> = vec![
        "system", "smss.exe", "csrss.exe", "wininit.exe",
        "winlogon.exe", "services.exe", "lsass.exe", "lsm.exe",
        "svchost.exe", "rpcss", "dllhost.exe", "msmpeng.exe",
        "nissrv.exe", "securityhealthservice.exe", "sgrmbroker.exe", "vmcompute.exe",
        "vmms.exe", "dwm.exe", "explorer.exe", "sihost.exe",
        "fontdrvhost.exe", "logonui.exe", "userinit.exe", "memory compression",
        "registry", "vmmem", "vmwp.exe", "pagefileconfig.exe",
        "ntoskrnl.exe", "hal.dll", "win32k.sys", "win32kbase.sys",
        "win32kfull.sys", "cng.sys", "ksecdd.sys", "mountmgr.sys",
        "volmgr.sys", "volsnap.sys", "fltmgr.sys", "ntfs.sys",
        "tcpip.sys", "afd.sys", "http.sys", "mrxsmb.sys",
        "rdbss.sys", "csc.sys", "powercfg.exe", "poqexec.exe",
        "wuauserv", "trustedinstaller.exe", "tiworker.exe", "wuauclt.exe",
        "dhcp", "dnscache", "netman", "nlasvc",
        "nsi", "audiodg.exe", "audiosrv", "avp.exe",
        "avpui.exe", "klnagent.exe", "vsserv.exe", "bdagent.exe",
        "updatesrv.exe", "ns.exe", "nsbu.exe", "ccsvchst.exe",
        "avgnt.exe", "avguard.exe", "avastsvc.exe", "avastui.exe",
        "ekrn.exe", "egui.exe", "mcshield.exe", "mfefire.exe",
        "mfemms.exe", "mbamservice.exe", "mbamtray.exe", "mpcmdrun.exe",
        "msascuil.exe", "vmware-vmx.exe", "virtualbox.exe", "vboxsvc.exe",
        "qemu-system-x86_64.exe", "sqlservr.exe", "mysqld.exe", "postgres.exe",
        "oracle.exe", "mongod.exe", "devenv.exe", "code.exe",
        "docker.exe", "dockerd.exe", "com.docker.service", "onedrive.exe",
        "googledrivesync.exe", "dropbox.exe", "procmon.exe", "procexp.exe",
        "perfmon.exe", "resmon.exe", "tommymemorycleaner.exe", "tmc.exe",
    ];
    proof {
        assert(r@.map_values(|s: &str| s@) =~= critical_names());
    }
    r
}

fn pattern_table() -> (r: Vec<&'static str>)
    ensures
        r@.map_values(|s: &str| s@) == critical_patterns(),
{
    let r: Vec<&'static str> = vec![
        "svchost", "runtimebroker", "taskhostw", "searchindexer", "searchprotocolhost",
        "conhost", "wmiprv", "spoolsv", "msdtc", "lsaiso",
        "ctfmon", "dashost", "backgroundtaskhost", "compattelrunner",
    ];
    proof {
        assert(r@.map_values(|s: &str| s@) =~= critical_patterns());
    }
    r
}

/// Whether a process must be left alone (see `spec_is_critical`).
pub fn is_critical_process(process_name: &str) -> (r: bool)
    ensures
        r == spec_is_critical(process_name@),
{
    let lower = chars_of(str_to_lowercase(process_name).as_str());
    let clean = strip_extensions_exec(&lower);
    let names = name_table();
    let ghost nv = names@.map_values(|s: &str| s@);
    let mut i: usize = 0;
    while i < names.len()
        invariant
            i <= names.len(),
            nv == names@.map_values(|s: &str| s@),
            nv == critical_names(),
            clean@ == clean_process_name(process_name@),
            forall|k: int| 0 <= k < i ==> critical_stems()[k] != clean@,
        decreases names.len() - i,
    {
        let stem = strip_extensions_exec(&chars_of(names[i]));
        proof {
            assert(critical_stems()[i as int] == strip_extensions(nv[i as int]));
        }
        if chars_eq(&stem, &clean) {
            return true;
        }
        i = i + 1;
    }
    proof {
        assert forall|x: Seq<char>| critical_stems().contains(x) implies x != clean@ by {
            let k = choose|k: int| 0 <= k < critical_stems().len() && critical_stems()[k] == x;
        }
    }
    let patterns = pattern_table();
    let ghost pv = patterns@.map_values(|s: &str| s@);
    let mut j: usize = 0;
    while j < patterns.len()
        invariant
            j <= patterns.len(),
            pv == patterns@.map_values(|s: &str| s@),
            pv == critical_patterns(),
            clean@ == clean_process_name(process_name@),
            !critical_stems().contains(clean_process_name(process_name@)),
            forall|k: int| 0 <= k < j ==> !spec_contains(clean@, #[trigger] pv[k]),
        decreases patterns.len() - j,
    {
        let pat = chars_of(patterns[j]);
        if contains_chars(&clean, &pat) {
            proof {
                assert(pat@ == pv[j as int]);
            }
            return true;
        }
        j = j + 1;
    }
    false
}

/// The critical process names, each once.
pub fn get_critical_processes_list() -> (r: Vec<String>)
    ensures
        string_views(r@) == critical_names(),
{
    let names = name_table();
    let mut r: Vec<String> = Vec::new();
    let mut i: usize = 0;
    proof {
        assert(string_views(r@) =~= critical_names().take(0));
    }
    while i < names.len()
        invariant
            i <= names.len(),
            names@.map_values(|s: &str| s@) == critical_names(),
            string_views(r@) == critical_names().take(i as int),
        decreases names.len() - i,
    {
        let ghost before = r@;
        r.push(copy_str(names[i]));
        proof {
            assert(names@.map_values(|s: &str| s@)[i as int] == names@[i as int]@);
            assert(string_views(r@) =~= string_views(before).push(critical_names()[i as int]));
            assert(critical_names().take(i + 1) =~= critical_names().take(i as int).push(critical_names()[i as int]));
        }
        i = i + 1;
    }
    proof {
        assert(critical_names().take(names.len() as int) =~= critical_names());
    }
    r
}

} // verus!
