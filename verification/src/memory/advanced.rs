//! The system-call numbers of the advanced techniques, and the techniques'
//! steps as far as they are carried out.
use vstd::prelude::*;
use crate::text::{append_str, copy_str, str_eq};

verus! {

/// The system-call numbers known for Windows 10 and 11 (x64).
pub open spec fn known_syscalls() -> Seq<(Seq<char>, u32)> {
    seq![
        ("NtSetSystemInformation"@, 0x0190u32),
        ("NtSuspendThread"@, 0x01A4u32),
        ("NtResumeThread"@, 0x0054u32),
    ]
}

/// The number of a system call among `entries`, if listed.
pub open spec fn syscall_number_of(entries: Seq<(Seq<char>, u32)>, name: Seq<char>) -> Option<u32>
    decreases entries.len(),
{
    if entries.len() == 0 {
        None
    } else if entries[0].0 == name {
        Some(entries[0].1)
    } else {
        syscall_number_of(entries.drop_first(), name)
    }
}

/// The views of table entries.
pub open spec fn syscall_views(v: Seq<(String, u32)>) -> Seq<(Seq<char>, u32)> {
    v.map_values(|e: (String, u32)| (e.0@, e.1))
}

/// The table of system-call numbers, filled on first use.
#[derive(Debug)]
pub struct SyscallTable {
    entries: Option<Vec<(String, u32)>>,
}

impl SyscallTable {
    /// A resolved table holds exactly the known numbers.
    #[verifier::type_invariant]
    spec fn wf(self) -> bool {
        match self.entries {
            Some(v) => syscall_views(v@) == known_syscalls(),
            None => true,
        }
    }

    /// The entries, once resolved.
    pub closed spec fn resolved(&self) -> Option<Seq<(Seq<char>, u32)>> {
        match self.entries {
            Some(v) => Some(syscall_views(v@)),
            None => None,
        }
    }

    /// A table not yet resolved.
    pub fn new() -> (r: SyscallTable)
        ensures
            r.resolved() is None,
    {
        SyscallTable { entries: None }
    }

    /// Fills the table with the known numbers, unless it already is.
    pub fn resolve_syscall_numbers(&mut self) -> (r: Result<(), String>)
        ensures
            r is Ok,
            old(self).resolved() is Some ==> final(self).resolved() == old(self).resolved(),
            old(self).resolved() is None ==> final(self).resolved() == Some(known_syscalls()),
            final(self).resolved() == Some(known_syscalls()),
    {
        proof {
            use_type_invariant(&*self);
        }
        if self.entries.is_some() {
            return Ok(());
        }
        let mut v: Vec<(String, u32)> = Vec::new();
        v.push((copy_str("NtSetSystemInformation"), 0x0190));
        v.push((copy_str("NtSuspendThread"), 0x01A4));
        v.push((copy_str("NtResumeThread"), 0x0054));
        proof {
            assert(syscall_views(v@) =~= known_syscalls());
        }
        self.entries = Some(v);
        Ok(())
    }

    /// The number of a system call: resolves the table first when needed;
    /// an unlisted name is an error.
    pub fn get_syscall_number(&mut self, function_name: &str) -> (r: Result<u32, String>)
        ensures
            final(self).resolved() == Some(known_syscalls()),
            match r {
                Ok(n) => syscall_number_of(final(self).resolved()->0, function_name@) == Some(n),
                Err(e) => syscall_number_of(final(self).resolved()->0, function_name@) is None
                    && e@ == "Syscall not found: "@ + function_name@,
            },
    {
        let _ = self.resolve_syscall_numbers();
        let ghost res = self.resolved();
        match &self.entries {
            Some(v) => {
                let ghost views = syscall_views(v@);
                proof {
                    assert(views.skip(0) =~= views);
                }
                let mut i: usize = 0;
                while i < v.len()
                    invariant
                        i <= v.len(),
                        res == Some(views),
                        res == Some(known_syscalls()),
                        self.resolved() == res,
                        views == syscall_views(v@),
                        syscall_number_of(views, function_name@) == syscall_number_of(
                            views.skip(i as int),
                            function_name@,
                        ),
                    decreases v.len() - i,
                {
                    proof {
                        assert(views.skip(i as int).drop_first() =~= views.skip(i + 1));
                        assert(views.skip(i as int)[0] == views[i as int]);
                    }
                    if str_eq(v[i].0.as_str(), function_name) {
                        return Ok(v[i].1);
                    }
                    i = i + 1;
                }
                proof {
                    assert(views.skip(v.len() as int).len() == 0);
                }
                let mut e = copy_str("Syscall not found: ");
                append_str(&mut e, function_name);
                Err(e)
            },
            None => Err(copy_str("Syscall table not initialized")),
        }
    }
}

/// The system process, which owns the modified-page writer thread.
pub fn find_system_process() -> (r: u32)
    ensures
        r == 4,
{
    4
}

/// Prepares the advanced techniques: resolves the system-call table.
pub fn init_advanced_features(table: &mut SyscallTable) -> (r: Result<(), String>)
    ensures
        r is Ok,
        final(table).resolved() is Some,
{
    table.resolve_syscall_numbers()
}

/// Trims the memory compression store: resolves the number of the
/// information call it is made with, and reports success.
pub fn trim_memory_compression_store(table: &mut SyscallTable) -> (r: Result<(), String>)
    ensures
        r is Ok,
        final(table).resolved() is Some,
{
    let _ = table.resolve_syscall_numbers();
    let n = table.get_syscall_number("NtSetSystemInformation");
    match n {
        Ok(_) => Ok(()),
        Err(e) => Err(e),
    }
}

/// Flushes the modified page list: the writer thread of the system process
/// would be suspended around the flush; it is not looked up, so only the
/// flush call's number is resolved, and success is reported.
pub fn aggressive_modified_page_flush(table: &mut SyscallTable) -> (r: Result<(), String>)
    ensures
        r is Ok,
        final(table).resolved() is Some,
{
    let _ = table.resolve_syscall_numbers();
    let _system = find_system_process();
    let n = table.get_syscall_number("NtSetSystemInformation");
    match n {
        Ok(_) => Ok(()),
        Err(e) => Err(e),
    }
}

} // verus!
