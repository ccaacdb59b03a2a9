//! Resolution of human-supplied capability names to identifiers.
//!
//! A name is accepted in any letter case, either bare (`chown`) or with the
//! conventional `CAP_` prefix (`CAP_CHOWN`). Matching is exact string
//! equality after uppercasing; nothing else is normalised.

use vstd::prelude::*;
use vstd::string::*;

use crate::cap::Capability;
use crate::cap::all_caps;
use crate::cap::cap_prefix;
use crate::cap::all;

verus! {

broadcast use vstd::string::group_string_axioms;

/// ASCII uppercasing of one character; anything but a lowercase ASCII
/// letter is left alone.
pub open spec fn upper_char(c: char) -> char {
    if 97 <= c as u32 && c as u32 <= 122 {
        ((c as u32 - 32) as u32) as char
    } else {
        c
    }
}

/// ASCII uppercasing of a whole string.
pub open spec fn upper_chars(s: Seq<char>) -> Seq<char> {
    Seq::new(s.len(), |i: int| upper_char(s[i]))
}

/// Whether an (already uppercased) name starts with the conventional prefix.
pub open spec fn has_cap_prefix(u: Seq<char>) -> bool {
    u.len() >= 4 && u[0] == 'C' && u[1] == 'A' && u[2] == 'P' && u[3] == '_'
}

/// Drop the conventional prefix from an (already uppercased) name, if it is
/// there.
pub open spec fn strip_cap_prefix(u: Seq<char>) -> Seq<char> {
    if has_cap_prefix(u) {
        u.skip(4)
    } else {
        u
    }
}

/// The capability whose canonical (uppercase, unprefixed) name is `u`, if
/// any. Canonical names are pairwise distinct, so at most one arm applies.
pub open spec fn cap_of_canonical(u: Seq<char>) -> Option<Capability> {
    if u == Capability::Chown.base_name() { Some(Capability::Chown) }
    else if u == Capability::DacOverride.base_name() { Some(Capability::DacOverride) }
    else if u == Capability::DacReadSearch.base_name() { Some(Capability::DacReadSearch) }
    else if u == Capability::Fowner.base_name() { Some(Capability::Fowner) }
    else if u == Capability::Fsetid.base_name() { Some(Capability::Fsetid) }
    else if u == Capability::Kill.base_name() { Some(Capability::Kill) }
    else if u == Capability::Setgid.base_name() { Some(Capability::Setgid) }
    else if u == Capability::Setuid.base_name() { Some(Capability::Setuid) }
    else if u == Capability::Setpcap.base_name() { Some(Capability::Setpcap) }
    else if u == Capability::LinuxImmutable.base_name() { Some(Capability::LinuxImmutable) }
    else if u == Capability::NetBindService.base_name() { Some(Capability::NetBindService) }
    else if u == Capability::NetBroadcast.base_name() { Some(Capability::NetBroadcast) }
    else if u == Capability::NetAdmin.base_name() { Some(Capability::NetAdmin) }
    else if u == Capability::NetRaw.base_name() { Some(Capability::NetRaw) }
    else if u == Capability::IpcLock.base_name() { Some(Capability::IpcLock) }
    else if u == Capability::IpcOwner.base_name() { Some(Capability::IpcOwner) }
    else if u == Capability::SysModule.base_name() { Some(Capability::SysModule) }
    else if u == Capability::SysRawio.base_name() { Some(Capability::SysRawio) }
    else if u == Capability::SysChroot.base_name() { Some(Capability::SysChroot) }
    else if u == Capability::SysPtrace.base_name() { Some(Capability::SysPtrace) }
    else if u == Capability::SysPacct.base_name() { Some(Capability::SysPacct) }
    else if u == Capability::SysAdmin.base_name() { Some(Capability::SysAdmin) }
    else if u == Capability::SysBoot.base_name() { Some(Capability::SysBoot) }
    else if u == Capability::SysNice.base_name() { Some(Capability::SysNice) }
    else if u == Capability::SysResource.base_name() { Some(Capability::SysResource) }
    else if u == Capability::SysTime.base_name() { Some(Capability::SysTime) }
    else if u == Capability::SysTtyConfig.base_name() { Some(Capability::SysTtyConfig) }
    else if u == Capability::Mknod.base_name() { Some(Capability::Mknod) }
    else if u == Capability::Lease.base_name() { Some(Capability::Lease) }
    else if u == Capability::AuditWrite.base_name() { Some(Capability::AuditWrite) }
    else if u == Capability::AuditControl.base_name() { Some(Capability::AuditControl) }
    else if u == Capability::Setfcap.base_name() { Some(Capability::Setfcap) }
    else if u == Capability::MacOverride.base_name() { Some(Capability::MacOverride) }
    else if u == Capability::MacAdmin.base_name() { Some(Capability::MacAdmin) }
    else if u == Capability::Syslog.base_name() { Some(Capability::Syslog) }
    else if u == Capability::WakeAlarm.base_name() { Some(Capability::WakeAlarm) }
    else if u == Capability::BlockSuspend.base_name() { Some(Capability::BlockSuspend) }
    else if u == Capability::AuditRead.base_name() { Some(Capability::AuditRead) }
    else if u == Capability::Perfmon.base_name() { Some(Capability::Perfmon) }
    else if u == Capability::Bpf.base_name() { Some(Capability::Bpf) }
    else if u == Capability::CheckpointRestore.base_name() { Some(Capability::CheckpointRestore) }
    else { None }
}

/// What resolution returns on a given input: uppercase it, drop the
/// conventional prefix if present, and look the rest up among the canonical
/// names.
pub open spec fn spec_resolve(s: Seq<char>) -> Option<Capability> {
    cap_of_canonical(strip_cap_prefix(upper_chars(s)))
}

/// The matching rule as stated for the resolver: the uppercased input is
/// the canonical name itself, or the canonical name behind the prefix.
pub open spec fn name_matches(c: Capability, s: Seq<char>) -> bool {
    upper_chars(s) == c.base_name() || upper_chars(s) == cap_prefix() + c.base_name()
}

/// The concrete facts about the canonical names that the other proofs
/// need: each name looks itself up to its own capability, and no name
/// carries the conventional prefix.
#[verifier::rlimit(60)]
pub proof fn lemma_canonical_names(c: Capability)
    ensures
        cap_of_canonical(c.base_name()) == Some(c),
        !has_cap_prefix(c.base_name()),
{
    reveal_strlit("CHOWN");
    reveal_strlit("DAC_OVERRIDE");
    reveal_strlit("DAC_READ_SEARCH");
    reveal_strlit("FOWNER");
    reveal_strlit("FSETID");
    reveal_strlit("KILL");
    reveal_strlit("SETGID");
    reveal_strlit("SETUID");
    reveal_strlit("SETPCAP");
    reveal_strlit("LINUX_IMMUTABLE");
    reveal_strlit("NET_BIND_SERVICE");
    reveal_strlit("NET_BROADCAST");
    reveal_strlit("NET_ADMIN");
    reveal_strlit("NET_RAW");
    reveal_strlit("IPC_LOCK");
    reveal_strlit("IPC_OWNER");
    reveal_strlit("SYS_MODULE");
    reveal_strlit("SYS_RAWIO");
    reveal_strlit("SYS_CHROOT");
    reveal_strlit("SYS_PTRACE");
    reveal_strlit("SYS_PACCT");
    reveal_strlit("SYS_ADMIN");
    reveal_strlit("SYS_BOOT");
    reveal_strlit("SYS_NICE");
    reveal_strlit("SYS_RESOURCE");
    reveal_strlit("SYS_TIME");
    reveal_strlit("SYS_TTY_CONFIG");
    reveal_strlit("MKNOD");
    reveal_strlit("LEASE");
    reveal_strlit("AUDIT_WRITE");
    reveal_strlit("AUDIT_CONTROL");
    reveal_strlit("SETFCAP");
    reveal_strlit("MAC_OVERRIDE");
    reveal_strlit("MAC_ADMIN");
    reveal_strlit("SYSLOG");
    reveal_strlit("WAKE_ALARM");
    reveal_strlit("BLOCK_SUSPEND");
    reveal_strlit("AUDIT_READ");
    reveal_strlit("PERFMON");
    reveal_strlit("BPF");
    reveal_strlit("CHECKPOINT_RESTORE");
    reveal_strlit("CAP_");
    assert("CHOWN"@.len() == 5);
    assert("DAC_OVERRIDE"@.len() == 12);
    assert("DAC_READ_SEARCH"@.len() == 15);
    assert("FOWNER"@.len() == 6);
    assert("FSETID"@.len() == 6);
    assert("KILL"@.len() == 4);
    assert("SETGID"@.len() == 6);
    assert("SETUID"@.len() == 6);
    assert("SETPCAP"@.len() == 7);
    assert("LINUX_IMMUTABLE"@.len() == 15);
    assert("NET_BIND_SERVICE"@.len() == 16);
    assert("NET_BROADCAST"@.len() == 13);
    assert("NET_ADMIN"@.len() == 9);
    assert("NET_RAW"@.len() == 7);
    assert("IPC_LOCK"@.len() == 8);
    assert("IPC_OWNER"@.len() == 9);
    assert("SYS_MODULE"@.len() == 10);
    assert("SYS_RAWIO"@.len() == 9);
    assert("SYS_CHROOT"@.len() == 10);
    assert("SYS_PTRACE"@.len() == 10);
    assert("SYS_PACCT"@.len() == 9);
    assert("SYS_ADMIN"@.len() == 9);
    assert("SYS_BOOT"@.len() == 8);
    assert("SYS_NICE"@.len() == 8);
    assert("SYS_RESOURCE"@.len() == 12);
    assert("SYS_TIME"@.len() == 8);
    assert("SYS_TTY_CONFIG"@.len() == 14);
    assert("MKNOD"@.len() == 5);
    assert("LEASE"@.len() == 5);
    assert("AUDIT_WRITE"@.len() == 11);
    assert("AUDIT_CONTROL"@.len() == 13);
    assert("SETFCAP"@.len() == 7);
    assert("MAC_OVERRIDE"@.len() == 12);
    assert("MAC_ADMIN"@.len() == 9);
    assert("SYSLOG"@.len() == 6);
    assert("WAKE_ALARM"@.len() == 10);
    assert("BLOCK_SUSPEND"@.len() == 13);
    assert("AUDIT_READ"@.len() == 10);
    assert("PERFMON"@.len() == 7);
    assert("BPF"@.len() == 3);
    assert("CHECKPOINT_RESTORE"@.len() == 18);
    assert("CAP_"@.len() == 4);
    match c {
        Capability::Chown => {
            assert(cap_of_canonical(Capability::Chown.base_name()) == Some(Capability::Chown));
        },
        Capability::DacOverride => {
            assert(cap_of_canonical(Capability::DacOverride.base_name()) == Some(Capability::DacOverride));
        },
        Capability::DacReadSearch => {
            assert(cap_of_canonical(Capability::DacReadSearch.base_name()) == Some(Capability::DacReadSearch));
        },
        Capability::Fowner => {
            assert(cap_of_canonical(Capability::Fowner.base_name()) == Some(Capability::Fowner));
        },
        Capability::Fsetid => {
            assert("FSETID"@[1] != "FOWNER"@[1]);
            assert(cap_of_canonical(Capability::Fsetid.base_name()) == Some(Capability::Fsetid));
        },
        Capability::Kill => {
            assert(cap_of_canonical(Capability::Kill.base_name()) == Some(Capability::Kill));
        },
        Capability::Setgid => {
            assert("SETGID"@[0] != "FOWNER"@[0]);
            assert("SETGID"@[0] != "FSETID"@[0]);
            assert(cap_of_canonical(Capability::Setgid.base_name()) == Some(Capability::Setgid));
        },
        Capability::Setuid => {
            assert("SETUID"@[0] != "FOWNER"@[0]);
            assert("SETUID"@[0] != "FSETID"@[0]);
            assert("SETUID"@[3] != "SETGID"@[3]);
            assert(cap_of_canonical(Capability::Setuid.base_name()) == Some(Capability::Setuid));
        },
        Capability::Setpcap => {
            assert(cap_of_canonical(Capability::Setpcap.base_name()) == Some(Capability::Setpcap));
        },
        Capability::LinuxImmutable => {
            assert("LINUX_IMMUTABLE"@[0] != "DAC_READ_SEARCH"@[0]);
            assert(cap_of_canonical(Capability::LinuxImmutable.base_name()) == Some(Capability::LinuxImmutable));
        },
        Capability::NetBindService => {
            assert(cap_of_canonical(Capability::NetBindService.base_name()) == Some(Capability::NetBindService));
        },
        Capability::NetBroadcast => {
            assert(cap_of_canonical(Capability::NetBroadcast.base_name()) == Some(Capability::NetBroadcast));
        },
        Capability::NetAdmin => {
            assert(cap_of_canonical(Capability::NetAdmin.base_name()) == Some(Capability::NetAdmin));
        },
        Capability::NetRaw => {
            assert("NET_RAW"@[0] != "SETPCAP"@[0]);
            assert(cap_of_canonical(Capability::NetRaw.base_name()) == Some(Capability::NetRaw));
        },
        Capability::IpcLock => {
            assert(cap_of_canonical(Capability::IpcLock.base_name()) == Some(Capability::IpcLock));
        },
        Capability::IpcOwner => {
            assert("IPC_OWNER"@[0] != "NET_ADMIN"@[0]);
            assert(cap_of_canonical(Capability::IpcOwner.base_name()) == Some(Capability::IpcOwner));
        },
        Capability::SysModule => {
            assert(cap_of_canonical(Capability::SysModule.base_name()) == Some(Capability::SysModule));
        },
        Capability::SysRawio => {
            assert("SYS_RAWIO"@[0] != "NET_ADMIN"@[0]);
            assert("SYS_RAWIO"@[0] != "IPC_OWNER"@[0]);
            assert(cap_of_canonical(Capability::SysRawio.base_name()) == Some(Capability::SysRawio));
        },
        Capability::SysChroot => {
            assert("SYS_CHROOT"@[4] != "SYS_MODULE"@[4]);
            assert(cap_of_canonical(Capability::SysChroot.base_name()) == Some(Capability::SysChroot));
        },
        Capability::SysPtrace => {
            assert("SYS_PTRACE"@[4] != "SYS_MODULE"@[4]);
            assert("SYS_PTRACE"@[4] != "SYS_CHROOT"@[4]);
            assert(cap_of_canonical(Capability::SysPtrace.base_name()) == Some(Capability::SysPtrace));
        },
        Capability::SysPacct => {
            assert("SYS_PACCT"@[0] != "NET_ADMIN"@[0]);
            assert("SYS_PACCT"@[0] != "IPC_OWNER"@[0]);
            assert("SYS_PACCT"@[4] != "SYS_RAWIO"@[4]);
            assert(cap_of_canonical(Capability::SysPacct.base_name()) == Some(Capability::SysPacct));
        },
        Capability::SysAdmin => {
            assert("SYS_ADMIN"@[0] != "NET_ADMIN"@[0]);
            assert("SYS_ADMIN"@[0] != "IPC_OWNER"@[0]);
            assert("SYS_ADMIN"@[4] != "SYS_RAWIO"@[4]);
            assert("SYS_ADMIN"@[4] != "SYS_PACCT"@[4]);
            assert(cap_of_canonical(Capability::SysAdmin.base_name()) == Some(Capability::SysAdmin));
        },
        Capability::SysBoot => {
            assert("SYS_BOOT"@[0] != "IPC_LOCK"@[0]);
            assert(cap_of_canonical(Capability::SysBoot.base_name()) == Some(Capability::SysBoot));
        },
        Capability::SysNice => {
            assert("SYS_NICE"@[0] != "IPC_LOCK"@[0]);
            assert("SYS_NICE"@[4] != "SYS_BOOT"@[4]);
            assert(cap_of_canonical(Capability::SysNice.base_name()) == Some(Capability::SysNice));
        },
        Capability::SysResource => {
            assert("SYS_RESOURCE"@[0] != "DAC_OVERRIDE"@[0]);
            assert(cap_of_canonical(Capability::SysResource.base_name()) == Some(Capability::SysResource));
        },
        Capability::SysTime => {
            assert("SYS_TIME"@[0] != "IPC_LOCK"@[0]);
            assert("SYS_TIME"@[4] != "SYS_BOOT"@[4]);
            assert("SYS_TIME"@[4] != "SYS_NICE"@[4]);
            assert(cap_of_canonical(Capability::SysTime.base_name()) == Some(Capability::SysTime));
        },
        Capability::SysTtyConfig => {
            assert(cap_of_canonical(Capability::SysTtyConfig.base_name()) == Some(Capability::SysTtyConfig));
        },
        Capability::Mknod => {
            assert("MKNOD"@[0] != "CHOWN"@[0]);
            assert(cap_of_canonical(Capability::Mknod.base_name()) == Some(Capability::Mknod));
        },
        Capability::Lease => {
            assert("LEASE"@[0] != "CHOWN"@[0]);
            assert("LEASE"@[0] != "MKNOD"@[0]);
            assert(cap_of_canonical(Capability::Lease.base_name()) == Some(Capability::Lease));
        },
        Capability::AuditWrite => {
            assert(cap_of_canonical(Capability::AuditWrite.base_name()) == Some(Capability::AuditWrite));
        },
        Capability::AuditControl => {
            assert("AUDIT_CONTROL"@[0] != "NET_BROADCAST"@[0]);
            assert(cap_of_canonical(Capability::AuditControl.base_name()) == Some(Capability::AuditControl));
        },
        Capability::Setfcap => {
            assert("SETFCAP"@[3] != "SETPCAP"@[3]);
            assert("SETFCAP"@[0] != "NET_RAW"@[0]);
            assert(cap_of_canonical(Capability::Setfcap.base_name()) == Some(Capability::Setfcap));
        },
        Capability::MacOverride => {
            assert("MAC_OVERRIDE"@[0] != "DAC_OVERRIDE"@[0]);
            assert("MAC_OVERRIDE"@[0] != "SYS_RESOURCE"@[0]);
            assert(cap_of_canonical(Capability::MacOverride.base_name()) == Some(Capability::MacOverride));
        },
        Capability::MacAdmin => {
            assert("MAC_ADMIN"@[0] != "NET_ADMIN"@[0]);
            assert("MAC_ADMIN"@[0] != "IPC_OWNER"@[0]);
            assert("MAC_ADMIN"@[0] != "SYS_RAWIO"@[0]);
            assert("MAC_ADMIN"@[0] != "SYS_PACCT"@[0]);
            assert("MAC_ADMIN"@[0] != "SYS_ADMIN"@[0]);
            assert(cap_of_canonical(Capability::MacAdmin.base_name()) == Some(Capability::MacAdmin));
        },
        Capability::Syslog => {
            assert("SYSLOG"@[0] != "FOWNER"@[0]);
            assert("SYSLOG"@[0] != "FSETID"@[0]);
            assert("SYSLOG"@[1] != "SETGID"@[1]);
            assert("SYSLOG"@[1] != "SETUID"@[1]);
            assert(cap_of_canonical(Capability::Syslog.base_name()) == Some(Capability::Syslog));
        },
        Capability::WakeAlarm => {
            assert("WAKE_ALARM"@[0] != "SYS_MODULE"@[0]);
            assert("WAKE_ALARM"@[0] != "SYS_CHROOT"@[0]);
            assert("WAKE_ALARM"@[0] != "SYS_PTRACE"@[0]);
            assert(cap_of_canonical(Capability::WakeAlarm.base_name()) == Some(Capability::WakeAlarm));
        },
        Capability::BlockSuspend => {
            assert("BLOCK_SUSPEND"@[0] != "NET_BROADCAST"@[0]);
            assert("BLOCK_SUSPEND"@[0] != "AUDIT_CONTROL"@[0]);
            assert(cap_of_canonical(Capability::BlockSuspend.base_name()) == Some(Capability::BlockSuspend));
        },
        Capability::AuditRead => {
            assert("AUDIT_READ"@[0] != "SYS_MODULE"@[0]);
            assert("AUDIT_READ"@[0] != "SYS_CHROOT"@[0]);
            assert("AUDIT_READ"@[0] != "SYS_PTRACE"@[0]);
            assert("AUDIT_READ"@[0] != "WAKE_ALARM"@[0]);
            assert(cap_of_canonical(Capability::AuditRead.base_name()) == Some(Capability::AuditRead));
        },
        Capability::Perfmon => {
            assert("PERFMON"@[0] != "SETPCAP"@[0]);
            assert("PERFMON"@[0] != "NET_RAW"@[0]);
            assert("PERFMON"@[0] != "SETFCAP"@[0]);
            assert(cap_of_canonical(Capability::Perfmon.base_name()) == Some(Capability::Perfmon));
        },
        Capability::Bpf => {
            assert(cap_of_canonical(Capability::Bpf.base_name()) == Some(Capability::Bpf));
        },
        Capability::CheckpointRestore => {
            assert(cap_of_canonical(Capability::CheckpointRestore.base_name()) == Some(Capability::CheckpointRestore));
        },
    }
}


/// Every capability identifier stands in the enumerated domain.
pub proof fn lemma_all_caps_complete(c: Capability)
    ensures
        all_caps().contains(c),
{
    match c {
        Capability::Chown => {
            assert(all_caps()[0] == Capability::Chown);
        },
        Capability::DacOverride => {
            assert(all_caps()[1] == Capability::DacOverride);
        },
        Capability::DacReadSearch => {
            assert(all_caps()[2] == Capability::DacReadSearch);
        },
        Capability::Fowner => {
            assert(all_caps()[3] == Capability::Fowner);
        },
        Capability::Fsetid => {
            assert(all_caps()[4] == Capability::Fsetid);
        },
        Capability::Kill => {
            assert(all_caps()[5] == Capability::Kill);
        },
        Capability::Setgid => {
            assert(all_caps()[6] == Capability::Setgid);
        },
        Capability::Setuid => {
            assert(all_caps()[7] == Capability::Setuid);
        },
        Capability::Setpcap => {
            assert(all_caps()[8] == Capability::Setpcap);
        },
        Capability::LinuxImmutable => {
            assert(all_caps()[9] == Capability::LinuxImmutable);
        },
        Capability::NetBindService => {
            assert(all_caps()[10] == Capability::NetBindService);
        },
        Capability::NetBroadcast => {
            assert(all_caps()[11] == Capability::NetBroadcast);
        },
        Capability::NetAdmin => {
            assert(all_caps()[12] == Capability::NetAdmin);
        },
        Capability::NetRaw => {
            assert(all_caps()[13] == Capability::NetRaw);
        },
        Capability::IpcLock => {
            assert(all_caps()[14] == Capability::IpcLock);
        },
        Capability::IpcOwner => {
            assert(all_caps()[15] == Capability::IpcOwner);
        },
        Capability::SysModule => {
            assert(all_caps()[16] == Capability::SysModule);
        },
        Capability::SysRawio => {
            assert(all_caps()[17] == Capability::SysRawio);
        },
        Capability::SysChroot => {
            assert(all_caps()[18] == Capability::SysChroot);
        },
        Capability::SysPtrace => {
            assert(all_caps()[19] == Capability::SysPtrace);
        },
        Capability::SysPacct => {
            assert(all_caps()[20] == Capability::SysPacct);
        },
        Capability::SysAdmin => {
            assert(all_caps()[21] == Capability::SysAdmin);
        },
        Capability::SysBoot => {
            assert(all_caps()[22] == Capability::SysBoot);
        },
        Capability::SysNice => {
            assert(all_caps()[23] == Capability::SysNice);
        },
        Capability::SysResource => {
            assert(all_caps()[24] == Capability::SysResource);
        },
        Capability::SysTime => {
            assert(all_caps()[25] == Capability::SysTime);
        },
        Capability::SysTtyConfig => {
            assert(all_caps()[26] == Capability::SysTtyConfig);
        },
        Capability::Mknod => {
            assert(all_caps()[27] == Capability::Mknod);
        },
        Capability::Lease => {
            assert(all_caps()[28] == Capability::Lease);
        },
        Capability::AuditWrite => {
            assert(all_caps()[29] == Capability::AuditWrite);
        },
        Capability::AuditControl => {
            assert(all_caps()[30] == Capability::AuditControl);
        },
        Capability::Setfcap => {
            assert(all_caps()[31] == Capability::Setfcap);
        },
        Capability::MacOverride => {
            assert(all_caps()[32] == Capability::MacOverride);
        },
        Capability::MacAdmin => {
            assert(all_caps()[33] == Capability::MacAdmin);
        },
        Capability::Syslog => {
            assert(all_caps()[34] == Capability::Syslog);
        },
        Capability::WakeAlarm => {
            assert(all_caps()[35] == Capability::WakeAlarm);
        },
        Capability::BlockSuspend => {
            assert(all_caps()[36] == Capability::BlockSuspend);
        },
        Capability::AuditRead => {
            assert(all_caps()[37] == Capability::AuditRead);
        },
        Capability::Perfmon => {
            assert(all_caps()[38] == Capability::Perfmon);
        },
        Capability::Bpf => {
            assert(all_caps()[39] == Capability::Bpf);
        },
        Capability::CheckpointRestore => {
            assert(all_caps()[40] == Capability::CheckpointRestore);
        },
    }
}

/// A string whose uppercased form is no capability's canonical name,
/// bare or prefixed, resolves to nothing.
proof fn lemma_cap_of_canonical_unknown(u: Seq<char>)
    requires
        forall|c: Capability| u != c.base_name(),
    ensures
        cap_of_canonical(u) is None,
{
}

/// Uppercasing is idempotent, character by character.
proof fn lemma_upper_idempotent(s: Seq<char>)
    ensures
        upper_chars(upper_chars(s)) == upper_chars(s),
{
    assert(upper_chars(upper_chars(s)) =~= upper_chars(s));
}


/// LAW: a string whose uppercased form is a capability's canonical name —
/// bare or behind the conventional prefix — resolves to that capability.
pub proof fn lemma_resolve_matches(c: Capability, s: Seq<char>)
    requires
        name_matches(c, s),
    ensures
        spec_resolve(s) == Some(c),
{
    reveal_strlit("CAP_");
    lemma_canonical_names(c);
    let u = upper_chars(s);
    if u == c.base_name() {
        assert(strip_cap_prefix(u) == c.base_name());
    } else {
        assert(u == cap_prefix() + c.base_name());
        assert(u[0] == 'C' && u[1] == 'A' && u[2] == 'P' && u[3] == '_');
        assert(has_cap_prefix(u));
        assert(u.skip(4) =~= c.base_name());
    }
}

/// LAW: for every capability, the bare canonical name and the prefixed
/// canonical name — each in any letter case — resolve to the same
/// identifier, the capability itself.
pub proof fn lemma_resolve_both_forms(c: Capability, bare: Seq<char>, prefixed: Seq<char>)
    requires
        upper_chars(bare) == c.base_name(),
        upper_chars(prefixed) == cap_prefix() + c.base_name(),
    ensures
        spec_resolve(bare) == Some(c),
        spec_resolve(prefixed) == Some(c),
{
    lemma_resolve_matches(c, bare);
    lemma_resolve_matches(c, prefixed);
}

/// LAW: a name selects at most one capability; two capabilities matched by
/// the same string are the same capability.
pub proof fn lemma_resolve_unambiguous(c1: Capability, c2: Capability, s: Seq<char>)
    requires
        name_matches(c1, s),
        name_matches(c2, s),
    ensures
        c1 == c2,
{
    lemma_resolve_matches(c1, s);
    lemma_resolve_matches(c2, s);
}

/// LAW: a string that matches no capability's name, bare or prefixed,
/// resolves to nothing.
pub proof fn lemma_resolve_unknown(s: Seq<char>)
    requires
        forall|c: Capability| !name_matches(c, s),
    ensures
        spec_resolve(s) is None,
{
    reveal_strlit("CAP_");
    let u = upper_chars(s);
    if has_cap_prefix(u) {
        assert forall|c: Capability| u.skip(4) != c.base_name() by {
            if u.skip(4) == c.base_name() {
                assert(u =~= cap_prefix() + c.base_name());
                assert(name_matches(c, s));
            }
        }
        lemma_cap_of_canonical_unknown(u.skip(4));
    } else {
        assert forall|c: Capability| u != c.base_name() by {
            assert(!name_matches(c, s));
        }
        lemma_cap_of_canonical_unknown(u);
    }
}

/// LAW: resolution is case-insensitive; a string and its uppercased form
/// resolve alike.
pub proof fn lemma_resolve_case_insensitive(s: Seq<char>)
    ensures
        spec_resolve(s) == spec_resolve(upper_chars(s)),
{
    lemma_upper_idempotent(s);
}


/// The error of a failed resolution: it carries the input exactly as it
/// was given, for diagnostics.
#[derive(Debug)]
pub struct ResolveError {
    pub input: String,
}

impl ResolveError {
    /// The diagnostic text for an unrecognised name.
    pub fn message(&self) -> (r: String)
        ensures
            r@ == "unrecognised capability: "@ + self.input@,
    {
        let mut m = String::from_str("unrecognised capability: ");
        m.append(self.input.as_str());
        m
    }
}

/// Whether uppercasing `c` yields exactly `b`.
fn upper_is(c: char, b: char) -> (r: bool)
    ensures
        r == (upper_char(c) == b),
{
    let cv = c as u32;
    let bv = b as u32;
    if 97 <= cv && cv <= 122 {
        cv - 32 == bv
    } else {
        cv == bv
    }
}

/// Whether the uppercased input, from position `start` on, is exactly the
/// canonical name `base`.
fn matches_from(name: &str, start: usize, base: &str) -> (r: bool)
    requires
        start <= name@.len(),
    ensures
        r == (upper_chars(name@).skip(start as int) == base@),
{
    let n = name.unicode_len();
    let m = base.unicode_len();
    if n - start != m {
        assert(upper_chars(name@).skip(start as int).len() != base@.len());
        return false;
    }
    let mut j: usize = 0;
    while j < m
        invariant
            j <= m,
            n == name@.len(),
            m == base@.len(),
            start <= n,
            n - start == m,
            forall|k: int| 0 <= k < j ==> upper_char(name@[start + k]) == base@[k],
        decreases m - j,
    {
        if !upper_is(name.get_char(start + j), base.get_char(j)) {
            assert(upper_chars(name@).skip(start as int)[j as int] != base@[j as int]);
            return false;
        }
        j += 1;
    }
    proof {
        assert(upper_chars(name@).skip(start as int) =~= base@);
    }
    true
}

/// Map a capability name to its identifier, scanning the full enumerated
/// domain. The name is accepted in any letter case, bare or with the
/// conventional prefix; anything else is an error carrying the input
/// unchanged.
pub fn resolve(name: &str) -> (r: Result<Capability, ResolveError>)
    ensures
        match r {
            Ok(c) => spec_resolve(name@) == Some(c),
            Err(e) => spec_resolve(name@) is None && e.input@ == name@,
        },
{
    let n = name.unicode_len();
    let prefixed = n >= 4 && upper_is(name.get_char(0), 'C') && upper_is(name.get_char(1), 'A')
        && upper_is(name.get_char(2), 'P') && upper_is(name.get_char(3), '_');
    let start: usize = if prefixed { 4 } else { 0 };
    proof {
        assert(upper_chars(name@).len() == name@.len());
        assert(prefixed == has_cap_prefix(upper_chars(name@)));
        if !prefixed {
            assert(upper_chars(name@).skip(0) =~= upper_chars(name@));
        }
        assert(strip_cap_prefix(upper_chars(name@)) == upper_chars(name@).skip(start as int));
    }
    let caps = all();
    let mut i: usize = 0;
    while i < caps.len()
        invariant
            i <= caps@.len(),
            caps@ == all_caps(),
            start <= name@.len(),
            strip_cap_prefix(upper_chars(name@)) == upper_chars(name@).skip(start as int),
            forall|j: int|
                0 <= j < i ==> upper_chars(name@).skip(start as int)
                    != #[trigger] all_caps()[j].base_name(),
        decreases caps@.len() - i,
    {
        let c = caps[i];
        if matches_from(name, start, c.base_name_str()) {
            proof {
                lemma_canonical_names(c);
            }
            return Ok(c);
        }
        i += 1;
    }
    proof {
        assert forall|c: Capability| strip_cap_prefix(upper_chars(name@)) != c.base_name() by {
            lemma_all_caps_complete(c);
            let j = choose|j: int| 0 <= j < all_caps().len() && all_caps()[j] == c;
            assert(upper_chars(name@).skip(start as int) != all_caps()[j].base_name());
        }
        lemma_cap_of_canonical_unknown(strip_cap_prefix(upper_chars(name@)));
    }
    Err(ResolveError { input: String::from_str(name) })
}


/// LAW: the names this crate spells for a capability all resolve back to
/// it — the canonical uppercase name, its lowercase form as the
/// remediation hint spells it, and the prefixed form as the capability
/// subsystem spells it; and uppercasing relates the three as stated.
#[verifier::rlimit(100)]
pub proof fn lemma_spelled_names_resolve(c: Capability)
    ensures
        upper_chars(c.base_name()) == c.base_name(),
        upper_chars(c.lower_name()) == c.base_name(),
        spec_resolve(c.base_name()) == Some(c),
        spec_resolve(c.lower_name()) == Some(c),
        spec_resolve(cap_prefix() + c.base_name()) == Some(c),
{
    reveal_strlit("CAP_");
    reveal_strlit("CHOWN");
    reveal_strlit("chown");
    reveal_strlit("DAC_OVERRIDE");
    reveal_strlit("dac_override");
    reveal_strlit("DAC_READ_SEARCH");
    reveal_strlit("dac_read_search");
    reveal_strlit("FOWNER");
    reveal_strlit("fowner");
    reveal_strlit("FSETID");
    reveal_strlit("fsetid");
    reveal_strlit("KILL");
    reveal_strlit("kill");
    reveal_strlit("SETGID");
    reveal_strlit("setgid");
    reveal_strlit("SETUID");
    reveal_strlit("setuid");
    reveal_strlit("SETPCAP");
    reveal_strlit("setpcap");
    reveal_strlit("LINUX_IMMUTABLE");
    reveal_strlit("linux_immutable");
    reveal_strlit("NET_BIND_SERVICE");
    reveal_strlit("net_bind_service");
    reveal_strlit("NET_BROADCAST");
    reveal_strlit("net_broadcast");
    reveal_strlit("NET_ADMIN");
    reveal_strlit("net_admin");
    reveal_strlit("NET_RAW");
    reveal_strlit("net_raw");
    reveal_strlit("IPC_LOCK");
    reveal_strlit("ipc_lock");
    reveal_strlit("IPC_OWNER");
    reveal_strlit("ipc_owner");
    reveal_strlit("SYS_MODULE");
    reveal_strlit("sys_module");
    reveal_strlit("SYS_RAWIO");
    reveal_strlit("sys_rawio");
    reveal_strlit("SYS_CHROOT");
    reveal_strlit("sys_chroot");
    reveal_strlit("SYS_PTRACE");
    reveal_strlit("sys_ptrace");
    reveal_strlit("SYS_PACCT");
    reveal_strlit("sys_pacct");
    reveal_strlit("SYS_ADMIN");
    reveal_strlit("sys_admin");
    reveal_strlit("SYS_BOOT");
    reveal_strlit("sys_boot");
    reveal_strlit("SYS_NICE");
    reveal_strlit("sys_nice");
    reveal_strlit("SYS_RESOURCE");
    reveal_strlit("sys_resource");
    reveal_strlit("SYS_TIME");
    reveal_strlit("sys_time");
    reveal_strlit("SYS_TTY_CONFIG");
    reveal_strlit("sys_tty_config");
    reveal_strlit("MKNOD");
    reveal_strlit("mknod");
    reveal_strlit("LEASE");
    reveal_strlit("lease");
    reveal_strlit("AUDIT_WRITE");
    reveal_strlit("audit_write");
    reveal_strlit("AUDIT_CONTROL");
    reveal_strlit("audit_control");
    reveal_strlit("SETFCAP");
    reveal_strlit("setfcap");
    reveal_strlit("MAC_OVERRIDE");
    reveal_strlit("mac_override");
    reveal_strlit("MAC_ADMIN");
    reveal_strlit("mac_admin");
    reveal_strlit("SYSLOG");
    reveal_strlit("syslog");
    reveal_strlit("WAKE_ALARM");
    reveal_strlit("wake_alarm");
    reveal_strlit("BLOCK_SUSPEND");
    reveal_strlit("block_suspend");
    reveal_strlit("AUDIT_READ");
    reveal_strlit("audit_read");
    reveal_strlit("PERFMON");
    reveal_strlit("perfmon");
    reveal_strlit("BPF");
    reveal_strlit("bpf");
    reveal_strlit("CHECKPOINT_RESTORE");
    reveal_strlit("checkpoint_restore");
    match c {
        Capability::Chown => {
            assert(upper_chars("CHOWN"@) =~= "CHOWN"@);
            assert(upper_chars("chown"@) =~= "CHOWN"@);
            assert(upper_chars(cap_prefix() + "CHOWN"@) =~= cap_prefix() + "CHOWN"@);
        },
        Capability::DacOverride => {
            assert(upper_chars("DAC_OVERRIDE"@) =~= "DAC_OVERRIDE"@);
            assert(upper_chars("dac_override"@) =~= "DAC_OVERRIDE"@);
            assert(upper_chars(cap_prefix() + "DAC_OVERRIDE"@) =~= cap_prefix() + "DAC_OVERRIDE"@);
        },
        Capability::DacReadSearch => {
            assert(upper_chars("DAC_READ_SEARCH"@) =~= "DAC_READ_SEARCH"@);
            assert(upper_chars("dac_read_search"@) =~= "DAC_READ_SEARCH"@);
            assert(upper_chars(cap_prefix() + "DAC_READ_SEARCH"@) =~= cap_prefix() + "DAC_READ_SEARCH"@);
        },
        Capability::Fowner => {
            assert(upper_chars("FOWNER"@) =~= "FOWNER"@);
            assert(upper_chars("fowner"@) =~= "FOWNER"@);
            assert(upper_chars(cap_prefix() + "FOWNER"@) =~= cap_prefix() + "FOWNER"@);
        },
        Capability::Fsetid => {
            assert(upper_chars("FSETID"@) =~= "FSETID"@);
            assert(upper_chars("fsetid"@) =~= "FSETID"@);
            assert(upper_chars(cap_prefix() + "FSETID"@) =~= cap_prefix() + "FSETID"@);
        },
        Capability::Kill => {
            assert(upper_chars("KILL"@) =~= "KILL"@);
            assert(upper_chars("kill"@) =~= "KILL"@);
            assert(upper_chars(cap_prefix() + "KILL"@) =~= cap_prefix() + "KILL"@);
        },
        Capability::Setgid => {
            assert(upper_chars("SETGID"@) =~= "SETGID"@);
            assert(upper_chars("setgid"@) =~= "SETGID"@);
            assert(upper_chars(cap_prefix() + "SETGID"@) =~= cap_prefix() + "SETGID"@);
        },
        Capability::Setuid => {
            assert(upper_chars("SETUID"@) =~= "SETUID"@);
            assert(upper_chars("setuid"@) =~= "SETUID"@);
            assert(upper_chars(cap_prefix() + "SETUID"@) =~= cap_prefix() + "SETUID"@);
        },
        Capability::Setpcap => {
            assert(upper_chars("SETPCAP"@) =~= "SETPCAP"@);
            assert(upper_chars("setpcap"@) =~= "SETPCAP"@);
            assert(upper_chars(cap_prefix() + "SETPCAP"@) =~= cap_prefix() + "SETPCAP"@);
        },
        Capability::LinuxImmutable => {
            assert(upper_chars("LINUX_IMMUTABLE"@) =~= "LINUX_IMMUTABLE"@);
            assert(upper_chars("linux_immutable"@) =~= "LINUX_IMMUTABLE"@);
            assert(upper_chars(cap_prefix() + "LINUX_IMMUTABLE"@) =~= cap_prefix() + "LINUX_IMMUTABLE"@);
        },
        Capability::NetBindService => {
            assert(upper_chars("NET_BIND_SERVICE"@) =~= "NET_BIND_SERVICE"@);
            assert(upper_chars("net_bind_service"@) =~= "NET_BIND_SERVICE"@);
            assert(upper_chars(cap_prefix() + "NET_BIND_SERVICE"@) =~= cap_prefix() + "NET_BIND_SERVICE"@);
        },
        Capability::NetBroadcast => {
            assert(upper_chars("NET_BROADCAST"@) =~= "NET_BROADCAST"@);
            assert(upper_chars("net_broadcast"@) =~= "NET_BROADCAST"@);
            assert(upper_chars(cap_prefix() + "NET_BROADCAST"@) =~= cap_prefix() + "NET_BROADCAST"@);
        },
        Capability::NetAdmin => {
            assert(upper_chars("NET_ADMIN"@) =~= "NET_ADMIN"@);
            assert(upper_chars("net_admin"@) =~= "NET_ADMIN"@);
            assert(upper_chars(cap_prefix() + "NET_ADMIN"@) =~= cap_prefix() + "NET_ADMIN"@);
        },
        Capability::NetRaw => {
            assert(upper_chars("NET_RAW"@) =~= "NET_RAW"@);
            assert(upper_chars("net_raw"@) =~= "NET_RAW"@);
            assert(upper_chars(cap_prefix() + "NET_RAW"@) =~= cap_prefix() + "NET_RAW"@);
        },
        Capability::IpcLock => {
            assert(upper_chars("IPC_LOCK"@) =~= "IPC_LOCK"@);
            assert(upper_chars("ipc_lock"@) =~= "IPC_LOCK"@);
            assert(upper_chars(cap_prefix() + "IPC_LOCK"@) =~= cap_prefix() + "IPC_LOCK"@);
        },
        Capability::IpcOwner => {
            assert(upper_chars("IPC_OWNER"@) =~= "IPC_OWNER"@);
            assert(upper_chars("ipc_owner"@) =~= "IPC_OWNER"@);
            assert(upper_chars(cap_prefix() + "IPC_OWNER"@) =~= cap_prefix() + "IPC_OWNER"@);
        },
        Capability::SysModule => {
            assert(upper_chars("SYS_MODULE"@) =~= "SYS_MODULE"@);
            assert(upper_chars("sys_module"@) =~= "SYS_MODULE"@);
            assert(upper_chars(cap_prefix() + "SYS_MODULE"@) =~= cap_prefix() + "SYS_MODULE"@);
        },
        Capability::SysRawio => {
            assert(upper_chars("SYS_RAWIO"@) =~= "SYS_RAWIO"@);
            assert(upper_chars("sys_rawio"@) =~= "SYS_RAWIO"@);
            assert(upper_chars(cap_prefix() + "SYS_RAWIO"@) =~= cap_prefix() + "SYS_RAWIO"@);
        },
        Capability::SysChroot => {
            assert(upper_chars("SYS_CHROOT"@) =~= "SYS_CHROOT"@);
            assert(upper_chars("sys_chroot"@) =~= "SYS_CHROOT"@);
            assert(upper_chars(cap_prefix() + "SYS_CHROOT"@) =~= cap_prefix() + "SYS_CHROOT"@);
        },
        Capability::SysPtrace => {
            assert(upper_chars("SYS_PTRACE"@) =~= "SYS_PTRACE"@);
            assert(upper_chars("sys_ptrace"@) =~= "SYS_PTRACE"@);
            assert(upper_chars(cap_prefix() + "SYS_PTRACE"@) =~= cap_prefix() + "SYS_PTRACE"@);
        },
        Capability::SysPacct => {
            assert(upper_chars("SYS_PACCT"@) =~= "SYS_PACCT"@);
            assert(upper_chars("sys_pacct"@) =~= "SYS_PACCT"@);
            assert(upper_chars(cap_prefix() + "SYS_PACCT"@) =~= cap_prefix() + "SYS_PACCT"@);
        },
        Capability::SysAdmin => {
            assert(upper_chars("SYS_ADMIN"@) =~= "SYS_ADMIN"@);
            assert(upper_chars("sys_admin"@) =~= "SYS_ADMIN"@);
            assert(upper_chars(cap_prefix() + "SYS_ADMIN"@) =~= cap_prefix() + "SYS_ADMIN"@);
        },
        Capability::SysBoot => {
            assert(upper_chars("SYS_BOOT"@) =~= "SYS_BOOT"@);
            assert(upper_chars("sys_boot"@) =~= "SYS_BOOT"@);
            assert(upper_chars(cap_prefix() + "SYS_BOOT"@) =~= cap_prefix() + "SYS_BOOT"@);
        },
        Capability::SysNice => {
            assert(upper_chars("SYS_NICE"@) =~= "SYS_NICE"@);
            assert(upper_chars("sys_nice"@) =~= "SYS_NICE"@);
            assert(upper_chars(cap_prefix() + "SYS_NICE"@) =~= cap_prefix() + "SYS_NICE"@);
        },
        Capability::SysResource => {
            assert(upper_chars("SYS_RESOURCE"@) =~= "SYS_RESOURCE"@);
            assert(upper_chars("sys_resource"@) =~= "SYS_RESOURCE"@);
            assert(upper_chars(cap_prefix() + "SYS_RESOURCE"@) =~= cap_prefix() + "SYS_RESOURCE"@);
        },
        Capability::SysTime => {
            assert(upper_chars("SYS_TIME"@) =~= "SYS_TIME"@);
            assert(upper_chars("sys_time"@) =~= "SYS_TIME"@);
            assert(upper_chars(cap_prefix() + "SYS_TIME"@) =~= cap_prefix() + "SYS_TIME"@);
        },
        Capability::SysTtyConfig => {
            assert(upper_chars("SYS_TTY_CONFIG"@) =~= "SYS_TTY_CONFIG"@);
            assert(upper_chars("sys_tty_config"@) =~= "SYS_TTY_CONFIG"@);
            assert(upper_chars(cap_prefix() + "SYS_TTY_CONFIG"@) =~= cap_prefix() + "SYS_TTY_CONFIG"@);
        },
        Capability::Mknod => {
            assert(upper_chars("MKNOD"@) =~= "MKNOD"@);
            assert(upper_chars("mknod"@) =~= "MKNOD"@);
            assert(upper_chars(cap_prefix() + "MKNOD"@) =~= cap_prefix() + "MKNOD"@);
        },
        Capability::Lease => {
            assert(upper_chars("LEASE"@) =~= "LEASE"@);
            assert(upper_chars("lease"@) =~= "LEASE"@);
            assert(upper_chars(cap_prefix() + "LEASE"@) =~= cap_prefix() + "LEASE"@);
        },
        Capability::AuditWrite => {
            assert(upper_chars("AUDIT_WRITE"@) =~= "AUDIT_WRITE"@);
            assert(upper_chars("audit_write"@) =~= "AUDIT_WRITE"@);
            assert(upper_chars(cap_prefix() + "AUDIT_WRITE"@) =~= cap_prefix() + "AUDIT_WRITE"@);
        },
        Capability::AuditControl => {
            assert(upper_chars("AUDIT_CONTROL"@) =~= "AUDIT_CONTROL"@);
            assert(upper_chars("audit_control"@) =~= "AUDIT_CONTROL"@);
            assert(upper_chars(cap_prefix() + "AUDIT_CONTROL"@) =~= cap_prefix() + "AUDIT_CONTROL"@);
        },
        Capability::Setfcap => {
            assert(upper_chars("SETFCAP"@) =~= "SETFCAP"@);
            assert(upper_chars("setfcap"@) =~= "SETFCAP"@);
            assert(upper_chars(cap_prefix() + "SETFCAP"@) =~= cap_prefix() + "SETFCAP"@);
        },
        Capability::MacOverride => {
            assert(upper_chars("MAC_OVERRIDE"@) =~= "MAC_OVERRIDE"@);
            assert(upper_chars("mac_override"@) =~= "MAC_OVERRIDE"@);
            assert(upper_chars(cap_prefix() + "MAC_OVERRIDE"@) =~= cap_prefix() + "MAC_OVERRIDE"@);
        },
        Capability::MacAdmin => {
            assert(upper_chars("MAC_ADMIN"@) =~= "MAC_ADMIN"@);
            assert(upper_chars("mac_admin"@) =~= "MAC_ADMIN"@);
            assert(upper_chars(cap_prefix() + "MAC_ADMIN"@) =~= cap_prefix() + "MAC_ADMIN"@);
        },
        Capability::Syslog => {
            assert(upper_chars("SYSLOG"@) =~= "SYSLOG"@);
            assert(upper_chars("syslog"@) =~= "SYSLOG"@);
            assert(upper_chars(cap_prefix() + "SYSLOG"@) =~= cap_prefix() + "SYSLOG"@);
        },
        Capability::WakeAlarm => {
            assert(upper_chars("WAKE_ALARM"@) =~= "WAKE_ALARM"@);
            assert(upper_chars("wake_alarm"@) =~= "WAKE_ALARM"@);
            assert(upper_chars(cap_prefix() + "WAKE_ALARM"@) =~= cap_prefix() + "WAKE_ALARM"@);
        },
        Capability::BlockSuspend => {
            assert(upper_chars("BLOCK_SUSPEND"@) =~= "BLOCK_SUSPEND"@);
            assert(upper_chars("block_suspend"@) =~= "BLOCK_SUSPEND"@);
            assert(upper_chars(cap_prefix() + "BLOCK_SUSPEND"@) =~= cap_prefix() + "BLOCK_SUSPEND"@);
        },
        Capability::AuditRead => {
            assert(upper_chars("AUDIT_READ"@) =~= "AUDIT_READ"@);
            assert(upper_chars("audit_read"@) =~= "AUDIT_READ"@);
            assert(upper_chars(cap_prefix() + "AUDIT_READ"@) =~= cap_prefix() + "AUDIT_READ"@);
        },
        Capability::Perfmon => {
            assert(upper_chars("PERFMON"@) =~= "PERFMON"@);
            assert(upper_chars("perfmon"@) =~= "PERFMON"@);
            assert(upper_chars(cap_prefix() + "PERFMON"@) =~= cap_prefix() + "PERFMON"@);
        },
        Capability::Bpf => {
            assert(upper_chars("BPF"@) =~= "BPF"@);
            assert(upper_chars("bpf"@) =~= "BPF"@);
            assert(upper_chars(cap_prefix() + "BPF"@) =~= cap_prefix() + "BPF"@);
        },
        Capability::CheckpointRestore => {
            assert(upper_chars("CHECKPOINT_RESTORE"@) =~= "CHECKPOINT_RESTORE"@);
            assert(upper_chars("checkpoint_restore"@) =~= "CHECKPOINT_RESTORE"@);
            assert(upper_chars(cap_prefix() + "CHECKPOINT_RESTORE"@) =~= cap_prefix() + "CHECKPOINT_RESTORE"@);
        },
    }
    lemma_resolve_matches(c, c.base_name());
    lemma_resolve_matches(c, c.lower_name());
    assert(name_matches(c, cap_prefix() + c.base_name()));
    lemma_resolve_matches(c, cap_prefix() + c.base_name());
}


} // verus!
