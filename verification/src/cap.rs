//! The closed set of Linux capability identifiers and their canonical names.

use vstd::prelude::*;
use vstd::string::*;

verus! {

/// A Linux process capability, one identifier per capability the kernel
/// defines. The set is closed: every identifier is listed here and nothing
/// else is one.
#[derive(Clone, Copy, PartialEq, Eq, Structural, Debug)]
pub enum Capability {
    Chown,
    DacOverride,
    DacReadSearch,
    Fowner,
    Fsetid,
    Kill,
    Setgid,
    Setuid,
    Setpcap,
    LinuxImmutable,
    NetBindService,
    NetBroadcast,
    NetAdmin,
    NetRaw,
    IpcLock,
    IpcOwner,
    SysModule,
    SysRawio,
    SysChroot,
    SysPtrace,
    SysPacct,
    SysAdmin,
    SysBoot,
    SysNice,
    SysResource,
    SysTime,
    SysTtyConfig,
    Mknod,
    Lease,
    AuditWrite,
    AuditControl,
    Setfcap,
    MacOverride,
    MacAdmin,
    Syslog,
    WakeAlarm,
    BlockSuspend,
    AuditRead,
    Perfmon,
    Bpf,
    CheckpointRestore,
}

impl Capability {
    /// The canonical name of this capability: uppercase, without the
    /// conventional `CAP_` prefix.
    pub open spec fn base_name(self) -> Seq<char> {
        match self {
            Capability::Chown => "CHOWN"@,
            Capability::DacOverride => "DAC_OVERRIDE"@,
            Capability::DacReadSearch => "DAC_READ_SEARCH"@,
            Capability::Fowner => "FOWNER"@,
            Capability::Fsetid => "FSETID"@,
            Capability::Kill => "KILL"@,
            Capability::Setgid => "SETGID"@,
            Capability::Setuid => "SETUID"@,
            Capability::Setpcap => "SETPCAP"@,
            Capability::LinuxImmutable => "LINUX_IMMUTABLE"@,
            Capability::NetBindService => "NET_BIND_SERVICE"@,
            Capability::NetBroadcast => "NET_BROADCAST"@,
            Capability::NetAdmin => "NET_ADMIN"@,
            Capability::NetRaw => "NET_RAW"@,
            Capability::IpcLock => "IPC_LOCK"@,
            Capability::IpcOwner => "IPC_OWNER"@,
            Capability::SysModule => "SYS_MODULE"@,
            Capability::SysRawio => "SYS_RAWIO"@,
            Capability::SysChroot => "SYS_CHROOT"@,
            Capability::SysPtrace => "SYS_PTRACE"@,
            Capability::SysPacct => "SYS_PACCT"@,
            Capability::SysAdmin => "SYS_ADMIN"@,
            Capability::SysBoot => "SYS_BOOT"@,
            Capability::SysNice => "SYS_NICE"@,
            Capability::SysResource => "SYS_RESOURCE"@,
            Capability::SysTime => "SYS_TIME"@,
            Capability::SysTtyConfig => "SYS_TTY_CONFIG"@,
            Capability::Mknod => "MKNOD"@,
            Capability::Lease => "LEASE"@,
            Capability::AuditWrite => "AUDIT_WRITE"@,
            Capability::AuditControl => "AUDIT_CONTROL"@,
            Capability::Setfcap => "SETFCAP"@,
            Capability::MacOverride => "MAC_OVERRIDE"@,
            Capability::MacAdmin => "MAC_ADMIN"@,
            Capability::Syslog => "SYSLOG"@,
            Capability::WakeAlarm => "WAKE_ALARM"@,
            Capability::BlockSuspend => "BLOCK_SUSPEND"@,
            Capability::AuditRead => "AUDIT_READ"@,
            Capability::Perfmon => "PERFMON"@,
            Capability::Bpf => "BPF"@,
            Capability::CheckpointRestore => "CHECKPOINT_RESTORE"@,
        }
    }

    /// The canonical name as a string slice.
    pub fn base_name_str(&self) -> (r: &'static str)
        ensures
            r@ == self.base_name(),
    {
        match self {
            Capability::Chown => "CHOWN",
            Capability::DacOverride => "DAC_OVERRIDE",
            Capability::DacReadSearch => "DAC_READ_SEARCH",
            Capability::Fowner => "FOWNER",
            Capability::Fsetid => "FSETID",
            Capability::Kill => "KILL",
            Capability::Setgid => "SETGID",
            Capability::Setuid => "SETUID",
            Capability::Setpcap => "SETPCAP",
            Capability::LinuxImmutable => "LINUX_IMMUTABLE",
            Capability::NetBindService => "NET_BIND_SERVICE",
            Capability::NetBroadcast => "NET_BROADCAST",
            Capability::NetAdmin => "NET_ADMIN",
            Capability::NetRaw => "NET_RAW",
            Capability::IpcLock => "IPC_LOCK",
            Capability::IpcOwner => "IPC_OWNER",
            Capability::SysModule => "SYS_MODULE",
            Capability::SysRawio => "SYS_RAWIO",
            Capability::SysChroot => "SYS_CHROOT",
            Capability::SysPtrace => "SYS_PTRACE",
            Capability::SysPacct => "SYS_PACCT",
            Capability::SysAdmin => "SYS_ADMIN",
            Capability::SysBoot => "SYS_BOOT",
            Capability::SysNice => "SYS_NICE",
            Capability::SysResource => "SYS_RESOURCE",
            Capability::SysTime => "SYS_TIME",
            Capability::SysTtyConfig => "SYS_TTY_CONFIG",
            Capability::Mknod => "MKNOD",
            Capability::Lease => "LEASE",
            Capability::AuditWrite => "AUDIT_WRITE",
            Capability::AuditControl => "AUDIT_CONTROL",
            Capability::Setfcap => "SETFCAP",
            Capability::MacOverride => "MAC_OVERRIDE",
            Capability::MacAdmin => "MAC_ADMIN",
            Capability::Syslog => "SYSLOG",
            Capability::WakeAlarm => "WAKE_ALARM",
            Capability::BlockSuspend => "BLOCK_SUSPEND",
            Capability::AuditRead => "AUDIT_READ",
            Capability::Perfmon => "PERFMON",
            Capability::Bpf => "BPF",
            Capability::CheckpointRestore => "CHECKPOINT_RESTORE",
        }
    }
}

/// Every capability identifier, in the kernel's numbering order. The
/// resolver scans this enumeration; its order decides nothing observable,
/// since names are unambiguous.
pub open spec fn all_caps() -> Seq<Capability> {
    seq![
        Capability::Chown,
        Capability::DacOverride,
        Capability::DacReadSearch,
        Capability::Fowner,
        Capability::Fsetid,
        Capability::Kill,
        Capability::Setgid,
        Capability::Setuid,
        Capability::Setpcap,
        Capability::LinuxImmutable,
        Capability::NetBindService,
        Capability::NetBroadcast,
        Capability::NetAdmin,
        Capability::NetRaw,
        Capability::IpcLock,
        Capability::IpcOwner,
        Capability::SysModule,
        Capability::SysRawio,
        Capability::SysChroot,
        Capability::SysPtrace,
        Capability::SysPacct,
        Capability::SysAdmin,
        Capability::SysBoot,
        Capability::SysNice,
        Capability::SysResource,
        Capability::SysTime,
        Capability::SysTtyConfig,
        Capability::Mknod,
        Capability::Lease,
        Capability::AuditWrite,
        Capability::AuditControl,
        Capability::Setfcap,
        Capability::MacOverride,
        Capability::MacAdmin,
        Capability::Syslog,
        Capability::WakeAlarm,
        Capability::BlockSuspend,
        Capability::AuditRead,
        Capability::Perfmon,
        Capability::Bpf,
        Capability::CheckpointRestore,
    ]
}

/// The full enumerated domain as a vector, for the resolver's scan.
pub fn all() -> (v: Vec<Capability>)
    ensures
        v@ == all_caps(),
{
    let v: Vec<Capability> = vec![
        Capability::Chown,
        Capability::DacOverride,
        Capability::DacReadSearch,
        Capability::Fowner,
        Capability::Fsetid,
        Capability::Kill,
        Capability::Setgid,
        Capability::Setuid,
        Capability::Setpcap,
        Capability::LinuxImmutable,
        Capability::NetBindService,
        Capability::NetBroadcast,
        Capability::NetAdmin,
        Capability::NetRaw,
        Capability::IpcLock,
        Capability::IpcOwner,
        Capability::SysModule,
        Capability::SysRawio,
        Capability::SysChroot,
        Capability::SysPtrace,
        Capability::SysPacct,
        Capability::SysAdmin,
        Capability::SysBoot,
        Capability::SysNice,
        Capability::SysResource,
        Capability::SysTime,
        Capability::SysTtyConfig,
        Capability::Mknod,
        Capability::Lease,
        Capability::AuditWrite,
        Capability::AuditControl,
        Capability::Setfcap,
        Capability::MacOverride,
        Capability::MacAdmin,
        Capability::Syslog,
        Capability::WakeAlarm,
        Capability::BlockSuspend,
        Capability::AuditRead,
        Capability::Perfmon,
        Capability::Bpf,
        Capability::CheckpointRestore,
    ];
    proof {
        assert(v@ =~= all_caps());
    }
    v
}

/// The conventional prefix that may stand before a canonical name.
pub open spec fn cap_prefix() -> Seq<char> {
    "CAP_"@
}

impl Capability {
    /// The canonical name in lowercase, as the remediation hint spells it.
    pub open spec fn lower_name(self) -> Seq<char> {
        match self {
            Capability::Chown => "chown"@,
            Capability::DacOverride => "dac_override"@,
            Capability::DacReadSearch => "dac_read_search"@,
            Capability::Fowner => "fowner"@,
            Capability::Fsetid => "fsetid"@,
            Capability::Kill => "kill"@,
            Capability::Setgid => "setgid"@,
            Capability::Setuid => "setuid"@,
            Capability::Setpcap => "setpcap"@,
            Capability::LinuxImmutable => "linux_immutable"@,
            Capability::NetBindService => "net_bind_service"@,
            Capability::NetBroadcast => "net_broadcast"@,
            Capability::NetAdmin => "net_admin"@,
            Capability::NetRaw => "net_raw"@,
            Capability::IpcLock => "ipc_lock"@,
            Capability::IpcOwner => "ipc_owner"@,
            Capability::SysModule => "sys_module"@,
            Capability::SysRawio => "sys_rawio"@,
            Capability::SysChroot => "sys_chroot"@,
            Capability::SysPtrace => "sys_ptrace"@,
            Capability::SysPacct => "sys_pacct"@,
            Capability::SysAdmin => "sys_admin"@,
            Capability::SysBoot => "sys_boot"@,
            Capability::SysNice => "sys_nice"@,
            Capability::SysResource => "sys_resource"@,
            Capability::SysTime => "sys_time"@,
            Capability::SysTtyConfig => "sys_tty_config"@,
            Capability::Mknod => "mknod"@,
            Capability::Lease => "lease"@,
            Capability::AuditWrite => "audit_write"@,
            Capability::AuditControl => "audit_control"@,
            Capability::Setfcap => "setfcap"@,
            Capability::MacOverride => "mac_override"@,
            Capability::MacAdmin => "mac_admin"@,
            Capability::Syslog => "syslog"@,
            Capability::WakeAlarm => "wake_alarm"@,
            Capability::BlockSuspend => "block_suspend"@,
            Capability::AuditRead => "audit_read"@,
            Capability::Perfmon => "perfmon"@,
            Capability::Bpf => "bpf"@,
            Capability::CheckpointRestore => "checkpoint_restore"@,
        }
    }

    /// The lowercase canonical name as a string slice.
    pub fn lower_name_str(&self) -> (r: &'static str)
        ensures
            r@ == self.lower_name(),
    {
        match self {
            Capability::Chown => "chown",
            Capability::DacOverride => "dac_override",
            Capability::DacReadSearch => "dac_read_search",
            Capability::Fowner => "fowner",
            Capability::Fsetid => "fsetid",
            Capability::Kill => "kill",
            Capability::Setgid => "setgid",
            Capability::Setuid => "setuid",
            Capability::Setpcap => "setpcap",
            Capability::LinuxImmutable => "linux_immutable",
            Capability::NetBindService => "net_bind_service",
            Capability::NetBroadcast => "net_broadcast",
            Capability::NetAdmin => "net_admin",
            Capability::NetRaw => "net_raw",
            Capability::IpcLock => "ipc_lock",
            Capability::IpcOwner => "ipc_owner",
            Capability::SysModule => "sys_module",
            Capability::SysRawio => "sys_rawio",
            Capability::SysChroot => "sys_chroot",
            Capability::SysPtrace => "sys_ptrace",
            Capability::SysPacct => "sys_pacct",
            Capability::SysAdmin => "sys_admin",
            Capability::SysBoot => "sys_boot",
            Capability::SysNice => "sys_nice",
            Capability::SysResource => "sys_resource",
            Capability::SysTime => "sys_time",
            Capability::SysTtyConfig => "sys_tty_config",
            Capability::Mknod => "mknod",
            Capability::Lease => "lease",
            Capability::AuditWrite => "audit_write",
            Capability::AuditControl => "audit_control",
            Capability::Setfcap => "setfcap",
            Capability::MacOverride => "mac_override",
            Capability::MacAdmin => "mac_admin",
            Capability::Syslog => "syslog",
            Capability::WakeAlarm => "wake_alarm",
            Capability::BlockSuspend => "block_suspend",
            Capability::AuditRead => "audit_read",
            Capability::Perfmon => "perfmon",
            Capability::Bpf => "bpf",
            Capability::CheckpointRestore => "checkpoint_restore",
        }
    }

    /// The prefixed canonical name, as the capability subsystem and the
    /// status lines spell it.
    pub fn full_name(&self) -> (r: String)
        ensures
            r@ == cap_prefix() + self.base_name(),
    {
        let mut s = String::from_str("CAP_");
        s.append(self.base_name_str());
        s
    }
}


} // verus!
