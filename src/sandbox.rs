//! The isolation a child runs under, as plain values: namespaces, mounts,
//! filesystem rules, the system-call denylist and the resource limits.
use vstd::prelude::*;
use vstd::string::StringExecFns;
use crate::types::Execution;

verus! {

/// Guest path at which the scratch directory is mounted.
pub const SCRATCH_GUEST_PATH: &'static str = "/box";

#[derive(Debug, Clone, Copy, PartialEq, Eq, Structural)]
pub enum Namespace {
    Cgroup,
    Ipc,
    Uts,
    Network,
}

/// Access granted to a directory tree by the filesystem policy.
#[derive(Debug, Clone, Copy, PartialEq, Eq, Structural)]
pub enum Access {
    ReadExecute,
    ReadWriteExecute,
}

#[derive(Debug, Clone)]
pub struct PathRule {
    pub path: String,
    pub access: Access,
}

/// System-call ABIs that the filter covers.
#[derive(Debug, Clone, Copy, PartialEq, Eq, Structural)]
pub enum Arch {
    X8664,
    X86,
    X32,
}

/// The container template of one worker. Calls not on `banned_syscalls` are
/// allowed; those on it fail with the errno `SIGSYS`.
#[derive(Debug, Clone)]
pub struct SandboxProfile {
    pub namespaces: Vec<Namespace>,
    /// Host directory mounted as the guest root.
    pub rootfs: String,
    /// Host directory mounted read-write at `scratch_guest`.
    pub scratch_host: String,
    pub scratch_guest: String,
    pub path_rules: Vec<PathRule>,
    pub banned_syscalls: Vec<String>,
    pub archs: Vec<Arch>,
    /// Collect `VmRSS` and the smaps rollup of the child.
    pub collect_proc_status: bool,
}

#[derive(Debug, Clone, Copy, PartialEq, Eq, Structural)]
pub enum Resource {
    Cpu,
    AddressSpace,
    Stack,
}

#[derive(Debug, Clone, Copy, PartialEq, Eq, Structural)]
pub struct RlimitSetting {
    pub resource: Resource,
    pub soft: u64,
    pub hard: u64,
}

pub open spec fn sandbox_namespaces() -> Seq<Namespace> {
    seq![Namespace::Cgroup, Namespace::Ipc, Namespace::Uts, Namespace::Network]
}

pub open spec fn sandbox_archs() -> Seq<Arch> {
    seq![Arch::X8664, Arch::X86, Arch::X32]
}

pub open spec fn banned_syscall_names() -> Seq<Seq<char>> {
    seq![
        "mount"@, "umount"@, "poweroff"@, "reboot"@, "socket"@,
        "bind"@, "connect"@, "listen"@, "sendto"@, "recvfrom"@,
    ]
}

/// Directory trees of the policy with their access, in order.
pub open spec fn path_policy() -> Seq<(Seq<char>, Access)> {
    seq![
        ("/bin"@, Access::ReadExecute),
        ("/lib"@, Access::ReadExecute),
        ("/usr"@, Access::ReadExecute),
        ("/box"@, Access::ReadWriteExecute),
    ]
}

impl SandboxProfile {
    pub open spec fn rules_view(&self) -> Seq<(Seq<char>, Access)> {
        self.path_rules@.map_values(|r: PathRule| (r.path@, r.access))
    }

    pub open spec fn banned_view(&self) -> Seq<Seq<char>> {
        self.banned_syscalls@.map_values(|s: String| s@)
    }

    /// The profile of a worker whose scratch directory is `scratch` on the host.
    pub open spec fn is_template_for(&self, scratch: Seq<char>) -> bool {
        &&& self.namespaces@ == sandbox_namespaces()
        &&& self.rootfs@ == "/"@
        &&& self.scratch_host@ == scratch
        &&& self.scratch_guest@ == "/box"@
        &&& self.rules_view() == path_policy()
        &&& self.banned_view() == banned_syscall_names()
        &&& self.archs@ == sandbox_archs()
        &&& self.collect_proc_status
    }

    /// The container template for the scratch directory `scratch`.
    pub fn template(scratch: &String) -> (r: SandboxProfile)
        ensures
            r.is_template_for(scratch@),
    {
        let namespaces = vec![Namespace::Cgroup, Namespace::Ipc, Namespace::Uts, Namespace::Network];
        let path_rules = vec![
            PathRule { path: String::from_str("/bin"), access: Access::ReadExecute },
            PathRule { path: String::from_str("/lib"), access: Access::ReadExecute },
            PathRule { path: String::from_str("/usr"), access: Access::ReadExecute },
            PathRule { path: String::from_str(SCRATCH_GUEST_PATH), access: Access::ReadWriteExecute },
        ];
        let banned_syscalls = vec![
            String::from_str("mount"),
            String::from_str("umount"),
            String::from_str("poweroff"),
            String::from_str("reboot"),
            String::from_str("socket"),
            String::from_str("bind"),
            String::from_str("connect"),
            String::from_str("listen"),
            String::from_str("sendto"),
            String::from_str("recvfrom"),
        ];
        let r = SandboxProfile {
            namespaces,
            rootfs: String::from_str("/"),
            scratch_host: scratch.clone(),
            scratch_guest: String::from_str(SCRATCH_GUEST_PATH),
            path_rules,
            banned_syscalls,
            archs: vec![Arch::X8664, Arch::X86, Arch::X32],
            collect_proc_status: true,
        };
        proof {
            assert(r.namespaces@ =~= sandbox_namespaces());
            assert(r.archs@ =~= sandbox_archs());
            assert(r.rules_view() =~= path_policy());
            assert(r.banned_view() =~= banned_syscall_names());
        }
        r
    }
}

/// The limits of one execution: CPU seconds, then address space and stack in bytes.
pub open spec fn limits_of(e: Execution) -> Seq<RlimitSetting> {
    seq![
        RlimitSetting { resource: Resource::Cpu, soft: e.time_limit, hard: e.time_limit },
        RlimitSetting { resource: Resource::AddressSpace, soft: e.memory_limit, hard: e.memory_limit },
        RlimitSetting { resource: Resource::Stack, soft: e.memory_limit, hard: e.memory_limit },
    ]
}

/// The resource limits that the child of `e` runs under.
pub fn limits_for(e: &Execution) -> (r: Vec<RlimitSetting>)
    ensures
        r@ == limits_of(*e),
{
    let r = vec![
        RlimitSetting { resource: Resource::Cpu, soft: e.time_limit, hard: e.time_limit },
        RlimitSetting { resource: Resource::AddressSpace, soft: e.memory_limit, hard: e.memory_limit },
        RlimitSetting { resource: Resource::Stack, soft: e.memory_limit, hard: e.memory_limit },
    ];
    proof {
        assert(r@ =~= limits_of(*e));
    }
    r
}

} // verus!
