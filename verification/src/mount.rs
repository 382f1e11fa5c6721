//! Declarative mount planning.
//!
//! Each kernel mount the boot performs is described first as a `MountSpec`:
//! source, target, filesystem type, flags, data, and whether its failure is
//! fatal. The builders here produce, fully specified, the exact sequences
//! of mounts the boot pipeline issues — the overlay scaffold, the
//! required pseudo filesystems, the best-effort ones, and the host network
//! configuration bridge — and `evaluate_mount_attempts` decides from the
//! outcomes whether the boot may proceed. The unverified driver does
//! nothing but hand each spec to the kernel and report what happened.

use vstd::prelude::*;
use vstd::string::StringExecFns;

verus! {

/// The mount flags the pipeline uses, as plain booleans; the driver maps
/// them onto the kernel's flag bits.
#[derive(Clone, Copy, Debug, PartialEq, Eq, Structural)]
pub struct MountFlags {
    /// Mount (or remount) read-only.
    pub read_only: bool,
    /// Bind an existing subtree rather than mount a filesystem.
    pub bind: bool,
    /// Change an existing mount in place.
    pub remount: bool,
    /// Apply to the whole subtree.
    pub recursive: bool,
    /// Stop mount-event propagation to other namespaces.
    pub make_private: bool,
}

/// No flags at all.
pub open spec fn no_flags() -> MountFlags {
    MountFlags {
        read_only: false,
        bind: false,
        remount: false,
        recursive: false,
        make_private: false,
    }
}

impl MountFlags {
    /// The empty flag set.
    pub fn empty() -> (r: MountFlags)
        ensures
            r == no_flags(),
    {
        MountFlags {
            read_only: false,
            bind: false,
            remount: false,
            recursive: false,
            make_private: false,
        }
    }
}

/// One mount operation, and whether its failure aborts the boot.
pub struct MountSpec {
    /// What is mounted: a device path, a pseudo filesystem name, or the
    /// subtree a bind mount copies; `None` for a remount.
    pub source: Option<String>,
    /// The directory the mount covers.
    pub target: String,
    /// The filesystem type, `None` for bind mounts and remounts.
    pub fstype: Option<String>,
    /// Filesystem-specific option string.
    pub data: Option<String>,
    /// The flags of the operation.
    pub flags: MountFlags,
    /// Whether failure of this mount is fatal to the boot.
    pub required: bool,
}

/// The mathematical model of a `MountSpec`: the same fields over character
/// sequences.
pub struct MountModel {
    pub source: Option<Seq<char>>,
    pub target: Seq<char>,
    pub fstype: Option<Seq<char>>,
    pub data: Option<Seq<char>>,
    pub flags: MountFlags,
    pub required: bool,
}

impl View for MountSpec {
    type V = MountModel;

    open spec fn view(&self) -> MountModel {
        MountModel {
            source: self.source.deep_view(),
            target: self.target@,
            fstype: self.fstype.deep_view(),
            data: self.data.deep_view(),
            flags: self.flags,
            required: self.required,
        }
    }
}

impl DeepView for MountSpec {
    type V = MountModel;

    open spec fn deep_view(&self) -> MountModel {
        self.view()
    }
}

/// `base` extended by one relative path component.
pub open spec fn path_of(base: Seq<char>, rel: Seq<char>) -> Seq<char> {
    base + "/"@ + rel
}

/// Join a base directory and a relative path.
pub fn path_join(base: &str, rel: &str) -> (r: String)
    ensures
        r@ == path_of(base@, rel@),
{
    let mut s = String::from_str(base);
    s.append("/");
    s.append(rel);
    s
}

/// A pseudo filesystem mounted under its own type name.
pub open spec fn pseudo_fs_model(fstype: Seq<char>, target: Seq<char>, required: bool) -> MountModel {
    MountModel {
        source: Some(fstype),
        target: target,
        fstype: Some(fstype),
        data: None,
        flags: no_flags(),
        required: required,
    }
}

/// A bind mount of a host subtree.
pub open spec fn bind_model(source: Seq<char>, target: Seq<char>, required: bool) -> MountModel {
    MountModel {
        source: Some(source),
        target: target,
        fstype: None,
        data: None,
        flags: MountFlags {
            read_only: false,
            bind: true,
            remount: false,
            recursive: false,
            make_private: false,
        },
        required: required,
    }
}

/// An in-place remount of an existing bind mount, making it read-only.
pub open spec fn remount_read_only_model(target: Seq<char>) -> MountModel {
    MountModel {
        source: None,
        target: target,
        fstype: None,
        data: None,
        flags: MountFlags {
            read_only: true,
            bind: true,
            remount: true,
            recursive: false,
            make_private: false,
        },
        required: true,
    }
}

/// Build the spec of a pseudo filesystem mount.
fn pseudo_fs(fstype: &str, target: String, required: bool) -> (m: MountSpec)
    ensures
        m@ == pseudo_fs_model(fstype@, target@, required),
{
    MountSpec {
        source: Some(String::from_str(fstype)),
        target: target,
        fstype: Some(String::from_str(fstype)),
        data: None,
        flags: MountFlags::empty(),
        required: required,
    }
}

/// Build the spec of a bind mount.
fn bind_mount(source: &str, target: String, required: bool) -> (m: MountSpec)
    ensures
        m@ == bind_model(source@, target@, required),
{
    MountSpec {
        source: Some(String::from_str(source)),
        target: target,
        fstype: None,
        data: None,
        flags: MountFlags {
            read_only: false,
            bind: true,
            remount: false,
            recursive: false,
            make_private: false,
        },
        required: required,
    }
}

/// The in-memory scratch filesystem backing the overlay's writable layers,
/// world-writable with the sticky bit as a temporary directory should be.
pub open spec fn tmpfs_model(target: Seq<char>) -> MountModel {
    MountModel {
        source: Some("tmpfs"@),
        target: target,
        fstype: Some("tmpfs"@),
        data: Some("mode=1777"@),
        flags: no_flags(),
        required: true,
    }
}

/// The mount exposing an in-memory filesystem at `target`, backing the
/// overlay's writable layers.
pub fn tmpfs(target: &str) -> (m: MountSpec)
    ensures
        m@ == tmpfs_model(target@),
{
    MountSpec {
        source: Some(String::from_str("tmpfs")),
        target: String::from_str(target),
        fstype: Some(String::from_str("tmpfs")),
        data: Some(String::from_str("mode=1777")),
        flags: MountFlags::empty(),
        required: true,
    }
}

/// The read-only mount of the embedded image's block device.
pub open spec fn squashfs_model(device: Seq<char>, target: Seq<char>) -> MountModel {
    MountModel {
        source: Some(device),
        target: target,
        fstype: Some("squashfs"@),
        data: None,
        flags: MountFlags {
            read_only: true,
            bind: false,
            remount: false,
            recursive: false,
            make_private: false,
        },
        required: true,
    }
}

/// The mount presenting the embedded image's block device, read-only, at
/// `target`.
pub fn squashfs(loop_device_path: &str, target: &str) -> (m: MountSpec)
    ensures
        m@ == squashfs_model(loop_device_path@, target@),
{
    MountSpec {
        source: Some(String::from_str(loop_device_path)),
        target: String::from_str(target),
        fstype: Some(String::from_str("squashfs")),
        data: None,
        flags: MountFlags {
            read_only: true,
            bind: false,
            remount: false,
            recursive: false,
            make_private: false,
        },
        required: true,
    }
}

/// The option string of the overlay mount staged under `base`.
pub open spec fn overlay_options(base: Seq<char>) -> Seq<char> {
    "lowerdir="@ + path_of(base, "lower"@) + ",upperdir="@ + path_of(base, "upper"@) + ",workdir="@
        + path_of(base, "work"@) + ",xino=off"@
}

/// The overlay mount composing `lower`, `upper` and `work` under `base`
/// into the view at `merged`.
pub open spec fn overlayfs_model(base: Seq<char>) -> MountModel {
    MountModel {
        source: Some("overlay"@),
        target: path_of(base, "merged"@),
        fstype: Some("overlay"@),
        data: Some(overlay_options(base)),
        flags: no_flags(),
        required: true,
    }
}

/// The mount composing the writable overlay at `base/merged` out of the
/// three layer directories under `base`.
pub fn overlayfs(base: &str) -> (m: MountSpec)
    ensures
        m@ == overlayfs_model(base@),
{
    let mut options = String::from_str("lowerdir=");
    let lower = path_join(base, "lower");
    options.append(lower.as_str());
    options.append(",upperdir=");
    let upper = path_join(base, "upper");
    options.append(upper.as_str());
    options.append(",workdir=");
    let work = path_join(base, "work");
    options.append(work.as_str());
    options.append(",xino=off");
    proof {
        assert(options@ =~= overlay_options(base@));
    }
    MountSpec {
        source: Some(String::from_str("overlay")),
        target: path_join(base, "merged"),
        fstype: Some(String::from_str("overlay")),
        data: Some(options),
        flags: MountFlags::empty(),
        required: true,
    }
}

/// The four directories of the overlay scaffold under `base`, in the order
/// they are created.
pub open spec fn overlay_directory_plan(base: Seq<char>) -> Seq<Seq<char>> {
    seq![
        path_of(base, "lower"@),
        path_of(base, "work"@),
        path_of(base, "upper"@),
        path_of(base, "merged"@),
    ]
}

/// The directories to create, owner-only, before the overlay is mounted.
pub fn overlay_directories(base: &str) -> (r: Vec<String>)
    ensures
        r.deep_view() == overlay_directory_plan(base@),
{
    let mut r: Vec<String> = Vec::new();
    r.push(path_join(base, "lower"));
    r.push(path_join(base, "work"));
    r.push(path_join(base, "upper"));
    r.push(path_join(base, "merged"));
    proof {
        assert(r.deep_view() =~~= overlay_directory_plan(base@));
    }
    r
}

/// The required mounts under the new root: `proc`, `sysfs`, a bind of the
/// host's `/dev`, and `devpts`. Every one is fatal on failure.
pub open spec fn essential_plan(root: Seq<char>) -> Seq<MountModel> {
    seq![
        pseudo_fs_model("proc"@, path_of(root, "proc"@), true),
        pseudo_fs_model("sysfs"@, path_of(root, "sys"@), true),
        bind_model("/dev"@, path_of(root, "dev"@), true),
        pseudo_fs_model("devpts"@, path_of(root, "dev/pts"@), true),
    ]
}

/// The mounts no shell environment is usable without, in order.
pub fn essential_system_filesystems(root: &str) -> (r: Vec<MountSpec>)
    ensures
        r.deep_view() == essential_plan(root@),
        forall|i: int| 0 <= i < r.deep_view().len() ==> r.deep_view()[i].required,
{
    let mut r: Vec<MountSpec> = Vec::new();
    r.push(pseudo_fs("proc", path_join(root, "proc"), true));
    r.push(pseudo_fs("sysfs", path_join(root, "sys"), true));
    r.push(bind_mount("/dev", path_join(root, "dev"), true));
    r.push(pseudo_fs("devpts", path_join(root, "dev/pts"), true));
    proof {
        assert(r.deep_view() =~~= essential_plan(root@));
    }
    r
}

/// The best-effort mounts under the new root, each attempted independently
/// and none fatal on failure.
pub open spec fn best_effort_plan(root: Seq<char>) -> Seq<MountModel> {
    seq![
        pseudo_fs_model("mqueue"@, path_of(root, "dev/mqueue"@), false),
        pseudo_fs_model("cgroup2"@, path_of(root, "sys/fs/cgroup"@), false),
        pseudo_fs_model("bpf"@, path_of(root, "sys/fs/bpf"@), false),
        pseudo_fs_model("configfs"@, path_of(root, "sys/kernel/config"@), false),
        pseudo_fs_model("tracefs"@, path_of(root, "sys/kernel/tracing"@), false),
        pseudo_fs_model("efivarfs"@, path_of(root, "sys/firmware/efi/efivars"@), false),
        pseudo_fs_model("securityfs"@, path_of(root, "sys/kernel/security"@), false),
        pseudo_fs_model("pstore"@, path_of(root, "sys/fs/pstore"@), false),
        pseudo_fs_model("hugetlbfs"@, path_of(root, "dev/hugepages"@), false),
        pseudo_fs_model("binfmt_misc"@, path_of(root, "proc/sys/fs/binfmt_misc"@), false),
        pseudo_fs_model("fusectl"@, path_of(root, "sys/fs/fuse/connections"@), false),
        pseudo_fs_model("debugfs"@, path_of(root, "sys/kernel/debug"@), false),
    ]
}

/// The mounts a shell environment benefits from but can live without.
pub fn non_essential_system_filesystems(root: &str) -> (r: Vec<MountSpec>)
    ensures
        r.deep_view() == best_effort_plan(root@),
        forall|i: int| 0 <= i < r.deep_view().len() ==> !r.deep_view()[i].required,
{
    let mut r: Vec<MountSpec> = Vec::new();
    r.push(pseudo_fs("mqueue", path_join(root, "dev/mqueue"), false));
    r.push(pseudo_fs("cgroup2", path_join(root, "sys/fs/cgroup"), false));
    r.push(pseudo_fs("bpf", path_join(root, "sys/fs/bpf"), false));
    r.push(pseudo_fs("configfs", path_join(root, "sys/kernel/config"), false));
    r.push(pseudo_fs("tracefs", path_join(root, "sys/kernel/tracing"), false));
    r.push(pseudo_fs("efivarfs", path_join(root, "sys/firmware/efi/efivars"), false));
    r.push(pseudo_fs("securityfs", path_join(root, "sys/kernel/security"), false));
    r.push(pseudo_fs("pstore", path_join(root, "sys/fs/pstore"), false));
    r.push(pseudo_fs("hugetlbfs", path_join(root, "dev/hugepages"), false));
    r.push(pseudo_fs("binfmt_misc", path_join(root, "proc/sys/fs/binfmt_misc"), false));
    r.push(pseudo_fs("fusectl", path_join(root, "sys/fs/fuse/connections"), false));
    r.push(pseudo_fs("debugfs", path_join(root, "sys/kernel/debug"), false));
    proof {
        assert(r.deep_view() =~~= best_effort_plan(root@));
    }
    r
}

/// The host network configuration bridge: each of the three files is bind
/// mounted from the host and then remounted read-only in place. Every one
/// is fatal on failure.
pub open spec fn network_plan(root: Seq<char>) -> Seq<MountModel> {
    seq![
        bind_model("/etc/resolv.conf"@, path_of(root, "etc/resolv.conf"@), true),
        remount_read_only_model(path_of(root, "etc/resolv.conf"@)),
        bind_model("/etc/hostname"@, path_of(root, "etc/hostname"@), true),
        remount_read_only_model(path_of(root, "etc/hostname"@)),
        bind_model("/etc/hosts"@, path_of(root, "etc/hosts"@), true),
        remount_read_only_model(path_of(root, "etc/hosts"@)),
    ]
}

/// Build one read-only remount spec.
fn remount_read_only(target: String) -> (m: MountSpec)
    ensures
        m@ == remount_read_only_model(target@),
{
    MountSpec {
        source: None,
        target: target,
        fstype: None,
        data: None,
        flags: MountFlags {
            read_only: true,
            bind: true,
            remount: true,
            recursive: false,
            make_private: false,
        },
        required: true,
    }
}

/// The mounts bridging the host's DNS and hostname configuration into the
/// new root, read-only.
pub fn network_configuration(root: &str) -> (r: Vec<MountSpec>)
    ensures
        r.deep_view() == network_plan(root@),
        forall|i: int| 0 <= i < r.deep_view().len() ==> r.deep_view()[i].required,
{
    let mut r: Vec<MountSpec> = Vec::new();
    r.push(bind_mount("/etc/resolv.conf", path_join(root, "etc/resolv.conf"), true));
    r.push(remount_read_only(path_join(root, "etc/resolv.conf")));
    r.push(bind_mount("/etc/hostname", path_join(root, "etc/hostname"), true));
    r.push(remount_read_only(path_join(root, "etc/hostname")));
    r.push(bind_mount("/etc/hosts", path_join(root, "etc/hosts"), true));
    r.push(remount_read_only(path_join(root, "etc/hosts")));
    proof {
        assert(r.deep_view() =~~= network_plan(root@));
    }
    r
}

/// The mount operation that, right after the namespace is detached, marks
/// the whole mount tree at `/` as non-propagating, so that no later mount
/// can be observed outside the new namespace.
pub open spec fn make_private_model() -> MountModel {
    MountModel {
        source: None,
        target: "/"@,
        fstype: None,
        data: None,
        flags: MountFlags {
            read_only: false,
            bind: false,
            remount: false,
            recursive: true,
            make_private: true,
        },
        required: true,
    }
}

/// The mount that makes the tree at `/` private and recursive; it must be
/// issued before any other mount of the boot.
pub fn make_mount_tree_private() -> (m: MountSpec)
    ensures
        m@ == make_private_model(),
{
    MountSpec {
        source: None,
        target: String::from_str("/"),
        fstype: None,
        data: None,
        flags: MountFlags {
            read_only: false,
            bind: false,
            remount: false,
            recursive: true,
            make_private: true,
        },
        required: true,
    }
}

/// The fixed path, relative to the new root, at which the old root is left
/// mounted after the root switch.
pub open spec fn old_root_relative_path() -> Seq<char> {
    "mnt/root"@
}

/// The mountpoint inside the new root that receives the old root when the
/// root is switched; it must exist as a directory before the switch.
pub fn old_root_mountpoint(new_root: &str) -> (r: String)
    ensures
        r@ == path_of(new_root@, old_root_relative_path()),
{
    path_join(new_root, "mnt/root")
}

/// The working directory the process changes into once the switch is
/// done: the new root itself.
pub fn post_switch_workdir() -> (r: &'static str)
    ensures
        r@ == "/"@,
{
    "/"
}

/// A sequence of attempted mounts is fatal exactly when some mount marked
/// required failed.
pub open spec fn wiring_fatal(specs: Seq<MountModel>, ok: Seq<bool>) -> bool {
    exists|i: int| 0 <= i < specs.len() && specs[i].required && !ok[i]
}

/// Judge the outcomes of a sequence of mount attempts: the index of the
/// first required mount that failed, or `None` when the boot may proceed.
pub fn evaluate_mount_attempts(specs: &Vec<MountSpec>, ok: &Vec<bool>) -> (r: Option<usize>)
    requires
        specs@.len() == ok@.len(),
    ensures
        match r {
            Some(i) => i < specs@.len() && specs.deep_view()[i as int].required && !ok@[i as int]
                && forall|j: int|
                0 <= j < i ==> !(specs.deep_view()[j].required && !ok@[j]),
            None => !wiring_fatal(specs.deep_view(), ok@),
        },
{
    let mut i: usize = 0;
    while i < specs.len()
        invariant
            0 <= i <= specs@.len(),
            specs@.len() == ok@.len(),
            forall|j: int| 0 <= j < i ==> !(specs.deep_view()[j].required && !ok@[j]),
        decreases specs@.len() - i,
    {
        if specs[i].required && !ok[i] {
            return Some(i);
        }
        i = i + 1;
    }
    None
}

/// Best-effort independence: however the mounts not marked required fare,
/// outcomes in which every required mount succeeded are never fatal.
pub proof fn lemma_best_effort_independence(specs: Seq<MountModel>, ok: Seq<bool>)
    requires
        specs.len() == ok.len(),
        forall|i: int| 0 <= i < specs.len() && specs[i].required ==> ok[i],
    ensures
        !wiring_fatal(specs, ok),
{
}

/// No failure among the best-effort filesystems ever blocks the boot: the
/// best-effort plan is never fatal, whatever the outcomes.
pub proof fn lemma_best_effort_plan_never_fatal(root: Seq<char>, ok: Seq<bool>)
    ensures
        !wiring_fatal(best_effort_plan(root), ok),
{
    assert forall|i: int|
        0 <= i < best_effort_plan(root).len() implies !best_effort_plan(root)[i].required by {}
}

} // verus!
