use snow::mount::{
    essential_system_filesystems, evaluate_mount_attempts, make_mount_tree_private,
    network_configuration, non_essential_system_filesystems, old_root_mountpoint,
    overlay_directories, overlayfs, path_join, post_switch_workdir, squashfs, tmpfs, MountSpec,
};

#[test]
fn path_join_inserts_one_separator() {
    assert_eq!(path_join("/proc/self/fd", "lower"), "/proc/self/fd/lower");
    assert_eq!(path_join("", "x"), "/x");
}

#[test]
fn isolation_makes_the_whole_tree_private() {
    let m = make_mount_tree_private();
    assert_eq!(m.source, None);
    assert_eq!(m.target, "/");
    assert_eq!(m.fstype, None);
    assert_eq!(m.data, None);
    assert!(m.flags.make_private && m.flags.recursive);
    assert!(!m.flags.read_only && !m.flags.bind && !m.flags.remount);
    assert!(m.required);
}

#[test]
fn tmpfs_spec_is_exact() {
    let m = tmpfs("/proc/self/fd");
    assert_eq!(m.source.as_deref(), Some("tmpfs"));
    assert_eq!(m.target, "/proc/self/fd");
    assert_eq!(m.fstype.as_deref(), Some("tmpfs"));
    assert_eq!(m.data.as_deref(), Some("mode=1777"));
    assert!(!m.flags.read_only && !m.flags.bind && !m.flags.remount);
    assert!(m.required);
}

#[test]
fn squashfs_is_mounted_read_only() {
    let m = squashfs("/dev/loop3", "/proc/self/fd/lower");
    assert_eq!(m.source.as_deref(), Some("/dev/loop3"));
    assert_eq!(m.target, "/proc/self/fd/lower");
    assert_eq!(m.fstype.as_deref(), Some("squashfs"));
    assert_eq!(m.data, None);
    assert!(m.flags.read_only);
    assert!(!m.flags.bind && !m.flags.remount);
    assert!(m.required);
}

#[test]
fn overlay_options_name_the_three_layers() {
    let m = overlayfs("/proc/self/fd");
    assert_eq!(m.source.as_deref(), Some("overlay"));
    assert_eq!(m.target, "/proc/self/fd/merged");
    assert_eq!(m.fstype.as_deref(), Some("overlay"));
    assert_eq!(
        m.data.as_deref(),
        Some(
            "lowerdir=/proc/self/fd/lower,upperdir=/proc/self/fd/upper,\
             workdir=/proc/self/fd/work,xino=off"
        )
    );
    assert!(m.required);
}

#[test]
fn overlay_scaffold_has_four_directories() {
    let dirs = overlay_directories("/proc/self/fd");
    assert_eq!(
        dirs,
        vec![
            String::from("/proc/self/fd/lower"),
            String::from("/proc/self/fd/work"),
            String::from("/proc/self/fd/upper"),
            String::from("/proc/self/fd/merged"),
        ]
    );
}

#[test]
fn essential_mounts_are_all_required() {
    let root = "/proc/self/fd/merged";
    let specs = essential_system_filesystems(root);
    assert_eq!(specs.len(), 4);
    assert!(specs.iter().all(|m| m.required));
    assert_eq!(specs[0].fstype.as_deref(), Some("proc"));
    assert_eq!(specs[0].target, "/proc/self/fd/merged/proc");
    assert_eq!(specs[1].fstype.as_deref(), Some("sysfs"));
    assert_eq!(specs[1].target, "/proc/self/fd/merged/sys");
    assert_eq!(specs[2].source.as_deref(), Some("/dev"));
    assert_eq!(specs[2].fstype, None);
    assert!(specs[2].flags.bind);
    assert_eq!(specs[2].target, "/proc/self/fd/merged/dev");
    assert_eq!(specs[3].fstype.as_deref(), Some("devpts"));
    assert_eq!(specs[3].target, "/proc/self/fd/merged/dev/pts");
}

#[test]
fn best_effort_mounts_are_never_required() {
    let specs = non_essential_system_filesystems("/r");
    assert_eq!(specs.len(), 12);
    assert!(specs.iter().all(|m| !m.required));
    let names: Vec<&str> = specs.iter().map(|m| m.fstype.as_deref().unwrap()).collect();
    assert_eq!(
        names,
        vec![
            "mqueue",
            "cgroup2",
            "bpf",
            "configfs",
            "tracefs",
            "efivarfs",
            "securityfs",
            "pstore",
            "hugetlbfs",
            "binfmt_misc",
            "fusectl",
            "debugfs",
        ]
    );
    assert_eq!(specs[5].target, "/r/sys/firmware/efi/efivars");
    assert_eq!(specs[9].target, "/r/proc/sys/fs/binfmt_misc");
}

#[test]
fn network_bridge_binds_then_remounts_read_only() {
    let specs = network_configuration("/r");
    assert_eq!(specs.len(), 6);
    assert!(specs.iter().all(|m| m.required));
    let files = ["etc/resolv.conf", "etc/hostname", "etc/hosts"];
    for (k, file) in files.iter().enumerate() {
        let bind = &specs[2 * k];
        let remount = &specs[2 * k + 1];
        assert_eq!(bind.source.as_deref(), Some(format!("/{file}").as_str()));
        assert_eq!(bind.target, format!("/r/{file}"));
        assert!(bind.flags.bind && !bind.flags.remount && !bind.flags.read_only);
        assert_eq!(remount.source, None);
        assert_eq!(remount.target, format!("/r/{file}"));
        assert!(remount.flags.bind && remount.flags.remount && remount.flags.read_only);
    }
}

#[test]
fn all_successes_let_the_boot_proceed() {
    let specs = essential_system_filesystems("/r");
    let ok = vec![true; specs.len()];
    assert_eq!(evaluate_mount_attempts(&specs, &ok), None);
}

#[test]
fn unsupported_optional_filesystem_does_not_block_boot() {
    // the host kernel lacks efivarfs: its mount (index 5) fails
    let specs = non_essential_system_filesystems("/r");
    let mut ok = vec![true; specs.len()];
    ok[5] = false;
    assert_eq!(evaluate_mount_attempts(&specs, &ok), None);
}

#[test]
fn any_subset_of_optional_failures_is_tolerated() {
    let specs = non_essential_system_filesystems("/r");
    for mask in 0u32..(1 << 12) {
        let ok: Vec<bool> = (0..12).map(|b| mask & (1 << b) == 0).collect();
        assert_eq!(evaluate_mount_attempts(&specs, &ok), None);
    }
}

#[test]
fn failed_required_mount_is_fatal() {
    let specs = essential_system_filesystems("/r");
    let mut ok = vec![true; specs.len()];
    ok[2] = false; // the bind of the host's /dev
    assert_eq!(evaluate_mount_attempts(&specs, &ok), Some(2));
}

#[test]
fn first_fatal_failure_is_reported() {
    let specs = network_configuration("/r");
    let ok = vec![true, false, true, false, true, true];
    assert_eq!(evaluate_mount_attempts(&specs, &ok), Some(1));
}

#[test]
fn optional_failures_before_a_required_one_are_passed_over() {
    let mut specs: Vec<MountSpec> = non_essential_system_filesystems("/r");
    specs.extend(essential_system_filesystems("/r"));
    let mut ok = vec![false; 12];
    ok.extend(vec![true, true, false, true]);
    assert_eq!(evaluate_mount_attempts(&specs, &ok), Some(14));
}

#[test]
fn old_root_lands_at_mnt_root() {
    assert_eq!(old_root_mountpoint("/proc/self/fd/merged"), "/proc/self/fd/merged/mnt/root");
    assert_eq!(post_switch_workdir(), "/");
}
