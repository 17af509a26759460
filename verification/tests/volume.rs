use sd_mobile_core::scan::{chars_of, contains, last_segment, next_field, text_of, trim};
use sd_mobile_core::volume::{
    create_volume, data_dir, detect_volumes, external_volume, get_device_name,
    is_external_candidate, is_removable_storage, query_device_storage, removable_after_sysfs,
    removable_from,
    AndroidVolumeInfo, DetectedVolume, MountType, RemovableStep, StatOutcome, VolumeType,
};

fn info(total: u64, available: u64, mount_point: &str) -> AndroidVolumeInfo {
    AndroidVolumeInfo {
        total_capacity: total,
        available_capacity: available,
        mount_point: mount_point.to_string(),
    }
}

const MOUNTS: &str = "\
/dev/block/dm-5 / ext4 ro,seclabel,relatime 0 0
tmpfs /dev tmpfs rw,seclabel,nosuid 0 0
/dev/fuse /storage/emulated fuse rw,lazytime 0 0
/dev/block/vold/public:179,65 /mnt/media_rw/1234-5678 vfat rw 0 0
/dev/block/sdc1\t/storage/ABCD-EF01  exfat rw 0 0
/dev/block/mmcblk1p1 /storage/CARD ext4 rw 0 0
";

#[test]
fn capacities_are_blocks_times_fragment_size() {
    let stats = StatOutcome::Stats { blocks: 1000, available_blocks: 250, fragment_size: 4096 };
    assert_eq!(query_device_storage("/data", stats), Ok(info(4_096_000, 1_024_000, "/data")));
    let none = StatOutcome::Stats { blocks: 0, available_blocks: 0, fragment_size: 4096 };
    assert_eq!(query_device_storage("/x", none), Ok(info(0, 0, "/x")));
}

#[test]
fn capacity_that_does_not_fit_is_the_largest_that_does() {
    let stats = StatOutcome::Stats { blocks: u64::MAX, available_blocks: 2, fragment_size: 2 };
    assert_eq!(query_device_storage("/data", stats), Ok(info(u64::MAX, 4, "/data")));
    let edge = StatOutcome::Stats { blocks: 1 << 32, available_blocks: (1 << 32) - 1, fragment_size: 1 << 32 };
    assert_eq!(
        query_device_storage("/data", edge),
        Ok(info(u64::MAX, ((1u64 << 32) - 1) << 32, "/data"))
    );
}

#[test]
fn failed_queries_say_why() {
    assert_eq!(
        query_device_storage("/data", StatOutcome::InvalidPath),
        Err("Invalid data directory path".to_string())
    );
    assert_eq!(
        query_device_storage("/da\0ta", StatOutcome::BadCString("nul byte found".to_string())),
        Err("Failed to create CString: nul byte found".to_string())
    );
    assert_eq!(
        query_device_storage("/data", StatOutcome::Failed("Permission denied (os error 13)".to_string())),
        Err("statvfs failed: Permission denied (os error 13)".to_string())
    );
}

#[test]
fn device_name_is_the_model_in_the_build_properties() {
    let props = "# begin build properties\nro.build.id=AP2A\nro.product.model=Pixel 8a\nro.product.name=akita\n";
    assert_eq!(get_device_name(Some(props), Some("host")), "Pixel 8a");
    assert_eq!(get_device_name(Some("ro.product.model=  SM-G991B \r\n"), None), "SM-G991B");
    assert_eq!(get_device_name(Some("ro.product.model=X"), None), "X");
}

#[test]
fn model_without_a_value_is_passed_over() {
    let props = "ro.product.model=\nro.product.model=   \nro.product.model=Second\n";
    assert_eq!(get_device_name(Some(props), None), "Second");
    assert_eq!(get_device_name(Some("ro.product.model=\n"), Some("tablet")), "tablet");
    assert_eq!(get_device_name(Some(" ro.product.model=Indented\n"), Some("tablet")), "tablet");
    assert_eq!(get_device_name(Some("ro.product.modelx=No\n"), None), "Android Device");
}

#[test]
fn host_name_comes_second_and_the_generic_name_last() {
    assert_eq!(get_device_name(None, Some("  my-phone\n")), "my-phone");
    assert_eq!(get_device_name(Some(""), Some("my-phone")), "my-phone");
    assert_eq!(get_device_name(None, Some("localhost\n")), "Android Device");
    assert_eq!(get_device_name(None, Some("localhost.localdomain")), "localhost.localdomain");
    assert_eq!(get_device_name(None, Some(" \n")), "Android Device");
    assert_eq!(get_device_name(None, None), "Android Device");
}

#[test]
fn volumes_are_made_from_their_storage() {
    let volume = create_volume(
        &info(10, 4, "/data/data/app"),
        "App Storage".to_string(),
        "App Storage".to_string(),
        VolumeType::Primary,
    );
    assert_eq!(
        volume,
        DetectedVolume {
            name: "App Storage".to_string(),
            display_name: "App Storage".to_string(),
            mount_point: "/data/data/app".to_string(),
            volume_type: VolumeType::Primary,
            mount_type: MountType::System,
            total_capacity: 10,
            available_space: 4,
        }
    );
}

#[test]
fn external_volumes_are_named_after_what_they_are() {
    let card = external_volume("1234-5678", &info(64, 32, "/storage/1234-5678"), true);
    assert_eq!(card.display_name, "SD Card (1234-5678)");
    assert_eq!(card.name, "1234-5678");
    assert_eq!(card.mount_type, MountType::External);
    assert_eq!(card.volume_type, VolumeType::External);
    assert_eq!((card.total_capacity, card.available_space), (64, 32));
    let disk = external_volume("usb0", &info(64, 32, "/mnt/usb/usb0"), false);
    assert_eq!(disk.display_name, "External Storage (usb0)");
    assert_eq!(disk.mount_type, MountType::System);
    assert_eq!(disk.volume_type, VolumeType::External);
    assert_eq!(disk.mount_point, "/mnt/usb/usb0");
}

#[test]
fn primary_storage_is_no_external_candidate() {
    assert!(!is_external_candidate("emulated", true));
    assert!(!is_external_candidate("self", true));
    assert!(!is_external_candidate("1234-5678", false));
    assert!(is_external_candidate("1234-5678", true));
    assert!(is_external_candidate("emulated0", true));
    assert!(is_external_candidate("Self", true));
    assert!(is_external_candidate("", true));
}

#[test]
fn storage_under_the_removable_roots_is_removable() {
    assert_eq!(
        is_removable_storage(Some(MOUNTS), "/mnt/media_rw/1234-5678"),
        RemovableStep::Decided(true)
    );
}

#[test]
fn other_block_devices_are_asked_about() {
    let end_of_line = MOUNTS.find("/dev/block/sdc1").unwrap() + "/dev/block/sdc1\t/storage/ABCD-EF01  exfat rw 0 0".len();
    assert_eq!(
        is_removable_storage(Some(MOUNTS), "/storage/ABCD-EF01"),
        RemovableStep::ReadSysfs { path: "/sys/block/sdc1/removable".to_string(), resume: end_of_line }
    );
    assert_eq!(
        removable_after_sysfs(MOUNTS, "/storage/ABCD-EF01", end_of_line, Some("1\n")),
        RemovableStep::Decided(true)
    );
    assert_eq!(
        removable_after_sysfs(MOUNTS, "/storage/ABCD-EF01", end_of_line, Some("0\n")),
        RemovableStep::Decided(false)
    );
    assert_eq!(
        removable_after_sysfs(MOUNTS, "/storage/ABCD-EF01", end_of_line, Some("11")),
        RemovableStep::Decided(false)
    );
    // No answer: the rest of the table has no line for the mount point, so
    // the mount point decides.
    assert_eq!(
        removable_after_sysfs(MOUNTS, "/storage/ABCD-EF01", end_of_line, None),
        RemovableStep::Decided(true)
    );
}

#[test]
fn scanning_goes_on_after_a_line_that_gave_no_answer() {
    let table = "/dev/block/a /storage/X ext4\n/dev/block/b /storage/X ext4\n";
    let first = is_removable_storage(Some(table), "/storage/X");
    assert_eq!(first, RemovableStep::ReadSysfs { path: "/sys/block/a/removable".to_string(), resume: 28 });
    let second = removable_after_sysfs(table, "/storage/X", 28, None);
    assert_eq!(second, RemovableStep::ReadSysfs { path: "/sys/block/b/removable".to_string(), resume: 57 });
    assert_eq!(removable_after_sysfs(table, "/storage/X", 57, None), RemovableStep::Decided(true));
    assert_eq!(removable_after_sysfs(table, "/storage/X", 5000, None), RemovableStep::Decided(true));
    assert_eq!(removable_after_sysfs(table, "/storage/X", usize::MAX, None), RemovableStep::Decided(true));
}

#[test]
fn the_mount_point_decides_where_the_table_does_not() {
    assert_eq!(is_removable_storage(None, "/storage/emulated/0"), RemovableStep::Decided(false));
    assert_eq!(is_removable_storage(None, "/storage/self/primary"), RemovableStep::Decided(false));
    assert_eq!(is_removable_storage(None, "/storage/1234-5678"), RemovableStep::Decided(true));
    assert_eq!(is_removable_storage(None, "/storage/emulated"), RemovableStep::Decided(true));
    // Not a block device: the line does not decide.
    assert_eq!(is_removable_storage(Some(MOUNTS), "/storage/emulated"), RemovableStep::Decided(true));
    assert_eq!(is_removable_storage(Some(MOUNTS), "/nowhere/emulated/x"), RemovableStep::Decided(false));
    assert_eq!(is_removable_storage(Some(""), "/storage/1234"), RemovableStep::Decided(true));
}

#[test]
fn data_dir_defaults_to_the_app_directory() {
    assert_eq!(data_dir(None), "/data/data/com.spacedrive.app");
    assert_eq!(data_dir(Some("/custom".to_string())), "/custom");
}

#[test]
fn detected_volumes_come_in_order() {
    let external = vec![external_volume("card", &info(8, 2, "/storage/card"), true)];
    let volumes = detect_volumes(
        Ok(info(100, 40, "/data/data/com.spacedrive.app")),
        Some(Ok(info(200, 50, "/storage/emulated/0"))),
        "Pixel 8a",
        external,
    );
    assert_eq!(volumes.len(), 3);
    assert_eq!(volumes[0].name, "App Storage");
    assert_eq!(volumes[0].display_name, "App Storage");
    assert_eq!(volumes[0].volume_type, VolumeType::Primary);
    assert_eq!(volumes[1].name, "Pixel 8a");
    assert_eq!(volumes[1].display_name, "Internal Storage");
    assert_eq!(volumes[1].mount_point, "/storage/emulated/0");
    assert_eq!(volumes[1].total_capacity, 200);
    assert_eq!(volumes[2].display_name, "SD Card (card)");
}

#[test]
fn volumes_that_could_not_be_queried_are_left_out() {
    assert_eq!(detect_volumes(Err("no".to_string()), None, "d", Vec::new()), Vec::new());
    let only_shared = detect_volumes(
        Err("no".to_string()),
        Some(Ok(info(1, 1, "/storage/emulated/0"))),
        "d",
        Vec::new(),
    );
    assert_eq!(only_shared.len(), 1);
    assert_eq!(only_shared[0].display_name, "Internal Storage");
    let only_app = detect_volumes(Ok(info(1, 1, "/data")), Some(Err("no".to_string())), "d", Vec::new());
    assert_eq!(only_app.len(), 1);
    assert_eq!(only_app[0].name, "App Storage");
}

#[test]
fn scanning_helpers_agree_with_the_standard_library() {
    for text in ["", "a", "  a b  ", "\t\r\n", "x\u{a0}", "\u{3000}wide\u{2003}", "a/b/c", "/", "abc/"] {
        let chars = chars_of(text);
        assert_eq!(chars, text.chars().collect::<Vec<char>>());
        let (a, b) = trim(&chars, 0, chars.len());
        assert_eq!(text_of(&chars, a, b), text.trim());
        assert_eq!(last_segment(text, '/'), text.split('/').last().unwrap());
        let (from, to) = next_field(&chars, 0, chars.len());
        assert_eq!(text_of(&chars, from, to), text.split_whitespace().next().unwrap_or(""));
        for needle in ["", "a", "a b", "/", "b/c", "zz"] {
            assert_eq!(contains(text, needle), text.contains(needle));
        }
    }
}

#[test]
fn removable_roots_are_matched_by_whole_components() {
    let table = "/dev/block/sdx /mnt/media_rwx/1 vfat\n/dev/block/sdy /mnt/usb vfat\n";
    assert_eq!(
        is_removable_storage(Some(table), "/mnt/media_rwx/1"),
        RemovableStep::ReadSysfs { path: "/sys/block/sdx/removable".to_string(), resume: 36 }
    );
    assert_eq!(is_removable_storage(Some(table), "/mnt/usb"), RemovableStep::Decided(true));
}

#[test]
fn removable_root_decides_only_on_a_line_that_mounts_a_block_device() {
    assert_eq!(
        removable_from(Some(MOUNTS), "/storage/ABCD-EF01", true),
        RemovableStep::Decided(true)
    );
    let end_of_line = MOUNTS.find("/dev/block/sdc1").unwrap()
        + "/dev/block/sdc1\t/storage/ABCD-EF01  exfat rw 0 0".len();
    assert_eq!(
        removable_from(Some(MOUNTS), "/storage/ABCD-EF01", false),
        RemovableStep::ReadSysfs {
            path: "/sys/block/sdc1/removable".to_string(),
            resume: end_of_line
        }
    );
    // No line for the mount point: the root is never looked at.
    assert_eq!(removable_from(Some(MOUNTS), "/storage/emulated/0", true), RemovableStep::Decided(false));
    assert_eq!(removable_from(None, "/storage/self/primary", true), RemovableStep::Decided(false));
    // A line that mounts something else than a block device does not decide.
    assert_eq!(removable_from(Some(MOUNTS), "/storage/emulated", true), RemovableStep::Decided(true));
    assert_eq!(removable_from(Some("tmpfs /x/self/y tmpfs\n"), "/x/self/y", true), RemovableStep::Decided(false));
}
