//! Detecting the storage of an Android device: what the system's answers
//! mean. The system is asked by the caller (file reads, `statvfs`); which
//! volumes there are, what they are called and whether they can be removed
//! is decided here.

use vstd::prelude::*;
use crate::scan::{
    after_last, chars_of, contains, field_end, field_start, find_line_end, last_segment,
    lemma_line_end, line_end, next_field, occurs_in, same_text, text_of, trim, trimmed,
};
use crate::text::join;

verus! {

/// The storage behind a mount point.
#[derive(Debug, PartialEq, Eq)]
pub struct AndroidVolumeInfo {
    pub total_capacity: u64,
    pub available_capacity: u64,
    pub mount_point: String,
}

/// What became of asking the file system for its statistics.
#[derive(Debug, PartialEq, Eq)]
pub enum StatOutcome {
    /// The path is not text.
    InvalidPath,
    /// The path cannot be handed over as a C string; with the reason.
    BadCString(String),
    /// The call failed; with the system's words.
    Failed(String),
    /// The call succeeded.
    Stats { blocks: u64, available_blocks: u64, fragment_size: u64 },
}

/// A number of blocks in bytes. What does not fit in 64 bits is reported as
/// the largest capacity that does.
pub open spec fn capacity(blocks: u64, fragment_size: u64) -> u64 {
    if blocks * fragment_size <= u64::MAX {
        (blocks * fragment_size) as u64
    } else {
        u64::MAX
    }
}

fn bytes_of(blocks: u64, fragment_size: u64) -> (bytes: u64)
    ensures
        bytes == capacity(blocks, fragment_size),
{
    match blocks.checked_mul(fragment_size) {
        Some(bytes) => bytes,
        None => u64::MAX,
    }
}

/// The view of what a storage query gave.
pub open spec fn storage_view(r: Result<AndroidVolumeInfo, String>) -> Result<
    (u64, u64, Seq<char>),
    Seq<char>,
> {
    match r {
        Ok(info) => Ok((info.total_capacity, info.available_capacity, info.mount_point@)),
        Err(e) => Err(e@),
    }
}

/// The storage behind a mount point, from the file system's statistics:
/// the capacity is the number of blocks times the fragment size, and what is
/// available is what is available to an unprivileged user.
pub open spec fn storage_of(mount_point: Seq<char>, outcome: StatOutcome) -> Result<
    (u64, u64, Seq<char>),
    Seq<char>,
> {
    match outcome {
        StatOutcome::InvalidPath => Err("Invalid data directory path"@),
        StatOutcome::BadCString(reason) => Err("Failed to create CString: "@ + reason@),
        StatOutcome::Failed(reason) => Err("statvfs failed: "@ + reason@),
        StatOutcome::Stats { blocks, available_blocks, fragment_size } => Ok(
            (
                capacity(blocks, fragment_size),
                capacity(available_blocks, fragment_size),
                mount_point,
            ),
        ),
    }
}

/// Makes the storage behind a mount point out of the file system's answer.
pub fn query_device_storage(mount_point: &str, outcome: StatOutcome) -> (r: Result<
    AndroidVolumeInfo,
    String,
>)
    ensures
        storage_view(r) == storage_of(mount_point@, outcome),
{
    match outcome {
        StatOutcome::InvalidPath => Err("Invalid data directory path".to_string()),
        StatOutcome::BadCString(reason) => Err(join("Failed to create CString: ", reason.as_str())),
        StatOutcome::Failed(reason) => Err(join("statvfs failed: ", reason.as_str())),
        StatOutcome::Stats { blocks, available_blocks, fragment_size } => Ok(
            AndroidVolumeInfo {
                total_capacity: bytes_of(blocks, fragment_size),
                available_capacity: bytes_of(available_blocks, fragment_size),
                mount_point: mount_point.to_string(),
            },
        ),
    }
}

/// The model that the lines from `from` on name: the trimmed value of the
/// first line that begins with `ro.product.model=` and has a value.
pub open spec fn model_in(props: Seq<char>, from: int) -> Option<Seq<char>>
    decreases props.len() - from,
{
    if from < 0 || from > props.len() {
        None
    } else {
        let end = line_end(props, from);
        proof {
            lemma_line_end(props, from);
        }
        let line = props.subrange(from, end);
        let key = "ro.product.model="@;
        if key.is_prefix_of(line) && trimmed(line.skip(key.len() as int)).len() > 0 {
            Some(trimmed(line.skip(key.len() as int)))
        } else if end < props.len() {
            model_in(props, end + 1)
        } else {
            None
        }
    }
}

/// The name of the device: the model in the build properties; else the
/// host name, unless it is empty or `localhost`; else `Android Device`.
pub open spec fn device_name(build_prop: Option<Seq<char>>, hostname: Option<Seq<char>>) -> Seq<
    char,
> {
    let model = match build_prop {
        Some(props) => model_in(props, 0),
        None => None,
    };
    match model {
        Some(model) => model,
        None => match hostname {
            Some(name) => if trimmed(name).len() > 0 && trimmed(name) != "localhost"@ {
                trimmed(name)
            } else {
                "Android Device"@
            },
            None => "Android Device"@,
        },
    }
}

fn find_model(props: &Vec<char>) -> (model: Option<String>)
    ensures
        match model {
            Some(m) => model_in(props@, 0) == Some(m@),
            None => model_in(props@, 0) is None,
        },
{
    let key = chars_of("ro.product.model=");
    let mut from: usize = 0;
    loop
        invariant
            key@ == "ro.product.model="@,
            from <= props@.len(),
            model_in(props@, from as int) == model_in(props@, 0),
        decreases props@.len() - from,
    {
        let end = find_line_end(props, from);
        proof {
            lemma_line_end(props@, from as int);
        }
        let ghost line = props@.subrange(from as int, end as int);
        if end - from >= key.len() {
            let value_from: usize = from + key.len();
            if same_text(props, from, value_from, &key) {
                let (a, b) = trim(props, value_from, end);
                proof {
                    assert(line.subrange(0, key@.len() as int) =~= props@.subrange(
                        from as int,
                        value_from as int,
                    ));
                    assert(line.skip(key@.len() as int) =~= props@.subrange(
                        value_from as int,
                        end as int,
                    ));
                }
                if a < b {
                    return Some(text_of(props, a, b));
                }
            } else {
                proof {
                    assert(line.subrange(0, key@.len() as int) =~= props@.subrange(
                        from as int,
                        value_from as int,
                    ));
                }
            }
        }
        if end < props.len() {
            from = end + 1;
        } else {
            return None;
        }
    }
}

/// Names the device, from the build properties and the host name as far as
/// they could be read.
pub fn get_device_name(build_prop: Option<&str>, hostname: Option<&str>) -> (name: String)
    ensures
        name@ == device_name(
            match build_prop {
                Some(p) => Some(p@),
                None => None,
            },
            match hostname {
                Some(h) => Some(h@),
                None => None,
            },
        ),
{
    if let Some(props) = build_prop {
        let chars = chars_of(props);
        if let Some(model) = find_model(&chars) {
            return model;
        }
    }
    if let Some(host) = hostname {
        let chars = chars_of(host);
        let (a, b) = trim(&chars, 0, chars.len());
        proof {
            assert(chars@.subrange(0, chars@.len() as int) =~= chars@);
        }
        let localhost = chars_of("localhost");
        if a < b && !same_text(&chars, a, b, &localhost) {
            return text_of(&chars, a, b);
        }
    }
    "Android Device".to_string()
}

/// The kind of a volume.
#[derive(Clone, Copy, Debug, PartialEq, Eq)]
pub enum VolumeType {
    Primary,
    External,
}

/// How a volume is mounted.
#[derive(Clone, Copy, Debug, PartialEq, Eq)]
pub enum MountType {
    System,
    External,
}

/// A volume that was detected, as far as detection decides it. Every
/// volume of an Android device is flash storage, mounted, writable, visible
/// to the user and eligible for tracking.
#[derive(Debug, PartialEq, Eq)]
pub struct DetectedVolume {
    pub name: String,
    pub display_name: String,
    pub mount_point: String,
    pub volume_type: VolumeType,
    pub mount_type: MountType,
    pub total_capacity: u64,
    pub available_space: u64,
}

pub struct DetectedVolumeView {
    pub name: Seq<char>,
    pub display_name: Seq<char>,
    pub mount_point: Seq<char>,
    pub volume_type: VolumeType,
    pub mount_type: MountType,
    pub total_capacity: u64,
    pub available_space: u64,
}

impl View for DetectedVolume {
    type V = DetectedVolumeView;

    open spec fn view(&self) -> DetectedVolumeView {
        DetectedVolumeView {
            name: self.name@,
            display_name: self.display_name@,
            mount_point: self.mount_point@,
            volume_type: self.volume_type,
            mount_type: self.mount_type,
            total_capacity: self.total_capacity,
            available_space: self.available_space,
        }
    }
}

/// Makes a volume out of the storage behind its mount point. It is
/// mounted by the system.
pub fn create_volume(
    storage_info: &AndroidVolumeInfo,
    name: String,
    display_name: String,
    volume_type: VolumeType,
) -> (volume: DetectedVolume)
    ensures
        volume@ == (DetectedVolumeView {
            name: name@,
            display_name: display_name@,
            mount_point: storage_info.mount_point@,
            volume_type,
            mount_type: MountType::System,
            total_capacity: storage_info.total_capacity,
            available_space: storage_info.available_capacity,
        }),
{
    DetectedVolume {
        name,
        display_name,
        mount_point: storage_info.mount_point.clone(),
        volume_type,
        mount_type: MountType::System,
        total_capacity: storage_info.total_capacity,
        available_space: storage_info.available_capacity,
    }
}

/// Calls `std::path::Path::starts_with`: whether `base` is a prefix of
/// `path`, whole component by whole component. What a component is depends
/// on the platform, so nothing is claimed of the answer: what is decided
/// from it is decided for either answer.
#[verifier::external_body]
fn path_under(path: &str, base: &str) -> (under: bool) {
    std::path::Path::new(path).starts_with(base)
}

/// What the mount point alone says: storage that is neither emulated nor
/// the user's own view of it is taken to be removable.
pub open spec fn removable_by_path(mount_point: Seq<char>) -> bool {
    !occurs_in(mount_point, "/emulated/"@) && !occurs_in(mount_point, "/self/"@)
}

/// What is to be done next to find out whether storage can be removed.
#[derive(Debug, PartialEq, Eq)]
pub enum RemovableStep {
    /// It is decided.
    Decided(bool),
    /// Read the file at `path`, then call `removable_after_sysfs` with what
    /// it holds and with `resume`, the end of the line that was read last.
    ReadSysfs { path: String, resume: usize },
}

pub enum RemovableStepView {
    Decided(bool),
    ReadSysfs { path: Seq<char>, resume: int },
}

impl View for RemovableStep {
    type V = RemovableStepView;

    open spec fn view(&self) -> RemovableStepView {
        match self {
            RemovableStep::Decided(removable) => RemovableStepView::Decided(*removable),
            RemovableStep::ReadSysfs { path, resume } => RemovableStepView::ReadSysfs {
                path: path@,
                resume: *resume as int,
            },
        }
    }
}

/// The file in which the system says whether a block device can be removed.
pub open spec fn sysfs_path(device: Seq<char>) -> Seq<char> {
    "/sys/block/"@ + after_last(device, '/') + "/removable"@
}

/// What the mount table says from the line at `from` on. The first line
/// that mounts a block device at the mount point decides: storage under one
/// of the roots for removable media can be removed; for any other, the
/// system is asked about the device. Where no line decides, the mount point
/// does.
pub open spec fn scan_mounts(
    mounts: Seq<char>,
    from: int,
    mount_point: Seq<char>,
    under_removable_root: bool,
) -> RemovableStepView
    decreases mounts.len() - from,
{
    if from < 0 || from > mounts.len() {
        RemovableStepView::Decided(removable_by_path(mount_point))
    } else {
        let end = line_end(mounts, from);
        proof {
            lemma_line_end(mounts, from);
        }
        let device_from = field_start(mounts, from, end);
        let device_to = field_end(mounts, device_from, end);
        let mount_from = field_start(mounts, device_to, end);
        let mount_to = field_end(mounts, mount_from, end);
        let device = mounts.subrange(device_from, device_to);
        if mount_from < mount_to && mounts.subrange(mount_from, mount_to) == mount_point
            && occurs_in(device, "/dev/block/"@) {
            if under_removable_root {
                RemovableStepView::Decided(true)
            } else {
                RemovableStepView::ReadSysfs { path: sysfs_path(device), resume: end }
            }
        } else if end < mounts.len() {
            scan_mounts(mounts, end + 1, mount_point, under_removable_root)
        } else {
            RemovableStepView::Decided(removable_by_path(mount_point))
        }
    }
}

fn decide_by_path(mount_point: &str) -> (removable: bool)
    ensures
        removable == removable_by_path(mount_point@),
{
    !contains(mount_point, "/emulated/") && !contains(mount_point, "/self/")
}

fn scan_from(mounts: &str, from: usize, mount_point: &str, under_removable_root: bool) -> (step:
    RemovableStep)
    ensures
        step@ == scan_mounts(mounts@, from as int, mount_point@, under_removable_root),
{
    let table = chars_of(mounts);
    let wanted = chars_of(mount_point);
    if from > table.len() {
        return RemovableStep::Decided(decide_by_path(mount_point));
    }
    let mut at: usize = from;
    loop
        invariant
            table@ == mounts@,
            wanted@ == mount_point@,
            at <= table@.len(),
            scan_mounts(mounts@, at as int, mount_point@, under_removable_root) == scan_mounts(
                mounts@,
                from as int,
                mount_point@,
                under_removable_root,
            ),
        decreases table@.len() - at,
    {
        let end = find_line_end(&table, at);
        let (device_from, device_to) = next_field(&table, at, end);
        let (mount_from, mount_to) = next_field(&table, device_to, end);
        if mount_from < mount_to && same_text(&table, mount_from, mount_to, &wanted) {
            let device = text_of(&table, device_from, device_to);
            if contains(device.as_str(), "/dev/block/") {
                if under_removable_root {
                    return RemovableStep::Decided(true);
                }
                let name = last_segment(device.as_str(), '/');
                let mut path = join("/sys/block/", name.as_str());
                path.append("/removable");
                return RemovableStep::ReadSysfs { path, resume: end };
            }
        }
        if end < table.len() {
            at = end + 1;
        } else {
            return RemovableStep::Decided(decide_by_path(mount_point));
        }
    }
}

/// The view of the mount table, as far as it could be read.
pub open spec fn table_view(mounts: Option<&str>) -> Option<Seq<char>> {
    match mounts {
        Some(table) => Some(table@),
        None => None,
    }
}

/// How finding out whether storage can be removed begins, when it is
/// known whether the mount point lies under a root for removable media.
pub open spec fn removable_begin(
    mounts: Option<Seq<char>>,
    mount_point: Seq<char>,
    under_removable_root: bool,
) -> RemovableStepView {
    match mounts {
        Some(table) => scan_mounts(table, 0, mount_point, under_removable_root),
        None => RemovableStepView::Decided(removable_by_path(mount_point)),
    }
}

/// Begins to find out whether the storage at a mount point can be removed,
/// from the mount table as far as it could be read, and from whether the
/// mount point lies under `/mnt/media_rw` or `/mnt/usb`.
pub fn removable_from(mounts: Option<&str>, mount_point: &str, under_removable_root: bool) -> (step:
    RemovableStep)
    ensures
        step@ == removable_begin(table_view(mounts), mount_point@, under_removable_root),
{
    match mounts {
        Some(table) => scan_from(table, 0, mount_point, under_removable_root),
        None => RemovableStep::Decided(decide_by_path(mount_point)),
    }
}

/// Begins to find out whether the storage at a mount point can be removed:
/// looks whether the mount point lies under `/mnt/media_rw` or `/mnt/usb`,
/// then reads the mount table as far as it could be read.
pub fn is_removable_storage(mounts: Option<&str>, mount_point: &str) -> (step: RemovableStep)
    ensures
        step@ == removable_begin(table_view(mounts), mount_point@, true) || step@
            == removable_begin(table_view(mounts), mount_point@, false),
{
    let under = path_under(mount_point, "/mnt/media_rw") || path_under(mount_point, "/mnt/usb");
    removable_from(mounts, mount_point, under)
}

/// Goes on after the system was asked about a device: its answer decides,
/// `1` meaning that the device can be removed; where there was no answer,
/// the mount table is read on after `resume`. The system is asked only
/// about a mount point that lies under no root for removable media.
pub fn removable_after_sysfs(
    mounts: &str,
    mount_point: &str,
    resume: usize,
    answer: Option<&str>,
) -> (step: RemovableStep)
    ensures
        step@ == match answer {
            Some(text) => RemovableStepView::Decided(trimmed(text@) == "1"@),
            None => scan_mounts(mounts@, resume + 1, mount_point@, false),
        },
{
    match answer {
        Some(text) => {
            let chars = chars_of(text);
            let (a, b) = trim(&chars, 0, chars.len());
            proof {
                assert(chars@.subrange(0, chars@.len() as int) =~= chars@);
            }
            let one = chars_of("1");
            RemovableStep::Decided(same_text(&chars, a, b, &one))
        },
        None => {
            if resume >= mounts.unicode_len() {
                RemovableStep::Decided(decide_by_path(mount_point))
            } else {
                scan_from(mounts, resume + 1, mount_point, false)
            }
        },
    }
}

/// An entry of a storage directory is looked at when it is a directory and
/// is neither `emulated` nor `self`, which are the primary storage.
pub open spec fn external_candidate(name: Seq<char>, is_dir: bool) -> bool {
    name != "emulated"@ && name != "self"@ && is_dir
}

/// Whether an entry of a storage directory is looked at.
pub fn is_external_candidate(name: &str, is_dir: bool) -> (candidate: bool)
    ensures
        candidate == external_candidate(name@, is_dir),
{
    let chars = chars_of(name);
    let emulated = chars_of("emulated");
    let own = chars_of("self");
    proof {
        assert(chars@.subrange(0, chars@.len() as int) =~= chars@);
    }
    !same_text(&chars, 0, chars.len(), &emulated) && !same_text(&chars, 0, chars.len(), &own)
        && is_dir
}

/// The external volume found under the name `name`: an SD card when it can
/// be removed, external storage when it cannot.
pub open spec fn external_volume_of(
    name: Seq<char>,
    mount_point: Seq<char>,
    total_capacity: u64,
    available_capacity: u64,
    removable: bool,
) -> DetectedVolumeView {
    DetectedVolumeView {
        name,
        display_name: if removable {
            "SD Card ("@ + name + ")"@
        } else {
            "External Storage ("@ + name + ")"@
        },
        mount_point,
        volume_type: VolumeType::External,
        mount_type: if removable {
            MountType::External
        } else {
            MountType::System
        },
        total_capacity,
        available_space: available_capacity,
    }
}

/// Makes the external volume found under a name.
pub fn external_volume(name: &str, storage_info: &AndroidVolumeInfo, removable: bool) -> (volume:
    DetectedVolume)
    ensures
        volume@ == external_volume_of(
            name@,
            storage_info.mount_point@,
            storage_info.total_capacity,
            storage_info.available_capacity,
            removable,
        ),
{
    let mut display_name = if removable {
        join("SD Card (", name)
    } else {
        join("External Storage (", name)
    };
    display_name.append(")");
    let mut volume = create_volume(
        storage_info,
        name.to_string(),
        display_name,
        VolumeType::External,
    );
    if removable {
        volume.mount_type = MountType::External;
    }
    volume
}

/// The directories under which external volumes are looked for, in order.
pub open spec fn search_paths() -> Seq<Seq<char>> {
    seq!["/storage"@, "/mnt/media_rw"@, "/mnt/usb"@]
}

/// The directories under which external volumes are looked for, in order.
pub fn external_search_paths() -> (paths: Vec<String>)
    ensures
        paths@.map_values(|p: String| p@) == search_paths(),
{
    let mut paths: Vec<String> = Vec::new();
    paths.push("/storage".to_string());
    paths.push("/mnt/media_rw".to_string());
    paths.push("/mnt/usb".to_string());
    proof {
        assert(paths@.map_values(|p: String| p@) =~= search_paths());
    }
    paths
}

/// Where the storage that the user sees is mounted.
pub fn shared_storage_path() -> (path: String)
    ensures
        path@ == "/storage/emulated/0"@,
{
    "/storage/emulated/0".to_string()
}

/// The directory of the app's own data, where the environment names none.
pub open spec fn default_data_dir() -> Seq<char> {
    "/data/data/com.spacedrive.app"@
}

/// The directory of the app's own data.
pub fn data_dir(configured: Option<String>) -> (dir: String)
    ensures
        dir@ == match configured {
            Some(d) => d@,
            None => default_data_dir(),
        },
{
    match configured {
        Some(d) => d,
        None => "/data/data/com.spacedrive.app".to_string(),
    }
}

/// The views of volumes, in order.
pub open spec fn volumes_view(volumes: Seq<DetectedVolume>) -> Seq<DetectedVolumeView> {
    volumes.map_values(|v: DetectedVolume| v@)
}

/// The volume of the app's own data.
pub open spec fn app_storage_of(info: (u64, u64, Seq<char>)) -> DetectedVolumeView {
    DetectedVolumeView {
        name: "App Storage"@,
        display_name: "App Storage"@,
        mount_point: info.2,
        volume_type: VolumeType::Primary,
        mount_type: MountType::System,
        total_capacity: info.0,
        available_space: info.1,
    }
}

/// The volume of the storage that the user sees, under the device's name.
pub open spec fn shared_storage_of(
    info: (u64, u64, Seq<char>),
    device_name: Seq<char>,
) -> DetectedVolumeView {
    DetectedVolumeView {
        name: device_name,
        display_name: "Internal Storage"@,
        mount_point: info.2,
        volume_type: VolumeType::Primary,
        mount_type: MountType::System,
        total_capacity: info.0,
        available_space: info.1,
    }
}

/// The volumes of the device, in order: the app's own data where it could
/// be queried, the shared storage where it exists and could be queried,
/// then the external volumes.
pub open spec fn detected(
    app_storage: Result<(u64, u64, Seq<char>), Seq<char>>,
    shared_storage: Option<Result<(u64, u64, Seq<char>), Seq<char>>>,
    device_name: Seq<char>,
    external: Seq<DetectedVolumeView>,
) -> Seq<DetectedVolumeView> {
    let first = match app_storage {
        Ok(info) => seq![app_storage_of(info)],
        Err(_) => Seq::empty(),
    };
    let second = match shared_storage {
        Some(Ok(info)) => seq![shared_storage_of(info, device_name)],
        _ => Seq::empty(),
    };
    first + second + external
}

/// The view of what a query of the shared storage gave, if it was made.
pub open spec fn shared_view(r: Option<Result<AndroidVolumeInfo, String>>) -> Option<
    Result<(u64, u64, Seq<char>), Seq<char>>,
> {
    match r {
        Some(r) => Some(storage_view(r)),
        None => None,
    }
}

/// Puts the volumes of the device together. `shared_storage` is `None`
/// where the shared storage does not exist.
pub fn detect_volumes(
    app_storage: Result<AndroidVolumeInfo, String>,
    shared_storage: Option<Result<AndroidVolumeInfo, String>>,
    device_name: &str,
    external: Vec<DetectedVolume>,
) -> (volumes: Vec<DetectedVolume>)
    ensures
        volumes_view(volumes@) == detected(
            storage_view(app_storage),
            shared_view(shared_storage),
            device_name@,
            volumes_view(external@),
        ),
{
    let mut volumes: Vec<DetectedVolume> = Vec::new();
    if let Ok(info) = app_storage {
        volumes.push(
            create_volume(
                &info,
                "App Storage".to_string(),
                "App Storage".to_string(),
                VolumeType::Primary,
            ),
        );
    }
    if let Some(Ok(info)) = shared_storage {
        volumes.push(
            create_volume(
                &info,
                device_name.to_string(),
                "Internal Storage".to_string(),
                VolumeType::Primary,
            ),
        );
    }
    let ghost head = volumes@;
    let ghost tail = external@;
    let mut external = external;
    volumes.append(&mut external);
    proof {
        assert(volumes_view(volumes@) =~= volumes_view(head) + volumes_view(tail));
        assert(volumes_view(volumes@) =~= detected(
            storage_view(app_storage),
            shared_view(shared_storage),
            device_name@,
            volumes_view(tail),
        ));
    }
    volumes
}

} // verus!
