//! The installer's configuration: what the user selected, and the disk plan
//! that the planner turns into commands. Each type has a view over sequences
//! of characters, which the contracts of the other modules speak of.

use vstd::prelude::*;
use vstd::string::StringExecFns;

verus! {

/// The view of an optional text.
pub open spec fn opt_text(o: Option<String>) -> Option<Seq<char>> {
    match o {
        Some(s) => Some(s@),
        None => None,
    }
}

/// Copies an optional text.
pub fn clone_opt_text(o: &Option<String>) -> (r: Option<String>)
    ensures
        opt_text(r) == opt_text(*o),
{
    match o {
        Some(s) => Some(s.clone()),
        None => None,
    }
}

/// The language and region of the installed system.
#[derive(Debug, Clone)]
pub struct LocaleSelection {
    pub language: String,
    pub region: String,
}

/// A locale, as the contracts see it.
pub struct LocaleSelectionView {
    pub language: Seq<char>,
    pub region: Seq<char>,
}

impl View for LocaleSelection {
    type V = LocaleSelectionView;

    open spec fn view(&self) -> LocaleSelectionView {
        LocaleSelectionView { language: self.language@, region: self.region@ }
    }
}

impl Default for LocaleSelection {
    fn default() -> (r: Self)
        ensures
            r@.language == "en"@,
            r@.region == "US"@,
    {
        LocaleSelection { language: String::from_str("en"), region: String::from_str("US") }
    }
}

/// The keyboard layouts of the installed system.
#[derive(Debug, Clone)]
pub struct KeyboardSelection {
    pub layouts: Vec<String>,
    pub variant: Option<String>,
}

/// A keyboard selection, as the contracts see it.
pub struct KeyboardSelectionView {
    pub layouts: Seq<Seq<char>>,
    pub variant: Option<Seq<char>>,
}

impl View for KeyboardSelection {
    type V = KeyboardSelectionView;

    open spec fn view(&self) -> KeyboardSelectionView {
        KeyboardSelectionView {
            layouts: self.layouts.deep_view(),
            variant: opt_text(self.variant),
        }
    }
}

impl Default for KeyboardSelection {
    fn default() -> (r: Self)
        ensures
            r@.layouts == seq!["us"@],
            r@.variant is None,
    {
        let mut layouts: Vec<String> = Vec::new();
        layouts.push(String::from_str("us"));
        KeyboardSelection { layouts, variant: None }
    }
}

/// A block device that can take an installation.
#[derive(Debug)]
pub struct DiskIdentifier {
    pub path: String,
    pub size_bytes: u64,
    pub label: Option<String>,
}

/// A disk, as the contracts see it.
pub struct DiskIdentifierView {
    pub path: Seq<char>,
    pub size_bytes: u64,
    pub label: Option<Seq<char>>,
}

impl View for DiskIdentifier {
    type V = DiskIdentifierView;

    open spec fn view(&self) -> DiskIdentifierView {
        DiskIdentifierView {
            path: self.path@,
            size_bytes: self.size_bytes,
            label: opt_text(self.label),
        }
    }
}

impl DeepView for DiskIdentifier {
    type V = DiskIdentifierView;

    open spec fn deep_view(&self) -> DiskIdentifierView {
        self.view()
    }
}

impl Clone for DiskIdentifier {
    fn clone(&self) -> (r: Self)
        ensures
            r@ == self@,
    {
        DiskIdentifier {
            path: self.path.clone(),
            size_bytes: self.size_bytes,
            label: clone_opt_text(&self.label),
        }
    }
}

/// Whether two optional texts hold the same.
pub fn same_opt_text(a: &Option<String>, b: &Option<String>) -> (same: bool)
    ensures
        same == (opt_text(*a) == opt_text(*b)),
{
    match (a, b) {
        (Some(x), Some(y)) => *x == *y,
        (None, None) => true,
        _ => false,
    }
}

impl PartialEq for DiskIdentifier {
    fn eq(&self, other: &Self) -> (same: bool) {
        self.path == other.path && self.size_bytes == other.size_bytes && same_opt_text(
            &self.label,
            &other.label,
        )
    }
}

impl vstd::std_specs::cmp::PartialEqSpecImpl for DiskIdentifier {
    open spec fn obeys_eq_spec() -> bool {
        true
    }

    open spec fn eq_spec(&self, other: &Self) -> bool {
        self@ == other@
    }
}

impl Eq for DiskIdentifier {

}

/// Whether a plan takes the whole disk in the default way or lays it out by hand.
#[derive(Debug, Clone, Copy, PartialEq, Eq, Structural)]
pub enum DiskMode {
    UseEntireDisk,
    Custom,
}

/// How much of the disk a partition asks for.
#[derive(Debug, Clone, Copy, PartialEq, Eq, Structural)]
pub enum PartitionSize {
    ExactBytes(u64),
    Percentage(u8),
    Remainder,
}

/// The filesystem that a partition is formatted with.
#[derive(Debug, Clone)]
pub enum FileSystem {
    Ext4,
    Btrfs,
    Xfs,
    Swap,
    Fat32,
    Other(String),
}

/// A filesystem, as the contracts see it.
pub enum FileSystemView {
    Ext4,
    Btrfs,
    Xfs,
    Swap,
    Fat32,
    Other(Seq<char>),
}

impl View for FileSystem {
    type V = FileSystemView;

    open spec fn view(&self) -> FileSystemView {
        match self {
            FileSystem::Ext4 => FileSystemView::Ext4,
            FileSystem::Btrfs => FileSystemView::Btrfs,
            FileSystem::Xfs => FileSystemView::Xfs,
            FileSystem::Swap => FileSystemView::Swap,
            FileSystem::Fat32 => FileSystemView::Fat32,
            FileSystem::Other(name) => FileSystemView::Other(name@),
        }
    }
}

impl PartialEq for FileSystem {
    fn eq(&self, other: &Self) -> (same: bool) {
        match (self, other) {
            (FileSystem::Ext4, FileSystem::Ext4) => true,
            (FileSystem::Btrfs, FileSystem::Btrfs) => true,
            (FileSystem::Xfs, FileSystem::Xfs) => true,
            (FileSystem::Swap, FileSystem::Swap) => true,
            (FileSystem::Fat32, FileSystem::Fat32) => true,
            (FileSystem::Other(a), FileSystem::Other(b)) => *a == *b,
            _ => false,
        }
    }
}

impl vstd::std_specs::cmp::PartialEqSpecImpl for FileSystem {
    open spec fn obeys_eq_spec() -> bool {
        true
    }

    open spec fn eq_spec(&self, other: &Self) -> bool {
        self@ == other@
    }
}

impl Eq for FileSystem {

}

/// The name under which a filesystem is shown.
pub open spec fn filesystem_label(fs: FileSystemView) -> Seq<char> {
    match fs {
        FileSystemView::Ext4 => "ext4"@,
        FileSystemView::Btrfs => "btrfs"@,
        FileSystemView::Xfs => "xfs"@,
        FileSystemView::Swap => "swap"@,
        FileSystemView::Fat32 => "fat32"@,
        FileSystemView::Other(name) => name,
    }
}

impl FileSystem {
    /// The name under which the filesystem is shown.
    pub fn label(&self) -> (r: &str)
        ensures
            r@ == filesystem_label(self@),
    {
        match self {
            FileSystem::Ext4 => "ext4",
            FileSystem::Btrfs => "btrfs",
            FileSystem::Xfs => "xfs",
            FileSystem::Swap => "swap",
            FileSystem::Fat32 => "fat32",
            FileSystem::Other(value) => value.as_str(),
        }
    }
}

/// A flag that the partitioning tool sets on a partition.
#[derive(Debug, Clone)]
pub enum PartitionFlag {
    Boot,
    Esp,
    Swap,
    Lvm,
    Custom(String),
}

/// A partition flag, as the contracts see it.
pub enum PartitionFlagView {
    Boot,
    Esp,
    Swap,
    Lvm,
    Custom(Seq<char>),
}

impl View for PartitionFlag {
    type V = PartitionFlagView;

    open spec fn view(&self) -> PartitionFlagView {
        match self {
            PartitionFlag::Boot => PartitionFlagView::Boot,
            PartitionFlag::Esp => PartitionFlagView::Esp,
            PartitionFlag::Swap => PartitionFlagView::Swap,
            PartitionFlag::Lvm => PartitionFlagView::Lvm,
            PartitionFlag::Custom(name) => PartitionFlagView::Custom(name@),
        }
    }
}

impl DeepView for PartitionFlag {
    type V = PartitionFlagView;

    open spec fn deep_view(&self) -> PartitionFlagView {
        self.view()
    }
}

/// One partition of a disk plan.
#[derive(Debug, Clone)]
pub struct PartitionSpec {
    pub id: String,
    pub mountpoint: Option<String>,
    pub filesystem: FileSystem,
    pub size: PartitionSize,
    pub flags: Vec<PartitionFlag>,
}

/// A partition, as the contracts see it.
pub struct PartitionSpecView {
    pub id: Seq<char>,
    pub mountpoint: Option<Seq<char>>,
    pub filesystem: FileSystemView,
    pub size: PartitionSize,
    pub flags: Seq<PartitionFlagView>,
}

impl View for PartitionSpec {
    type V = PartitionSpecView;

    open spec fn view(&self) -> PartitionSpecView {
        PartitionSpecView {
            id: self.id@,
            mountpoint: opt_text(self.mountpoint),
            filesystem: self.filesystem@,
            size: self.size,
            flags: self.flags.deep_view(),
        }
    }
}

impl DeepView for PartitionSpec {
    type V = PartitionSpecView;

    open spec fn deep_view(&self) -> PartitionSpecView {
        self.view()
    }
}

/// The partitions to create on one disk, in the order of their numbers.
#[derive(Debug, Clone)]
pub struct DiskPlan {
    pub target: DiskIdentifier,
    pub mode: DiskMode,
    pub partitions: Vec<PartitionSpec>,
}

/// A disk plan, as the contracts see it.
pub struct DiskPlanView {
    pub target: DiskIdentifierView,
    pub mode: DiskMode,
    pub partitions: Seq<PartitionSpecView>,
}

impl View for DiskPlan {
    type V = DiskPlanView;

    open spec fn view(&self) -> DiskPlanView {
        DiskPlanView {
            target: self.target@,
            mode: self.mode,
            partitions: self.partitions.deep_view(),
        }
    }
}

/// An account of the installed system.
#[derive(Debug, Clone)]
pub struct UserAccount {
    pub username: String,
    pub full_name: String,
    pub password_hash: Option<String>,
    pub is_admin: bool,
}

/// An account, as the contracts see it.
pub struct UserAccountView {
    pub username: Seq<char>,
    pub full_name: Seq<char>,
    pub password_hash: Option<Seq<char>>,
    pub is_admin: bool,
}

impl View for UserAccount {
    type V = UserAccountView;

    open spec fn view(&self) -> UserAccountView {
        UserAccountView {
            username: self.username@,
            full_name: self.full_name@,
            password_hash: opt_text(self.password_hash),
            is_admin: self.is_admin,
        }
    }
}

impl DeepView for UserAccount {
    type V = UserAccountView;

    open spec fn deep_view(&self) -> UserAccountView {
        self.view()
    }
}

/// The administrator account that every fresh configuration starts with.
pub open spec fn default_admin_view() -> UserAccountView {
    UserAccountView {
        username: "armdistro"@,
        full_name: "Arm Distro"@,
        password_hash: None,
        is_admin: true,
    }
}

impl UserAccount {
    /// The administrator account that every fresh configuration starts with.
    pub fn default_admin() -> (r: Self)
        ensures
            r@ == default_admin_view(),
    {
        UserAccount {
            username: String::from_str("armdistro"),
            full_name: String::from_str("Arm Distro"),
            password_hash: None,
            is_admin: true,
        }
    }
}

/// The network settings of the installed system.
#[derive(Debug, Clone)]
pub struct NetworkConfig {
    pub hostname: String,
    pub enable_network_manager: bool,
}

/// Network settings, as the contracts see it.
pub struct NetworkConfigView {
    pub hostname: Seq<char>,
    pub enable_network_manager: bool,
}

impl View for NetworkConfig {
    type V = NetworkConfigView;

    open spec fn view(&self) -> NetworkConfigView {
        NetworkConfigView {
            hostname: self.hostname@,
            enable_network_manager: self.enable_network_manager,
        }
    }
}

impl Default for NetworkConfig {
    fn default() -> (r: Self)
        ensures
            r@.hostname == "arm-distro"@,
            r@.enable_network_manager,
    {
        NetworkConfig { hostname: String::from_str("arm-distro"), enable_network_manager: true }
    }
}

/// Everything the wizard collects before an installation starts.
#[derive(Debug, Clone)]
pub struct InstallerState {
    pub current_step: usize,
    pub locale: LocaleSelection,
    pub keyboard: KeyboardSelection,
    pub timezone: Option<String>,
    pub target: Option<DiskPlan>,
    pub users: Vec<UserAccount>,
    pub network: NetworkConfig,
    pub discovered_disks: Vec<DiskIdentifier>,
    pub selected_disk: Option<DiskIdentifier>,
}

/// The configuration, as the contracts see it.
pub struct InstallerStateView {
    pub current_step: usize,
    pub locale: LocaleSelectionView,
    pub keyboard: KeyboardSelectionView,
    pub timezone: Option<Seq<char>>,
    pub target: Option<DiskPlanView>,
    pub users: Seq<UserAccountView>,
    pub network: NetworkConfigView,
    pub discovered_disks: Seq<DiskIdentifierView>,
    pub selected_disk: Option<DiskIdentifierView>,
}

impl View for InstallerState {
    type V = InstallerStateView;

    open spec fn view(&self) -> InstallerStateView {
        InstallerStateView {
            current_step: self.current_step,
            locale: self.locale@,
            keyboard: self.keyboard@,
            timezone: opt_text(self.timezone),
            target: match self.target {
                Some(plan) => Some(plan@),
                None => None,
            },
            users: self.users.deep_view(),
            network: self.network@,
            discovered_disks: self.discovered_disks.deep_view(),
            selected_disk: match self.selected_disk {
                Some(disk) => Some(disk@),
                None => None,
            },
        }
    }
}

impl Default for InstallerState {
    fn default() -> (r: Self)
        ensures
            r@.current_step == 0,
            r@.locale == LocaleSelection::default_view(),
            r@.keyboard == KeyboardSelection::default_view(),
            r@.timezone is None,
            r@.target is None,
            r@.users == seq![default_admin_view()],
            r@.network == NetworkConfig::default_view(),
            r@.discovered_disks.len() == 0,
            r@.selected_disk is None,
    {
        let mut users: Vec<UserAccount> = Vec::new();
        users.push(UserAccount::default_admin());
        let discovered_disks: Vec<DiskIdentifier> = Vec::new();
        InstallerState {
            current_step: 0,
            locale: LocaleSelection::default(),
            keyboard: KeyboardSelection::default(),
            timezone: None,
            target: None,
            users,
            network: NetworkConfig::default(),
            discovered_disks,
            selected_disk: None,
        }
    }
}

impl LocaleSelection {
    /// The locale of a fresh configuration.
    pub open spec fn default_view() -> LocaleSelectionView {
        LocaleSelectionView { language: "en"@, region: "US"@ }
    }
}

impl KeyboardSelection {
    /// The keyboard of a fresh configuration.
    pub open spec fn default_view() -> KeyboardSelectionView {
        KeyboardSelectionView { layouts: seq!["us"@], variant: None }
    }
}

impl NetworkConfig {
    /// The network settings of a fresh configuration.
    pub open spec fn default_view() -> NetworkConfigView {
        NetworkConfigView { hostname: "arm-distro"@, enable_network_manager: true }
    }
}

} // verus!
