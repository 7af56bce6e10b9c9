//! Selectors that the host takes and reports as integer codes.
//!
//! Each enum lists the host's codes in order. Decoding takes any integer: a
//! code that the table does not list gives the enum's default variant.

use vstd::prelude::*;
use vstd::std_specs::convert::FromSpecImpl;

verus! {

/// Which network statistic of a player to read.
#[derive(Debug, Copy, Clone, PartialEq, Eq, Structural)]
pub enum VcmpNetworkStatisticsQueryOption {
    DataSentPerSecond,
    DataResentPerSecond,
    DataReceivedPerSecond,
    DataDiscardedPerSecond,
    AllBytesSentPerSecond,
    AllBytesReceivedPerSecond,
    DataSentTotal,
    DataResentTotal,
    DataReceivedTotal,
    DataDiscardedTotal,
    AllBytesSentTotal,
    AllBytesReceivedTotal,
    MessagesWaiting,
    MessagesResending,
    BytesResending,
    PacketLossPerSecond,
    PacketLossTotal,
}

impl VcmpNetworkStatisticsQueryOption {
    /// Whether the host's table lists `code`.
    pub open spec fn has_code(code: i32) -> bool {
        0 <= code <= 16
    }

    /// The variant that `code` stands for; for a code that is not listed,
    /// `DataSentPerSecond`.
    pub open spec fn of_code(code: i32) -> Self {
        match code {
            0 => Self::DataSentPerSecond,
            1 => Self::DataResentPerSecond,
            2 => Self::DataReceivedPerSecond,
            3 => Self::DataDiscardedPerSecond,
            4 => Self::AllBytesSentPerSecond,
            5 => Self::AllBytesReceivedPerSecond,
            6 => Self::DataSentTotal,
            7 => Self::DataResentTotal,
            8 => Self::DataReceivedTotal,
            9 => Self::DataDiscardedTotal,
            10 => Self::AllBytesSentTotal,
            11 => Self::AllBytesReceivedTotal,
            12 => Self::MessagesWaiting,
            13 => Self::MessagesResending,
            14 => Self::BytesResending,
            15 => Self::PacketLossPerSecond,
            16 => Self::PacketLossTotal,
            _ => Self::DataSentPerSecond,
        }
    }

    /// The code that the host knows the variant by.
    pub open spec fn code(self) -> i32 {
        match self {
            Self::DataSentPerSecond => 0,
            Self::DataResentPerSecond => 1,
            Self::DataReceivedPerSecond => 2,
            Self::DataDiscardedPerSecond => 3,
            Self::AllBytesSentPerSecond => 4,
            Self::AllBytesReceivedPerSecond => 5,
            Self::DataSentTotal => 6,
            Self::DataResentTotal => 7,
            Self::DataReceivedTotal => 8,
            Self::DataDiscardedTotal => 9,
            Self::AllBytesSentTotal => 10,
            Self::AllBytesReceivedTotal => 11,
            Self::MessagesWaiting => 12,
            Self::MessagesResending => 13,
            Self::BytesResending => 14,
            Self::PacketLossPerSecond => 15,
            Self::PacketLossTotal => 16,
        }
    }
}

impl From<i32> for VcmpNetworkStatisticsQueryOption {
    fn from(value: i32) -> (decoded: Self) {
        match value {
            0 => Self::DataSentPerSecond,
            1 => Self::DataResentPerSecond,
            2 => Self::DataReceivedPerSecond,
            3 => Self::DataDiscardedPerSecond,
            4 => Self::AllBytesSentPerSecond,
            5 => Self::AllBytesReceivedPerSecond,
            6 => Self::DataSentTotal,
            7 => Self::DataResentTotal,
            8 => Self::DataReceivedTotal,
            9 => Self::DataDiscardedTotal,
            10 => Self::AllBytesSentTotal,
            11 => Self::AllBytesReceivedTotal,
            12 => Self::MessagesWaiting,
            13 => Self::MessagesResending,
            14 => Self::BytesResending,
            15 => Self::PacketLossPerSecond,
            16 => Self::PacketLossTotal,
            _ => Self::DataSentPerSecond,
        }
    }
}

impl FromSpecImpl<i32> for VcmpNetworkStatisticsQueryOption {
    open spec fn obeys_from_spec() -> bool {
        true
    }

    open spec fn from_spec(value: i32) -> Self {
        Self::of_code(value)
    }
}

impl From<VcmpNetworkStatisticsQueryOption> for i32 {
    fn from(val: VcmpNetworkStatisticsQueryOption) -> (code: i32) {
        match val {
            VcmpNetworkStatisticsQueryOption::DataSentPerSecond => 0,
            VcmpNetworkStatisticsQueryOption::DataResentPerSecond => 1,
            VcmpNetworkStatisticsQueryOption::DataReceivedPerSecond => 2,
            VcmpNetworkStatisticsQueryOption::DataDiscardedPerSecond => 3,
            VcmpNetworkStatisticsQueryOption::AllBytesSentPerSecond => 4,
            VcmpNetworkStatisticsQueryOption::AllBytesReceivedPerSecond => 5,
            VcmpNetworkStatisticsQueryOption::DataSentTotal => 6,
            VcmpNetworkStatisticsQueryOption::DataResentTotal => 7,
            VcmpNetworkStatisticsQueryOption::DataReceivedTotal => 8,
            VcmpNetworkStatisticsQueryOption::DataDiscardedTotal => 9,
            VcmpNetworkStatisticsQueryOption::AllBytesSentTotal => 10,
            VcmpNetworkStatisticsQueryOption::AllBytesReceivedTotal => 11,
            VcmpNetworkStatisticsQueryOption::MessagesWaiting => 12,
            VcmpNetworkStatisticsQueryOption::MessagesResending => 13,
            VcmpNetworkStatisticsQueryOption::BytesResending => 14,
            VcmpNetworkStatisticsQueryOption::PacketLossPerSecond => 15,
            VcmpNetworkStatisticsQueryOption::PacketLossTotal => 16,
        }
    }
}

impl FromSpecImpl<VcmpNetworkStatisticsQueryOption> for i32 {
    open spec fn obeys_from_spec() -> bool {
        true
    }

    open spec fn from_spec(val: VcmpNetworkStatisticsQueryOption) -> i32 {
        val.code()
    }
}

/// A code that the table does not list decodes to `DataSentPerSecond`.
pub proof fn lemma_network_statistics_query_option_default(code: i32)
    requires
        !VcmpNetworkStatisticsQueryOption::has_code(code),
    ensures
        VcmpNetworkStatisticsQueryOption::of_code(code)
            == VcmpNetworkStatisticsQueryOption::DataSentPerSecond,
{
}

/// Each variant has a listed code of its own, and that code decodes to the
/// variant.
pub proof fn lemma_network_statistics_query_option_code_of_variant(
    variant: VcmpNetworkStatisticsQueryOption,
)
    ensures
        VcmpNetworkStatisticsQueryOption::has_code(variant.code()),
        VcmpNetworkStatisticsQueryOption::of_code(variant.code()) == variant,
{
}

/// A listed code survives decoding and encoding.
pub proof fn lemma_network_statistics_query_option_listed_code(code: i32)
    requires
        VcmpNetworkStatisticsQueryOption::has_code(code),
    ensures
        VcmpNetworkStatisticsQueryOption::of_code(code).code() == code,
{
}

/// A switch of the server as a whole.
#[derive(Debug, Copy, Clone, PartialEq, Eq, Structural)]
pub enum VcmpServerOption {
    SyncFrameLimiter,
    FrameLimiter,
    TaxiBoostJump,
    DriveOnWater,
    FastSwitch,
    FriendlyFire,
    DisableDriveBy,
    PerfectHandling,
    FlyingCars,
    JumpSwitch,
    ShowMarkers,
    OnlyShowTeamMarkers,
    StuntBike,
    ShootInAir,
    ShowNameTags,
    JoinMessages,
    DeathMessages,
    ChatTagsEnabled,
    UseClasses,
    WallGlitch,
    DisableBackfaceCulling,
    DisableHeliBladeDamage,
    DisableCrouch,
}

impl VcmpServerOption {
    /// Whether the host's table lists `code`.
    pub open spec fn has_code(code: i32) -> bool {
        0 <= code <= 22
    }

    /// The variant that `code` stands for; for a code that is not listed,
    /// `SyncFrameLimiter`.
    pub open spec fn of_code(code: i32) -> Self {
        match code {
            0 => Self::SyncFrameLimiter,
            1 => Self::FrameLimiter,
            2 => Self::TaxiBoostJump,
            3 => Self::DriveOnWater,
            4 => Self::FastSwitch,
            5 => Self::FriendlyFire,
            6 => Self::DisableDriveBy,
            7 => Self::PerfectHandling,
            8 => Self::FlyingCars,
            9 => Self::JumpSwitch,
            10 => Self::ShowMarkers,
            11 => Self::OnlyShowTeamMarkers,
            12 => Self::StuntBike,
            13 => Self::ShootInAir,
            14 => Self::ShowNameTags,
            15 => Self::JoinMessages,
            16 => Self::DeathMessages,
            17 => Self::ChatTagsEnabled,
            18 => Self::UseClasses,
            19 => Self::WallGlitch,
            20 => Self::DisableBackfaceCulling,
            21 => Self::DisableHeliBladeDamage,
            22 => Self::DisableCrouch,
            _ => Self::SyncFrameLimiter,
        }
    }

    /// The code that the host knows the variant by.
    pub open spec fn code(self) -> i32 {
        match self {
            Self::SyncFrameLimiter => 0,
            Self::FrameLimiter => 1,
            Self::TaxiBoostJump => 2,
            Self::DriveOnWater => 3,
            Self::FastSwitch => 4,
            Self::FriendlyFire => 5,
            Self::DisableDriveBy => 6,
            Self::PerfectHandling => 7,
            Self::FlyingCars => 8,
            Self::JumpSwitch => 9,
            Self::ShowMarkers => 10,
            Self::OnlyShowTeamMarkers => 11,
            Self::StuntBike => 12,
            Self::ShootInAir => 13,
            Self::ShowNameTags => 14,
            Self::JoinMessages => 15,
            Self::DeathMessages => 16,
            Self::ChatTagsEnabled => 17,
            Self::UseClasses => 18,
            Self::WallGlitch => 19,
            Self::DisableBackfaceCulling => 20,
            Self::DisableHeliBladeDamage => 21,
            Self::DisableCrouch => 22,
        }
    }
}

impl From<i32> for VcmpServerOption {
    fn from(value: i32) -> (decoded: Self) {
        match value {
            0 => Self::SyncFrameLimiter,
            1 => Self::FrameLimiter,
            2 => Self::TaxiBoostJump,
            3 => Self::DriveOnWater,
            4 => Self::FastSwitch,
            5 => Self::FriendlyFire,
            6 => Self::DisableDriveBy,
            7 => Self::PerfectHandling,
            8 => Self::FlyingCars,
            9 => Self::JumpSwitch,
            10 => Self::ShowMarkers,
            11 => Self::OnlyShowTeamMarkers,
            12 => Self::StuntBike,
            13 => Self::ShootInAir,
            14 => Self::ShowNameTags,
            15 => Self::JoinMessages,
            16 => Self::DeathMessages,
            17 => Self::ChatTagsEnabled,
            18 => Self::UseClasses,
            19 => Self::WallGlitch,
            20 => Self::DisableBackfaceCulling,
            21 => Self::DisableHeliBladeDamage,
            22 => Self::DisableCrouch,
            _ => Self::SyncFrameLimiter,
        }
    }
}

impl FromSpecImpl<i32> for VcmpServerOption {
    open spec fn obeys_from_spec() -> bool {
        true
    }

    open spec fn from_spec(value: i32) -> Self {
        Self::of_code(value)
    }
}

impl From<VcmpServerOption> for i32 {
    fn from(val: VcmpServerOption) -> (code: i32) {
        match val {
            VcmpServerOption::SyncFrameLimiter => 0,
            VcmpServerOption::FrameLimiter => 1,
            VcmpServerOption::TaxiBoostJump => 2,
            VcmpServerOption::DriveOnWater => 3,
            VcmpServerOption::FastSwitch => 4,
            VcmpServerOption::FriendlyFire => 5,
            VcmpServerOption::DisableDriveBy => 6,
            VcmpServerOption::PerfectHandling => 7,
            VcmpServerOption::FlyingCars => 8,
            VcmpServerOption::JumpSwitch => 9,
            VcmpServerOption::ShowMarkers => 10,
            VcmpServerOption::OnlyShowTeamMarkers => 11,
            VcmpServerOption::StuntBike => 12,
            VcmpServerOption::ShootInAir => 13,
            VcmpServerOption::ShowNameTags => 14,
            VcmpServerOption::JoinMessages => 15,
            VcmpServerOption::DeathMessages => 16,
            VcmpServerOption::ChatTagsEnabled => 17,
            VcmpServerOption::UseClasses => 18,
            VcmpServerOption::WallGlitch => 19,
            VcmpServerOption::DisableBackfaceCulling => 20,
            VcmpServerOption::DisableHeliBladeDamage => 21,
            VcmpServerOption::DisableCrouch => 22,
        }
    }
}

impl FromSpecImpl<VcmpServerOption> for i32 {
    open spec fn obeys_from_spec() -> bool {
        true
    }

    open spec fn from_spec(val: VcmpServerOption) -> i32 {
        val.code()
    }
}

/// A code that the table does not list decodes to `SyncFrameLimiter`.
pub proof fn lemma_server_option_default(code: i32)
    requires
        !VcmpServerOption::has_code(code),
    ensures
        VcmpServerOption::of_code(code) == VcmpServerOption::SyncFrameLimiter,
{
}

/// Each variant has a listed code of its own, and that code decodes to the
/// variant.
pub proof fn lemma_server_option_code_of_variant(variant: VcmpServerOption)
    ensures
        VcmpServerOption::has_code(variant.code()),
        VcmpServerOption::of_code(variant.code()) == variant,
{
}

/// A listed code survives decoding and encoding.
pub proof fn lemma_server_option_listed_code(code: i32)
    requires
        VcmpServerOption::has_code(code),
    ensures
        VcmpServerOption::of_code(code).code() == code,
{
}

/// A switch of one player.
#[derive(Debug, Copy, Clone, PartialEq, Eq, Structural)]
pub enum VcmpPlayerOption {
    Controllable,
    DriveBy,
    WhiteScanlines,
    GreenScanlines,
    Widescreen,
    ShowMarkers,
    CanAttack,
    HasMarker,
    ChatTagsEnabled,
    DrunkEffectsDeprecated,
    Bleeding,
}

impl VcmpPlayerOption {
    /// Whether the host's table lists `code`.
    pub open spec fn has_code(code: i32) -> bool {
        0 <= code <= 10
    }

    /// The variant that `code` stands for; for a code that is not listed,
    /// `Controllable`.
    pub open spec fn of_code(code: i32) -> Self {
        match code {
            0 => Self::Controllable,
            1 => Self::DriveBy,
            2 => Self::WhiteScanlines,
            3 => Self::GreenScanlines,
            4 => Self::Widescreen,
            5 => Self::ShowMarkers,
            6 => Self::CanAttack,
            7 => Self::HasMarker,
            8 => Self::ChatTagsEnabled,
            9 => Self::DrunkEffectsDeprecated,
            10 => Self::Bleeding,
            _ => Self::Controllable,
        }
    }

    /// The code that the host knows the variant by.
    pub open spec fn code(self) -> i32 {
        match self {
            Self::Controllable => 0,
            Self::DriveBy => 1,
            Self::WhiteScanlines => 2,
            Self::GreenScanlines => 3,
            Self::Widescreen => 4,
            Self::ShowMarkers => 5,
            Self::CanAttack => 6,
            Self::HasMarker => 7,
            Self::ChatTagsEnabled => 8,
            Self::DrunkEffectsDeprecated => 9,
            Self::Bleeding => 10,
        }
    }
}

impl From<i32> for VcmpPlayerOption {
    fn from(value: i32) -> (decoded: Self) {
        match value {
            0 => Self::Controllable,
            1 => Self::DriveBy,
            2 => Self::WhiteScanlines,
            3 => Self::GreenScanlines,
            4 => Self::Widescreen,
            5 => Self::ShowMarkers,
            6 => Self::CanAttack,
            7 => Self::HasMarker,
            8 => Self::ChatTagsEnabled,
            9 => Self::DrunkEffectsDeprecated,
            10 => Self::Bleeding,
            _ => Self::Controllable,
        }
    }
}

impl FromSpecImpl<i32> for VcmpPlayerOption {
    open spec fn obeys_from_spec() -> bool {
        true
    }

    open spec fn from_spec(value: i32) -> Self {
        Self::of_code(value)
    }
}

impl From<VcmpPlayerOption> for i32 {
    fn from(val: VcmpPlayerOption) -> (code: i32) {
        match val {
            VcmpPlayerOption::Controllable => 0,
            VcmpPlayerOption::DriveBy => 1,
            VcmpPlayerOption::WhiteScanlines => 2,
            VcmpPlayerOption::GreenScanlines => 3,
            VcmpPlayerOption::Widescreen => 4,
            VcmpPlayerOption::ShowMarkers => 5,
            VcmpPlayerOption::CanAttack => 6,
            VcmpPlayerOption::HasMarker => 7,
            VcmpPlayerOption::ChatTagsEnabled => 8,
            VcmpPlayerOption::DrunkEffectsDeprecated => 9,
            VcmpPlayerOption::Bleeding => 10,
        }
    }
}

impl FromSpecImpl<VcmpPlayerOption> for i32 {
    open spec fn obeys_from_spec() -> bool {
        true
    }

    open spec fn from_spec(val: VcmpPlayerOption) -> i32 {
        val.code()
    }
}

/// A code that the table does not list decodes to `Controllable`.
pub proof fn lemma_player_option_default(code: i32)
    requires
        !VcmpPlayerOption::has_code(code),
    ensures
        VcmpPlayerOption::of_code(code) == VcmpPlayerOption::Controllable,
{
}

/// Each variant has a listed code of its own, and that code decodes to the
/// variant.
pub proof fn lemma_player_option_code_of_variant(variant: VcmpPlayerOption)
    ensures
        VcmpPlayerOption::has_code(variant.code()),
        VcmpPlayerOption::of_code(variant.code()) == variant,
{
}

/// A listed code survives decoding and encoding.
pub proof fn lemma_player_option_listed_code(code: i32)
    requires
        VcmpPlayerOption::has_code(code),
    ensures
        VcmpPlayerOption::of_code(code).code() == code,
{
}

/// A switch of one vehicle.
#[derive(Debug, Copy, Clone, PartialEq, Eq, Structural)]
pub enum VcmpVehicleOption {
    DoorsLocked,
    Alarm,
    Lights,
    RadioLocked,
    GhostMode,
    Siren,
    SingleUse,
    EngineDisabled,
    BootOpen,
    BonnetOpen,
}

impl VcmpVehicleOption {
    /// Whether the host's table lists `code`.
    pub open spec fn has_code(code: i32) -> bool {
        0 <= code <= 9
    }

    /// The variant that `code` stands for; for a code that is not listed,
    /// `DoorsLocked`.
    pub open spec fn of_code(code: i32) -> Self {
        match code {
            0 => Self::DoorsLocked,
            1 => Self::Alarm,
            2 => Self::Lights,
            3 => Self::RadioLocked,
            4 => Self::GhostMode,
            5 => Self::Siren,
            6 => Self::SingleUse,
            7 => Self::EngineDisabled,
            8 => Self::BootOpen,
            9 => Self::BonnetOpen,
            _ => Self::DoorsLocked,
        }
    }

    /// The code that the host knows the variant by.
    pub open spec fn code(self) -> i32 {
        match self {
            Self::DoorsLocked => 0,
            Self::Alarm => 1,
            Self::Lights => 2,
            Self::RadioLocked => 3,
            Self::GhostMode => 4,
            Self::Siren => 5,
            Self::SingleUse => 6,
            Self::EngineDisabled => 7,
            Self::BootOpen => 8,
            Self::BonnetOpen => 9,
        }
    }
}

impl From<i32> for VcmpVehicleOption {
    fn from(value: i32) -> (decoded: Self) {
        match value {
            0 => Self::DoorsLocked,
            1 => Self::Alarm,
            2 => Self::Lights,
            3 => Self::RadioLocked,
            4 => Self::GhostMode,
            5 => Self::Siren,
            6 => Self::SingleUse,
            7 => Self::EngineDisabled,
            8 => Self::BootOpen,
            9 => Self::BonnetOpen,
            _ => Self::DoorsLocked,
        }
    }
}

impl FromSpecImpl<i32> for VcmpVehicleOption {
    open spec fn obeys_from_spec() -> bool {
        true
    }

    open spec fn from_spec(value: i32) -> Self {
        Self::of_code(value)
    }
}

impl From<VcmpVehicleOption> for i32 {
    fn from(val: VcmpVehicleOption) -> (code: i32) {
        match val {
            VcmpVehicleOption::DoorsLocked => 0,
            VcmpVehicleOption::Alarm => 1,
            VcmpVehicleOption::Lights => 2,
            VcmpVehicleOption::RadioLocked => 3,
            VcmpVehicleOption::GhostMode => 4,
            VcmpVehicleOption::Siren => 5,
            VcmpVehicleOption::SingleUse => 6,
            VcmpVehicleOption::EngineDisabled => 7,
            VcmpVehicleOption::BootOpen => 8,
            VcmpVehicleOption::BonnetOpen => 9,
        }
    }
}

impl FromSpecImpl<VcmpVehicleOption> for i32 {
    open spec fn obeys_from_spec() -> bool {
        true
    }

    open spec fn from_spec(val: VcmpVehicleOption) -> i32 {
        val.code()
    }
}

/// A code that the table does not list decodes to `DoorsLocked`.
pub proof fn lemma_vehicle_option_default(code: i32)
    requires
        !VcmpVehicleOption::has_code(code),
    ensures
        VcmpVehicleOption::of_code(code) == VcmpVehicleOption::DoorsLocked,
{
}

/// Each variant has a listed code of its own, and that code decodes to the
/// variant.
pub proof fn lemma_vehicle_option_code_of_variant(variant: VcmpVehicleOption)
    ensures
        VcmpVehicleOption::has_code(variant.code()),
        VcmpVehicleOption::of_code(variant.code()) == variant,
{
}

/// A listed code survives decoding and encoding.
pub proof fn lemma_vehicle_option_listed_code(code: i32)
    requires
        VcmpVehicleOption::has_code(code),
    ensures
        VcmpVehicleOption::of_code(code).code() == code,
{
}

/// A switch of one pickup.
#[derive(Debug, Copy, Clone, PartialEq, Eq, Structural)]
pub enum VcmpPickupOption {
    SingleUse,
}

impl VcmpPickupOption {
    /// Whether the host's table lists `code`.
    pub open spec fn has_code(code: i32) -> bool {
        code == 0
    }

    /// The variant that `code` stands for; for a code that is not listed,
    /// `SingleUse`.
    pub open spec fn of_code(code: i32) -> Self {
        Self::SingleUse
    }

    /// The code that the host knows the variant by.
    pub open spec fn code(self) -> i32 {
        match self {
            Self::SingleUse => 0,
        }
    }
}

impl From<i32> for VcmpPickupOption {
    fn from(_value: i32) -> (decoded: Self) {
        Self::SingleUse
    }
}

impl FromSpecImpl<i32> for VcmpPickupOption {
    open spec fn obeys_from_spec() -> bool {
        true
    }

    open spec fn from_spec(_value: i32) -> Self {
        Self::of_code(_value)
    }
}

impl From<VcmpPickupOption> for i32 {
    fn from(val: VcmpPickupOption) -> (code: i32) {
        match val {
            VcmpPickupOption::SingleUse => 0,
        }
    }
}

impl FromSpecImpl<VcmpPickupOption> for i32 {
    open spec fn obeys_from_spec() -> bool {
        true
    }

    open spec fn from_spec(val: VcmpPickupOption) -> i32 {
        val.code()
    }
}

/// A code that the table does not list decodes to `SingleUse`.
pub proof fn lemma_pickup_option_default(code: i32)
    requires
        !VcmpPickupOption::has_code(code),
    ensures
        VcmpPickupOption::of_code(code) == VcmpPickupOption::SingleUse,
{
}

/// Each variant has a listed code of its own, and that code decodes to the
/// variant.
pub proof fn lemma_pickup_option_code_of_variant(variant: VcmpPickupOption)
    ensures
        VcmpPickupOption::has_code(variant.code()),
        VcmpPickupOption::of_code(variant.code()) == variant,
{
}

/// A listed code survives decoding and encoding.
pub proof fn lemma_pickup_option_listed_code(code: i32)
    requires
        VcmpPickupOption::has_code(code),
    ensures
        VcmpPickupOption::of_code(code).code() == code,
{
}

/// The host's pools of entities.
#[derive(Debug, Copy, Clone, PartialEq, Eq, Structural)]
pub enum VcmpEntityPool {
    Vehicle,
    Object,
    Pickup,
    Radio,
    Player,
    Reserved1,
    Marker,
    CheckPoint,
}

impl VcmpEntityPool {
    /// Whether the host's table lists `code`.
    pub open spec fn has_code(code: i32) -> bool {
        1 <= code <= 8
    }

    /// The variant that `code` stands for; for a code that is not listed,
    /// `Reserved1`.
    pub open spec fn of_code(code: i32) -> Self {
        match code {
            1 => Self::Vehicle,
            2 => Self::Object,
            3 => Self::Pickup,
            4 => Self::Radio,
            5 => Self::Player,
            6 => Self::Reserved1,
            7 => Self::Marker,
            8 => Self::CheckPoint,
            _ => Self::Reserved1,
        }
    }

    /// The code that the host knows the variant by.
    pub open spec fn code(self) -> i32 {
        match self {
            Self::Vehicle => 1,
            Self::Object => 2,
            Self::Pickup => 3,
            Self::Radio => 4,
            Self::Player => 5,
            Self::Reserved1 => 6,
            Self::Marker => 7,
            Self::CheckPoint => 8,
        }
    }
}

impl From<i32> for VcmpEntityPool {
    fn from(value: i32) -> (decoded: Self) {
        match value {
            1 => Self::Vehicle,
            2 => Self::Object,
            3 => Self::Pickup,
            4 => Self::Radio,
            5 => Self::Player,
            6 => Self::Reserved1,
            7 => Self::Marker,
            8 => Self::CheckPoint,
            _ => Self::Reserved1,
        }
    }
}

impl FromSpecImpl<i32> for VcmpEntityPool {
    open spec fn obeys_from_spec() -> bool {
        true
    }

    open spec fn from_spec(value: i32) -> Self {
        Self::of_code(value)
    }
}

impl From<VcmpEntityPool> for i32 {
    fn from(val: VcmpEntityPool) -> (code: i32) {
        match val {
            VcmpEntityPool::Vehicle => 1,
            VcmpEntityPool::Object => 2,
            VcmpEntityPool::Pickup => 3,
            VcmpEntityPool::Radio => 4,
            VcmpEntityPool::Player => 5,
            VcmpEntityPool::Reserved1 => 6,
            VcmpEntityPool::Marker => 7,
            VcmpEntityPool::CheckPoint => 8,
        }
    }
}

impl FromSpecImpl<VcmpEntityPool> for i32 {
    open spec fn obeys_from_spec() -> bool {
        true
    }

    open spec fn from_spec(val: VcmpEntityPool) -> i32 {
        val.code()
    }
}

/// A code that the table does not list decodes to `Reserved1`.
pub proof fn lemma_entity_pool_default(code: i32)
    requires
        !VcmpEntityPool::has_code(code),
    ensures
        VcmpEntityPool::of_code(code) == VcmpEntityPool::Reserved1,
{
}

/// Each variant has a listed code of its own, and that code decodes to the
/// variant.
pub proof fn lemma_entity_pool_code_of_variant(variant: VcmpEntityPool)
    ensures
        VcmpEntityPool::has_code(variant.code()),
        VcmpEntityPool::of_code(variant.code()) == variant,
{
}

/// A listed code survives decoding and encoding.
pub proof fn lemma_entity_pool_listed_code(code: i32)
    requires
        VcmpEntityPool::has_code(code),
    ensures
        VcmpEntityPool::of_code(code).code() == code,
{
}

} // verus!
