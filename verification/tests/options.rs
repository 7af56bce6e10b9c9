use vcmp_bindings::options::{
    VcmpEntityPool, VcmpNetworkStatisticsQueryOption, VcmpPickupOption, VcmpPlayerOption,
    VcmpServerOption, VcmpVehicleOption,
};
use vcmp_bindings::states::VcmpPlayerState;

const STRANGE_CODES: [i32; 6] = [-1, i32::MIN, i32::MAX, 1000, 255, 256];

#[test]
fn server_option_codes() {
    let table = [
        VcmpServerOption::SyncFrameLimiter,
        VcmpServerOption::FrameLimiter,
        VcmpServerOption::TaxiBoostJump,
        VcmpServerOption::DriveOnWater,
        VcmpServerOption::FastSwitch,
        VcmpServerOption::FriendlyFire,
        VcmpServerOption::DisableDriveBy,
        VcmpServerOption::PerfectHandling,
        VcmpServerOption::FlyingCars,
        VcmpServerOption::JumpSwitch,
        VcmpServerOption::ShowMarkers,
        VcmpServerOption::OnlyShowTeamMarkers,
        VcmpServerOption::StuntBike,
        VcmpServerOption::ShootInAir,
        VcmpServerOption::ShowNameTags,
        VcmpServerOption::JoinMessages,
        VcmpServerOption::DeathMessages,
        VcmpServerOption::ChatTagsEnabled,
        VcmpServerOption::UseClasses,
        VcmpServerOption::WallGlitch,
        VcmpServerOption::DisableBackfaceCulling,
        VcmpServerOption::DisableHeliBladeDamage,
        VcmpServerOption::DisableCrouch,
    ];
    let mut code = 0;
    for option in table {
        assert_eq!(i32::from(option), code);
        assert_eq!(VcmpServerOption::from(code), option);
        code += 1;
    }
    assert_eq!(code, 23);
    assert_eq!(VcmpServerOption::from(23), VcmpServerOption::SyncFrameLimiter);
    for strange in STRANGE_CODES {
        assert_eq!(VcmpServerOption::from(strange), VcmpServerOption::SyncFrameLimiter);
    }
}

#[test]
fn network_statistics_codes() {
    let table = [
        VcmpNetworkStatisticsQueryOption::DataSentPerSecond,
        VcmpNetworkStatisticsQueryOption::DataResentPerSecond,
        VcmpNetworkStatisticsQueryOption::DataReceivedPerSecond,
        VcmpNetworkStatisticsQueryOption::DataDiscardedPerSecond,
        VcmpNetworkStatisticsQueryOption::AllBytesSentPerSecond,
        VcmpNetworkStatisticsQueryOption::AllBytesReceivedPerSecond,
        VcmpNetworkStatisticsQueryOption::DataSentTotal,
        VcmpNetworkStatisticsQueryOption::DataResentTotal,
        VcmpNetworkStatisticsQueryOption::DataReceivedTotal,
        VcmpNetworkStatisticsQueryOption::DataDiscardedTotal,
        VcmpNetworkStatisticsQueryOption::AllBytesSentTotal,
        VcmpNetworkStatisticsQueryOption::AllBytesReceivedTotal,
        VcmpNetworkStatisticsQueryOption::MessagesWaiting,
        VcmpNetworkStatisticsQueryOption::MessagesResending,
        VcmpNetworkStatisticsQueryOption::BytesResending,
        VcmpNetworkStatisticsQueryOption::PacketLossPerSecond,
        VcmpNetworkStatisticsQueryOption::PacketLossTotal,
    ];
    let mut code = 0;
    for option in table {
        assert_eq!(i32::from(option), code);
        assert_eq!(VcmpNetworkStatisticsQueryOption::from(code), option);
        code += 1;
    }
    assert_eq!(code, 17);
    for strange in STRANGE_CODES {
        assert_eq!(
            VcmpNetworkStatisticsQueryOption::from(strange),
            VcmpNetworkStatisticsQueryOption::DataSentPerSecond
        );
    }
    assert_eq!(
        VcmpNetworkStatisticsQueryOption::from(17),
        VcmpNetworkStatisticsQueryOption::DataSentPerSecond
    );
}

#[test]
fn player_option_codes() {
    let table = [
        VcmpPlayerOption::Controllable,
        VcmpPlayerOption::DriveBy,
        VcmpPlayerOption::WhiteScanlines,
        VcmpPlayerOption::GreenScanlines,
        VcmpPlayerOption::Widescreen,
        VcmpPlayerOption::ShowMarkers,
        VcmpPlayerOption::CanAttack,
        VcmpPlayerOption::HasMarker,
        VcmpPlayerOption::ChatTagsEnabled,
        VcmpPlayerOption::DrunkEffectsDeprecated,
        VcmpPlayerOption::Bleeding,
    ];
    let mut code = 0;
    for option in table {
        assert_eq!(i32::from(option), code);
        assert_eq!(VcmpPlayerOption::from(code), option);
        code += 1;
    }
    assert_eq!(VcmpPlayerOption::from(11), VcmpPlayerOption::Controllable);
    for strange in STRANGE_CODES {
        assert_eq!(VcmpPlayerOption::from(strange), VcmpPlayerOption::Controllable);
    }
}

#[test]
fn vehicle_option_codes() {
    let table = [
        VcmpVehicleOption::DoorsLocked,
        VcmpVehicleOption::Alarm,
        VcmpVehicleOption::Lights,
        VcmpVehicleOption::RadioLocked,
        VcmpVehicleOption::GhostMode,
        VcmpVehicleOption::Siren,
        VcmpVehicleOption::SingleUse,
        VcmpVehicleOption::EngineDisabled,
        VcmpVehicleOption::BootOpen,
        VcmpVehicleOption::BonnetOpen,
    ];
    let mut code = 0;
    for option in table {
        assert_eq!(i32::from(option), code);
        assert_eq!(VcmpVehicleOption::from(code), option);
        code += 1;
    }
    assert_eq!(VcmpVehicleOption::from(10), VcmpVehicleOption::DoorsLocked);
    for strange in STRANGE_CODES {
        assert_eq!(VcmpVehicleOption::from(strange), VcmpVehicleOption::DoorsLocked);
    }
}

#[test]
fn pickup_option_codes() {
    assert_eq!(i32::from(VcmpPickupOption::SingleUse), 0);
    assert_eq!(VcmpPickupOption::from(0), VcmpPickupOption::SingleUse);
    assert_eq!(VcmpPickupOption::from(1), VcmpPickupOption::SingleUse);
    for strange in STRANGE_CODES {
        assert_eq!(VcmpPickupOption::from(strange), VcmpPickupOption::SingleUse);
    }
}

#[test]
fn entity_pool_codes() {
    let table = [
        VcmpEntityPool::Vehicle,
        VcmpEntityPool::Object,
        VcmpEntityPool::Pickup,
        VcmpEntityPool::Radio,
        VcmpEntityPool::Player,
        VcmpEntityPool::Reserved1,
        VcmpEntityPool::Marker,
        VcmpEntityPool::CheckPoint,
    ];
    let mut code = 1;
    for pool in table {
        assert_eq!(i32::from(pool), code);
        assert_eq!(VcmpEntityPool::from(code), pool);
        code += 1;
    }
    assert_eq!(VcmpEntityPool::from(0), VcmpEntityPool::Reserved1);
    assert_eq!(VcmpEntityPool::from(9), VcmpEntityPool::Reserved1);
    for strange in STRANGE_CODES {
        assert_eq!(VcmpEntityPool::from(strange), VcmpEntityPool::Reserved1);
    }
}

#[test]
fn player_state_codes() {
    let table = [
        VcmpPlayerState::NoState,
        VcmpPlayerState::Normal,
        VcmpPlayerState::Aim,
        VcmpPlayerState::Driver,
        VcmpPlayerState::Passenger,
        VcmpPlayerState::EnterDriver,
        VcmpPlayerState::EnterPassenger,
        VcmpPlayerState::Exit,
        VcmpPlayerState::Unspawned,
    ];
    let mut code = 0;
    for state in table {
        assert_eq!(VcmpPlayerState::from(code), state);
        code += 1;
    }
    assert_eq!(VcmpPlayerState::from(9), VcmpPlayerState::NoState);
    for strange in STRANGE_CODES {
        assert_eq!(VcmpPlayerState::from(strange), VcmpPlayerState::NoState);
    }
}
