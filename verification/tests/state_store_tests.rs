use matter_rgb_lamp::level_control::{LevelControlCluster, UserLevelControlLogic};
use matter_rgb_lamp::on_off::{OnOffCluster, StartUpOnOff, UserOnOffLogic};

#[test]
fn fresh_on_off_store() {
    let s = UserOnOffLogic::new();
    assert_eq!(s.raw_get_on_off(), false);
    assert_eq!(s.raw_get_start_up_on_off(), None);
}

#[test]
fn on_off_store_raw_accessors() {
    let mut s = UserOnOffLogic::new();
    s.raw_set_on_off(true);
    assert_eq!(s.raw_get_on_off(), true);
    s.raw_set_start_up_on_off(Some(StartUpOnOff::Toggle));
    assert_eq!(s.raw_get_start_up_on_off(), Some(StartUpOnOff::Toggle));
    s.raw_set_start_up_on_off(None);
    assert_eq!(s.raw_get_start_up_on_off(), None);
}

#[test]
fn fresh_level_store() {
    let s = UserLevelControlLogic::new();
    assert_eq!(s.raw_get_level(), 1);
    assert_eq!(s.raw_get_on_level(), Some(42));
    assert_eq!(s.startup_level, None);
    assert_eq!(s.options, 0);
    assert_eq!(s.remaining_time, 0);
}

#[test]
fn level_store_raw_accessors() {
    let mut s = UserLevelControlLogic::new();
    s.raw_set_level(200);
    assert_eq!(s.raw_get_level(), 200);
    s.raw_set_on_level(None);
    assert_eq!(s.raw_get_on_level(), None);
}

#[test]
fn clusters_wrap_their_stores() {
    let on_off = OnOffCluster::new(7, UserOnOffLogic::new());
    assert_eq!(on_off.dataver, 7);
    assert_eq!(on_off.on_off(), false);
    let level = LevelControlCluster::new(9, UserLevelControlLogic::new());
    assert_eq!(level.dataver, 9);
    assert_eq!(level.current_level(), 1);
    assert_eq!(level.on_level(), Some(42));
    assert_eq!(level.options(), 0);
    assert_eq!(level.start_up_current_level(), None);
}

#[test]
fn cluster_writers_bump_dataver() {
    let mut level = LevelControlCluster::new(0, UserLevelControlLogic::new());
    assert_eq!(level.set_on_level(Some(10)), Ok(()));
    assert_eq!(level.dataver, 1);
    assert_eq!(level.set_start_up_current_level(Some(20)), Ok(()));
    assert_eq!(level.dataver, 2);
    level.set_options(1);
    assert_eq!(level.dataver, 3);
    assert_eq!(level.options(), 1);
    // A rejected write neither stores nor notifies.
    assert_eq!(
        level.set_on_level(Some(0)),
        Err(matter_rgb_lamp::error::Error::InvalidCommand)
    );
    assert_eq!(level.dataver, 3);
    assert_eq!(level.on_level(), Some(10));
}

#[test]
fn unsupported_on_off_commands_rejected() {
    let on_off = OnOffCluster::new(0, UserOnOffLogic::new());
    let e = matter_rgb_lamp::error::Error::InvalidCommand;
    assert_eq!(on_off.handle_off_with_effect(), Err(e));
    assert_eq!(on_off.handle_on_with_recall_global_scene(), Err(e));
    assert_eq!(on_off.handle_on_with_timed_off(), Err(e));
}
