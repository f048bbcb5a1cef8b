use garland::controller::{
    drive_outcome, ActuatorError, EffectKind, GarlandController, OnOffCommand,
};
use garland::descriptor::{
    contains_id, full_on_off_cluster, keep_selected, Node, ATTR_ON_OFF, ATTR_SERVER_LIST,
    ATTR_START_UP_ON_OFF, CLUSTER_DESCRIPTOR, CLUSTER_ON_OFF, CMD_OFF, CMD_OFF_WITH_EFFECT,
    CMD_ON, CMD_TOGGLE, DEVICE_TYPE_ON_OFF_LIGHT, LIGHT_ENDPOINT_ID, ON_OFF_REVISION,
};
use garland::policy::{decode_record, encode_record, load, StartupBehavior, StorageError};
use garland::router::{AttrValue, Device, Invocation, Operation, Reply, RouteError};

fn invoke(cluster: u32, cmd: u32) -> Invocation {
    Invocation { endpoint: LIGHT_ENDPOINT_ID, cluster, op: Operation::Invoke(cmd) }
}

fn read(cluster: u32, attr: u32) -> Invocation {
    Invocation { endpoint: LIGHT_ENDPOINT_ID, cluster, op: Operation::ReadAttribute(attr) }
}

#[test]
fn new_controller_is_off_without_preference() {
    let c = GarlandController::new();
    assert!(!c.get_state());
    assert_eq!(c.get_startup_behavior(), None);
    assert_eq!(c.data_version(), 0);
}

#[test]
fn toggle_sequence_follows_last_absolute_command() {
    let mut c = GarlandController::new();
    let cmds = vec![
        OnOffCommand::Toggle,
        OnOffCommand::On,
        OnOffCommand::Toggle,
        OnOffCommand::Toggle,
        OnOffCommand::Toggle,
    ];
    let levels = c.apply_all(&cmds);
    assert_eq!(levels, vec![true, true, false, true, false]);
    assert!(!c.get_state());

    let mut d = GarlandController::new();
    d.apply_all(&vec![OnOffCommand::Off, OnOffCommand::Toggle, OnOffCommand::Toggle]);
    assert!(!d.get_state());
    d.apply_all(&vec![OnOffCommand::Toggle]);
    assert!(d.get_state());
}

#[test]
fn toggle_inverts_state() {
    let mut c = GarlandController::new();
    assert!(c.toggle());
    assert!(c.get_state());
    assert!(!c.toggle());
    assert!(!c.get_state());
}

#[test]
fn off_with_effect_always_turns_off() {
    for effect in [EffectKind::DelayedAllOff, EffectKind::DyingLight] {
        let mut c = GarlandController::new();
        c.set_state(true);
        assert!(!c.handle_off_with_effect(effect));
        assert!(!c.get_state());
        assert!(!c.handle_off_with_effect(effect));
        assert!(!c.get_state());
    }
}

#[test]
fn startup_force_on_turns_on_once() {
    let mut c = GarlandController::new();
    let r = c.start_up(Ok(Some(StartupBehavior::ForceOn)), None);
    assert_eq!(r, Ok(true));
    assert!(c.get_state());
    assert_eq!(c.get_startup_behavior(), Some(StartupBehavior::ForceOn));
}

#[test]
fn startup_without_preference_turns_off_once() {
    let mut c = GarlandController::new();
    let r = c.start_up(Ok(None), Some(true));
    assert_eq!(r, Ok(false));
    assert!(!c.get_state());
}

#[test]
fn startup_force_off_and_restore() {
    let mut c = GarlandController::new();
    assert_eq!(c.start_up(Ok(Some(StartupBehavior::ForceOff)), Some(true)), Ok(false));
    let mut r = GarlandController::new();
    assert_eq!(r.start_up(Ok(Some(StartupBehavior::Restore)), Some(true)), Ok(true));
    assert!(r.get_state());
    let mut n = GarlandController::new();
    assert_eq!(n.start_up(Ok(Some(StartupBehavior::Restore)), None), Ok(false));
    assert!(!n.get_state());
}

#[test]
fn startup_storage_fault_is_passed_on_and_leaves_off() {
    let mut c = GarlandController::new();
    c.set_state(true);
    let r = c.start_up(Err(StorageError::Io(5)), Some(true));
    assert_eq!(r, Err(StorageError::Io(5)));
    assert!(!c.get_state());
    assert_eq!(c.get_startup_behavior(), None);
}

#[test]
fn actuator_fault_keeps_logical_state() {
    let mut c = GarlandController::new();
    let level = c.set_state(true);
    assert!(level);
    assert_eq!(drive_outcome(level, -1), Err(ActuatorError { level: true, code: -1 }));
    assert!(c.get_state());
    assert_eq!(drive_outcome(false, 0), Ok(()));
}

#[test]
fn data_version_advances_on_change_only_and_wraps() {
    let mut c = GarlandController::with_data_version(u32::MAX);
    c.set_state(false);
    assert_eq!(c.data_version(), u32::MAX);
    c.set_state(true);
    assert_eq!(c.data_version(), 0);
    c.set_startup_behavior(Some(StartupBehavior::ForceOn));
    assert_eq!(c.data_version(), 1);
    c.set_startup_behavior(Some(StartupBehavior::ForceOn));
    assert_eq!(c.data_version(), 1);
}

#[test]
fn startup_behavior_round_trip() {
    let mut c = GarlandController::new();
    let record = c.set_startup_behavior(Some(StartupBehavior::ForceOff));
    assert_eq!(c.get_startup_behavior(), Some(StartupBehavior::ForceOff));
    assert_eq!(record, vec![0u8]);
    assert_eq!(load(Ok(Some(record))), Ok(Some(StartupBehavior::ForceOff)));
    assert!(!c.get_state());
}

#[test]
fn policy_records_encode_and_decode() {
    assert_eq!(encode_record(None), Vec::<u8>::new());
    assert_eq!(encode_record(Some(StartupBehavior::ForceOn)), vec![1u8]);
    assert_eq!(encode_record(Some(StartupBehavior::Restore)), vec![2u8]);
    assert_eq!(decode_record(&[]), Ok(None));
    assert_eq!(decode_record(&[2]), Ok(Some(StartupBehavior::Restore)));
    assert_eq!(decode_record(&[3]), Err(StorageError::Corrupt));
    assert_eq!(decode_record(&[0, 0]), Err(StorageError::Corrupt));
    assert_eq!(load(Ok(None)), Ok(None));
    assert_eq!(load(Err(StorageError::Io(7))), Err(StorageError::Io(7)));
}

#[test]
fn on_off_cluster_is_narrowed() {
    let full = full_on_off_cluster();
    let n = full.narrow(ON_OFF_REVISION, &vec![ATTR_ON_OFF], &vec![CMD_OFF, CMD_ON, CMD_TOGGLE]);
    assert_eq!(n.id, CLUSTER_ON_OFF);
    assert_eq!(n.revision, 6);
    assert_eq!(n.attrs, vec![ATTR_ON_OFF]);
    assert_eq!(n.cmds, vec![CMD_OFF, CMD_ON, CMD_TOGGLE]);
    assert_eq!(keep_selected(&vec![5, 1, 3], &vec![3, 5]), vec![5, 3]);
    assert!(contains_id(&vec![4, 9], 9));
    assert!(!contains_id(&vec![], 9));
}

#[test]
fn node_resolves_clusters() {
    let node = Node::garland();
    assert_eq!(node.endpoints.len(), 1);
    assert_eq!(node.endpoints[0].device_type, DEVICE_TYPE_ON_OFF_LIGHT);
    assert_eq!(node.find_cluster(LIGHT_ENDPOINT_ID, CLUSTER_ON_OFF), Some((0, 1)));
    assert_eq!(node.find_cluster(LIGHT_ENDPOINT_ID, CLUSTER_DESCRIPTOR), Some((0, 0)));
    assert_eq!(node.find_cluster(LIGHT_ENDPOINT_ID, 0x0008), None);
    assert_eq!(node.find_cluster(2, CLUSTER_ON_OFF), None);
    assert_eq!(node.find_endpoint(LIGHT_ENDPOINT_ID), Some(0));
    assert_eq!(node.server_list(LIGHT_ENDPOINT_ID), Some(vec![CLUSTER_DESCRIPTOR, CLUSTER_ON_OFF]));
    assert_eq!(node.server_list(0), None);
}

#[test]
fn router_dispatches_commands_and_reads() {
    let mut dev = Device::new(GarlandController::new());
    assert_eq!(dev.dispatch(&invoke(CLUSTER_ON_OFF, CMD_ON)), Ok(Reply::Drive(true)));
    assert!(dev.controller.get_state());
    assert_eq!(
        dev.dispatch(&read(CLUSTER_ON_OFF, ATTR_ON_OFF)),
        Ok(Reply::Value(AttrValue::Bool(true)))
    );
    assert_eq!(dev.dispatch(&invoke(CLUSTER_ON_OFF, CMD_TOGGLE)), Ok(Reply::Drive(false)));
    assert_eq!(dev.dispatch(&invoke(CLUSTER_ON_OFF, CMD_OFF)), Ok(Reply::Drive(false)));
    assert_eq!(
        dev.dispatch(&read(CLUSTER_DESCRIPTOR, ATTR_SERVER_LIST)),
        Ok(Reply::Value(AttrValue::List(vec![CLUSTER_DESCRIPTOR, CLUSTER_ON_OFF])))
    );
    assert_eq!(
        dev.dispatch(&read(CLUSTER_DESCRIPTOR, 0)),
        Ok(Reply::Value(AttrValue::List(vec![DEVICE_TYPE_ON_OFF_LIGHT])))
    );
    assert_eq!(
        dev.dispatch(&read(CLUSTER_DESCRIPTOR, 3)),
        Ok(Reply::Value(AttrValue::List(vec![])))
    );
}

#[test]
fn router_rejects_undeclared_items() {
    let mut dev = Device::new(GarlandController::new());
    assert_eq!(
        dev.dispatch(&invoke(CLUSTER_ON_OFF, CMD_OFF_WITH_EFFECT)),
        Err(RouteError::NotFound)
    );
    assert_eq!(
        dev.dispatch(&read(CLUSTER_ON_OFF, ATTR_START_UP_ON_OFF)),
        Err(RouteError::NotFound)
    );
    let write = Invocation {
        endpoint: LIGHT_ENDPOINT_ID,
        cluster: CLUSTER_ON_OFF,
        op: Operation::WriteAttribute(ATTR_ON_OFF, AttrValue::Bool(true)),
    };
    assert_eq!(dev.dispatch(&write), Err(RouteError::UnsupportedWrite));
    assert_eq!(dev.dispatch(&invoke(CLUSTER_DESCRIPTOR, CMD_ON)), Err(RouteError::NotFound));
    assert!(!dev.controller.get_state());
}

#[test]
fn router_unknown_cluster_changes_nothing() {
    let mut dev = Device::new(GarlandController::new());
    dev.controller.set_state(true);
    let version = dev.controller.data_version();
    assert_eq!(dev.dispatch(&invoke(0x0008, CMD_OFF)), Err(RouteError::NotFound));
    let other_endpoint = Invocation { endpoint: 7, cluster: CLUSTER_ON_OFF, op: Operation::Invoke(CMD_OFF) };
    assert_eq!(dev.dispatch(&other_endpoint), Err(RouteError::NotFound));
    assert!(dev.controller.get_state());
    assert_eq!(dev.controller.data_version(), version);
}
