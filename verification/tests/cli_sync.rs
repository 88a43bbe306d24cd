use oreos::cli::diff::{diff, SyncAction};
use oreos::cli::scanner::{
    claimed_names, table_from_entries, BusLaneInfo, ComponentPayload, DeviceRefs, LineInfo,
    Metadata, MetadataTable,
};
use oreos::cli::scheme::{
    Backend, BusLane, ControlNode, Device, Kernel, Middleware, TypeName,
};
use oreos::cli::sync_engine::{apply, kind_str, resolve_bus, resolve_device};

fn meta(uuid: u32, name: &str, payload: ComponentPayload) -> Metadata {
    Metadata {
        uuid,
        name: name.to_string(),
        source: LineInfo { file: "src/main.rs".to_string(), line: 42 },
        payload,
    }
}

fn device_meta(name: &str, bus: &str, backends: &[&str], middleware: Option<&str>) -> Metadata {
    meta(
        1,
        name,
        ComponentPayload::Device {
            refs: DeviceRefs {
                state: format!("{}State", name),
                config: format!("{}Config", name),
                kernel_bus: bus.to_string(),
                backends: backends.iter().map(|b| b.to_string()).collect(),
                middleware: middleware.map(|m| m.to_string()),
            },
        },
    )
}

fn bus_meta(name: &str, lanes: &[(&str, &str, &str)]) -> Metadata {
    meta(
        2,
        name,
        ComponentPayload::Bus {
            lanes: lanes
                .iter()
                .map(|(n, t, b)| BusLaneInfo {
                    name: n.to_string(),
                    lane_type: t.to_string(),
                    bound: b.to_string(),
                })
                .collect(),
        },
    )
}

fn stored_device(name: &str) -> Device {
    Device {
        name: name.to_string(),
        state: TypeName { name: "S".to_string() },
        config: TypeName { name: "C".to_string() },
        middleware: vec![],
        kernel: Kernel {
            name: "k".to_string(),
            bus: BusLane {
                name: "b".to_string(),
                lane_type: "sync".to_string(),
                bound: "unbounded".to_string(),
            },
        },
        backends: vec![],
    }
}

fn sample_table() -> MetadataTable {
    table_from_entries(vec![
        device_meta("Heater", "HeaterBus", &["HeaterBackend"], Some("Log")),
        bus_meta("HeaterBus", &[("power", "fast", "u8"), ("temp", "slow", "u16")]),
        meta(3, "HeaterState", ComponentPayload::State),
        meta(4, "Orphan", ComponentPayload::Config),
        meta(5, "HeaterBackend", ComponentPayload::Middleware),
    ])
}

#[test]
fn table_replaces_entries_by_name() {
    let t = table_from_entries(vec![
        meta(1, "A", ComponentPayload::State),
        meta(2, "B", ComponentPayload::Config),
        meta(3, "A", ComponentPayload::Command),
    ]);
    assert_eq!(t.len(), 2);
    let a = t.get("A").unwrap();
    assert_eq!(a.uuid, 3);
    assert!(matches!(a.payload, ComponentPayload::Command));
    assert_eq!(t.values()[0].name, "A");
    assert_eq!(t.values()[1].name, "B");
    assert!(t.contains_key("B"));
    assert!(!t.contains_key("C"));
    assert!(t.get("C").is_none());
}

#[test]
fn table_insert_keeps_first_position() {
    let mut t = MetadataTable::new();
    assert_eq!(t.len(), 0);
    t.insert(meta(1, "X", ComponentPayload::State));
    t.insert(meta(2, "Y", ComponentPayload::State));
    t.insert(meta(9, "X", ComponentPayload::Middleware));
    assert_eq!(t.len(), 2);
    assert_eq!(t.values()[0].uuid, 9);
    assert_eq!(t.values()[1].uuid, 2);
}

#[test]
fn claimed_names_lists_every_reference_once() {
    let t = table_from_entries(vec![
        device_meta("D1", "Bus", &["B1", "B2", "B1"], Some("M")),
        device_meta("D2", "Bus", &["B2"], None),
        meta(7, "Lonely", ComponentPayload::State),
    ]);
    let mut names = claimed_names(&t);
    names.sort();
    assert_eq!(
        names,
        vec!["B1", "B2", "Bus", "D1Config", "D1State", "D2Config", "D2State", "M"]
    );
}

#[test]
fn resolve_bus_takes_the_first_lane() {
    let t = sample_table();
    let lane = resolve_bus("HeaterBus", &t).unwrap();
    assert_eq!(lane.name, "HeaterBus");
    assert_eq!(lane.lane_type, "fast");
    assert_eq!(lane.bound, "u8");
    assert!(resolve_bus("HeaterState", &t).is_none());
    assert!(resolve_bus("Missing", &t).is_none());
    let empty = table_from_entries(vec![bus_meta("Empty", &[])]);
    assert!(resolve_bus("Empty", &empty).is_none());
}

#[test]
fn resolve_device_builds_the_description() {
    let t = sample_table();
    let d = resolve_device(t.get("Heater").unwrap(), &t).unwrap();
    assert_eq!(d.name, "Heater");
    assert_eq!(d.state.name, "HeaterState");
    assert_eq!(d.config.name, "HeaterConfig");
    assert_eq!(d.kernel.name, "HeaterBus");
    assert_eq!(d.kernel.bus.lane_type, "fast");
    assert_eq!(d.backends.len(), 1);
    assert_eq!(d.backends[0].name, "HeaterBackend");
    assert!(d.backends[0].periph_access.is_none());
    assert_eq!(d.middleware.len(), 1);
    assert_eq!(d.middleware[0].name, "Log");

    let unresolved = device_meta("Cold", "NoBus", &[], None);
    assert!(resolve_device(&unresolved, &t).is_none());
    assert!(resolve_device(t.get("Orphan").unwrap(), &t).is_none());
}

#[test]
fn kind_str_names_every_kind() {
    assert_eq!(kind_str(&ComponentPayload::State), "state");
    assert_eq!(kind_str(&ComponentPayload::Config), "config");
    assert_eq!(kind_str(&ComponentPayload::Kernel { bus: "b".to_string() }), "kernel");
    assert_eq!(kind_str(&ComponentPayload::Middleware), "middleware");
    assert_eq!(kind_str(&ComponentPayload::Command), "command");
    assert_eq!(kind_str(&ComponentPayload::Create { parent: None }), "create");
    assert_eq!(kind_str(&ComponentPayload::Bus { lanes: vec![] }), "bus");
    assert_eq!(kind_str(&device_meta("D", "B", &[], None).payload), "device");
}

#[test]
fn diff_orders_additions_dangling_then_blocked() {
    let t = sample_table();
    let mut node = ControlNode::default();
    node.devices.push(stored_device("Gone"));
    let actions = diff(&t, &node);
    assert_eq!(actions.len(), 3);
    assert!(matches!(&actions[0], SyncAction::AddToToml(m) if m.name == "Heater"));
    assert!(matches!(&actions[1], SyncAction::WarnDangling(m) if m.name == "Orphan"));
    assert!(matches!(&actions[2], SyncAction::WarnDeleteBlocked(n) if n == "Gone"));
}

#[test]
fn diff_of_a_synchronised_description_is_empty() {
    let t = table_from_entries(vec![
        device_meta("Heater", "HeaterBus", &[], None),
        bus_meta("HeaterBus", &[("l", "t", "b")]),
        meta(3, "HeaterState", ComponentPayload::State),
        meta(4, "HeaterConfig", ComponentPayload::Config),
    ]);
    let mut node = ControlNode::default();
    node.devices.push(stored_device("Heater"));
    assert!(diff(&t, &node).is_empty());
}

#[test]
fn apply_adds_devices_registers_dangling_and_keeps_blocked() {
    let t = sample_table();
    let mut node = ControlNode::default();
    node.name = "node".to_string();
    node.devices.push(stored_device("Gone"));
    let actions = diff(&t, &node);
    let log = apply(&actions, &mut node, &t);
    assert_eq!(
        log,
        vec![
            "Added device 'Heater'".to_string(),
            "Registered 'Orphan' as unresolved (dangling)".to_string(),
            "Gone — remove from code first".to_string(),
        ]
    );
    assert_eq!(node.name, "node");
    assert_eq!(node.devices.len(), 2);
    assert_eq!(node.devices[0].name, "Gone");
    assert_eq!(node.devices[1].name, "Heater");
    assert_eq!(node.unresolved.len(), 1);
    assert_eq!(node.unresolved[0].name, "Orphan");
    assert_eq!(node.unresolved[0].kind, "config");
    assert_eq!(node.unresolved[0].uuid, 4);
    assert_eq!(node.unresolved[0].source, "src/main.rs:42");
}

#[test]
fn apply_skips_devices_that_do_not_resolve() {
    let t = table_from_entries(vec![device_meta("Cold", "NoBus", &[], None)]);
    let mut node = ControlNode::default();
    let actions = vec![
        SyncAction::AddToToml(device_meta("Cold", "NoBus", &[], None)),
        SyncAction::NoOp,
        SyncAction::UpdateRefs(meta(1, "x", ComponentPayload::State)),
    ];
    let log = apply(&actions, &mut node, &t);
    assert!(log.is_empty());
    assert!(node.devices.is_empty());
    assert!(node.unresolved.is_empty());
}

#[test]
fn find_device_takes_the_first_match() {
    let mut node = ControlNode::default();
    let mut a = stored_device("A");
    a.state.name = "first".to_string();
    let mut a2 = stored_device("A");
    a2.state.name = "second".to_string();
    node.devices.push(stored_device("B"));
    node.devices.push(a);
    node.devices.push(a2);
    assert_eq!(node.find_device("A").unwrap().state.name, "first");
    assert!(node.find_device("C").is_none());
    node.find_device_mut("A").unwrap().backends.push(Backend {
        name: "bk".to_string(),
        periph_access: None,
    });
    assert_eq!(node.devices[1].backends.len(), 1);
    assert_eq!(node.devices[2].backends.len(), 0);
    node.find_device_mut("B").unwrap().middleware.push(Middleware { name: "m".to_string() });
    assert_eq!(node.devices[0].middleware[0].name, "m");
    assert!(node.find_device_mut("Z").is_none());
}
