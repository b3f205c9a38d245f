use generic_device_plugin::device::{
    clone_devices, same_devices, Device, Health, NumaNode, TopologyInfo,
};

fn device(id: &str, health: Health, nodes: Option<&[i64]>) -> Device {
    Device {
        id: String::from(id),
        health,
        topology: nodes.map(|ids| TopologyInfo {
            nodes: ids.iter().map(|id| NumaNode { id: *id }).collect(),
        }),
    }
}

#[test]
fn health_has_its_wire_names() {
    assert_eq!(Health::Healthy.as_str(), "Healthy");
    assert_eq!(Health::Unhealthy.as_str(), "Unhealthy");
}

#[test]
fn devices_are_equal_by_id_health_and_topology() {
    let base = device("mock0", Health::Healthy, Some(&[0, 1]));
    assert!(base == device("mock0", Health::Healthy, Some(&[0, 1])));
    assert!(base != device("mock1", Health::Healthy, Some(&[0, 1])));
    assert!(base != device("mock0", Health::Unhealthy, Some(&[0, 1])));
    assert!(base != device("mock0", Health::Healthy, Some(&[0])));
    assert!(base != device("mock0", Health::Healthy, Some(&[1, 0])));
    assert!(base != device("mock0", Health::Healthy, Some(&[0, 2])));
    assert!(base != device("mock0", Health::Healthy, None));
    assert!(device("", Health::Healthy, None) == device("", Health::Healthy, None));
    assert!(device("x", Health::Healthy, None) != device("x", Health::Healthy, Some(&[])));
}

#[test]
fn topologies_are_equal_by_their_nodes() {
    let nodes = |ids: &[i64]| TopologyInfo {
        nodes: ids.iter().map(|id| NumaNode { id: *id }).collect(),
    };
    assert!(nodes(&[]) == nodes(&[]));
    assert!(nodes(&[3, 4]) == nodes(&[3, 4]));
    assert!(nodes(&[3, 4]) != nodes(&[3]));
    assert!(nodes(&[3, 4]) != nodes(&[4, 3]));
    assert!(nodes(&[i64::MIN]) != nodes(&[i64::MAX]));
}

#[test]
fn clone_of_a_device_equals_it() {
    let first = device("mock0", Health::Unhealthy, Some(&[7, -1]));
    let copy = first.clone();
    assert!(copy == first);
    assert_eq!(copy.id, "mock0");
    assert_eq!(copy.health, Health::Unhealthy);
    assert_eq!(copy.topology.unwrap().nodes, vec![NumaNode { id: 7 }, NumaNode { id: -1 }]);
}

#[test]
fn same_devices_compares_lists_in_order() {
    let a = device("a", Health::Healthy, None);
    let b = device("b", Health::Unhealthy, Some(&[0]));
    assert!(same_devices(&vec![], &vec![]));
    assert!(same_devices(&vec![a.clone(), b.clone()], &vec![a.clone(), b.clone()]));
    assert!(!same_devices(&vec![a.clone(), b.clone()], &vec![b.clone(), a.clone()]));
    assert!(!same_devices(&vec![a.clone()], &vec![a.clone(), b.clone()]));
    assert!(!same_devices(&vec![a.clone(), b.clone()], &vec![a.clone()]));
    assert!(!same_devices(&vec![a.clone()], &vec![]));
    assert!(!same_devices(
        &vec![a.clone(), b.clone()],
        &vec![a.clone(), device("b", Health::Healthy, Some(&[0]))]
    ));
}

#[test]
fn clone_devices_copies_the_list() {
    let list = vec![
        device("a", Health::Healthy, None),
        device("b", Health::Unhealthy, Some(&[0, 1])),
        device("c", Health::Healthy, Some(&[])),
    ];
    let copy = clone_devices(&list);
    assert_eq!(copy.len(), 3);
    assert!(same_devices(&copy, &list));
    assert!(copy == list);
    assert!(clone_devices(&vec![]).is_empty());
}
