use std::cell::RefCell;
use std::collections::HashMap;
use std::time::Duration;

use generic_device_plugin::api::{
    AllocateRequest, AllocateResponse, ContainerAllocateRequest, ContainerAllocateResponse,
    ContainerPreferredAllocationRequest, ContainerPreferredAllocationResponse,
    DevicePluginOptions, DeviceSpec, ListAndWatchResponse, PreStartContainerRequest,
    PreStartContainerResponse, PreferredAllocationRequest, PreferredAllocationResponse,
};
use generic_device_plugin::device::{Device, Health};
use generic_device_plugin::plugin::{GenericDevicePlugin, PluginConfig};
use generic_device_plugin::service::{
    DevicePluginService, PREFERRED_ALLOCATION_NOT_AVAILABLE, PRE_START_NOT_REQUIRED,
};
use generic_device_plugin::status::{Code, Status};
use generic_device_plugin::watch::{WatchAction, WatchEvent};

/// A plugin over devices named `mock…`. It fails for every other device id,
/// and keeps a log of what it was asked.
struct MockPlugin {
    calls: RefCell<Vec<String>>,
    devices: RefCell<Vec<Result<Vec<Device>, Status>>>,
}

impl MockPlugin {
    fn new() -> Self {
        MockPlugin { calls: RefCell::new(vec![]), devices: RefCell::new(vec![]) }
    }

    fn with_devices(polls: Vec<Result<Vec<Device>, Status>>) -> Self {
        let mut polls = polls;
        polls.reverse();
        MockPlugin { calls: RefCell::new(vec![]), devices: RefCell::new(polls) }
    }

    fn check(ids: &[String]) -> Result<(), Status> {
        match ids.iter().find(|id| !id.starts_with("mock")) {
            Some(id) => Err(Status::new(Code::NotFound, &format!("no device {}", id))),
            None => Ok(()),
        }
    }

    fn calls(&self) -> Vec<String> {
        self.calls.borrow().clone()
    }
}

impl GenericDevicePlugin for MockPlugin {
    fn get_devices(&self) -> Result<Vec<Device>, Status> {
        self.calls.borrow_mut().push(String::from("get_devices"));
        self.devices.borrow_mut().pop().unwrap_or(Ok(vec![]))
    }

    fn container_allocate(
        &self,
        device_ids: Vec<String>,
    ) -> Result<ContainerAllocateResponse, Status> {
        self.calls.borrow_mut().push(format!("allocate {}", device_ids.join(",")));
        MockPlugin::check(&device_ids)?;
        Ok(allocation(&device_ids))
    }

    fn get_container_preferred_allocation(
        &self,
        available_device_ids: Vec<String>,
        must_include_device_ids: Vec<String>,
        allocation_size: i32,
    ) -> Result<ContainerPreferredAllocationResponse, Status> {
        self.calls.borrow_mut().push(format!(
            "prefer {} of {} with {}",
            allocation_size,
            available_device_ids.join(","),
            must_include_device_ids.join(",")
        ));
        MockPlugin::check(&available_device_ids)?;
        let mut device_ids = must_include_device_ids;
        for id in available_device_ids {
            if device_ids.len() < allocation_size as usize && !device_ids.contains(&id) {
                device_ids.push(id);
            }
        }
        Ok(ContainerPreferredAllocationResponse { device_ids })
    }

    fn pre_start_container(&self, device_ids: Vec<String>) -> Result<(), Status> {
        self.calls.borrow_mut().push(format!("pre_start {}", device_ids.join(",")));
        MockPlugin::check(&device_ids)
    }
}

fn allocation(device_ids: &[String]) -> ContainerAllocateResponse {
    ContainerAllocateResponse {
        envs: HashMap::new(),
        mounts: vec![],
        devices: device_ids
            .iter()
            .map(|id| DeviceSpec {
                container_path: format!("/dev/{}", id),
                host_path: format!("/dev/{}", id),
                permissions: String::from("r"),
            })
            .collect(),
        annotations: HashMap::new(),
        cdi_devices: vec![],
    }
}

fn ids(names: &[&str]) -> Vec<String> {
    names.iter().map(|name| String::from(*name)).collect()
}

fn config(pre_start_required: bool, get_preferred_allocation_available: bool) -> PluginConfig {
    PluginConfig {
        resource_name: String::from("mock.org/mock"),
        pre_start_required,
        get_preferred_allocation_available,
        device_poll_interval: Duration::from_secs(5),
    }
}

fn service(pre_start: bool, preferred: bool) -> DevicePluginService<MockPlugin> {
    DevicePluginService::new(MockPlugin::new(), config(pre_start, preferred))
}

fn allocate_request(containers: &[&[&str]]) -> AllocateRequest {
    AllocateRequest {
        container_requests: containers
            .iter()
            .map(|names| ContainerAllocateRequest { device_ids: ids(names) })
            .collect(),
    }
}

#[test]
fn options_are_the_configured_flags() {
    for (pre_start, preferred) in [(false, false), (false, true), (true, false), (true, true)] {
        assert_eq!(
            service(pre_start, preferred).get_device_plugin_options(),
            DevicePluginOptions {
                pre_start_required: pre_start,
                get_preferred_allocation_available: preferred,
            }
        );
        assert_eq!(
            config(pre_start, preferred).options(),
            DevicePluginOptions {
                pre_start_required: pre_start,
                get_preferred_allocation_available: preferred,
            }
        );
    }
}

#[test]
fn allocate_answers_each_container_in_order() {
    let service = service(false, false);
    let response = service
        .allocate(allocate_request(&[&["mock0"], &["mock2", "mock1"], &[]]))
        .unwrap();
    assert_eq!(
        response,
        AllocateResponse {
            container_responses: vec![
                allocation(&ids(&["mock0"])),
                allocation(&ids(&["mock2", "mock1"])),
                allocation(&[]),
            ],
        }
    );
    assert_eq!(
        service.plugin.calls(),
        vec!["allocate mock0", "allocate mock2,mock1", "allocate "]
    );
}

#[test]
fn allocate_without_containers_succeeds_without_asking() {
    let service = service(false, false);
    let response = service.allocate(allocate_request(&[])).unwrap();
    assert_eq!(response, AllocateResponse { container_responses: vec![] });
    assert!(service.plugin.calls().is_empty());
}

#[test]
fn allocate_fails_when_the_second_container_fails() {
    let service = service(false, false);
    let outcome = service.allocate(allocate_request(&[&["mock0"], &["bad1"]]));
    assert_eq!(outcome, Err(Status::new(Code::NotFound, "no device bad1")));
    assert_eq!(service.plugin.calls(), vec!["allocate mock0", "allocate bad1"]);
}

#[test]
fn allocate_does_not_ask_after_a_failure() {
    let service = service(false, false);
    let outcome = service.allocate(allocate_request(&[
        &["mock0"],
        &["bad1"],
        &["mock2"],
        &["bad3"],
    ]));
    assert_eq!(outcome, Err(Status::new(Code::NotFound, "no device bad1")));
    assert_eq!(service.plugin.calls(), vec!["allocate mock0", "allocate bad1"]);
}

#[test]
fn allocate_fails_when_the_first_container_fails() {
    let service = service(false, false);
    let outcome = service.allocate(allocate_request(&[&["bad0"], &["mock1"]]));
    assert_eq!(outcome, Err(Status::new(Code::NotFound, "no device bad0")));
    assert_eq!(service.plugin.calls(), vec!["allocate bad0"]);
}

fn preferred_request(containers: &[(&[&str], &[&str], i32)]) -> PreferredAllocationRequest {
    PreferredAllocationRequest {
        container_requests: containers
            .iter()
            .map(|(available, must_include, size)| ContainerPreferredAllocationRequest {
                available_device_ids: ids(available),
                must_include_device_ids: ids(must_include),
                allocation_size: *size,
            })
            .collect(),
    }
}

#[test]
fn preferred_allocation_answers_each_container_in_order() {
    let service = service(false, true);
    let response = service
        .get_preferred_allocation(preferred_request(&[
            (&["mock0", "mock1", "mock2"], &["mock2"], 2),
            (&["mock3"], &[], 1),
        ]))
        .unwrap();
    assert_eq!(
        response,
        PreferredAllocationResponse {
            container_responses: vec![
                ContainerPreferredAllocationResponse { device_ids: ids(&["mock2", "mock0"]) },
                ContainerPreferredAllocationResponse { device_ids: ids(&["mock3"]) },
            ],
        }
    );
    assert_eq!(
        service.plugin.calls(),
        vec!["prefer 2 of mock0,mock1,mock2 with mock2", "prefer 1 of mock3 with "]
    );
}

#[test]
fn preferred_allocation_fails_fast() {
    let service = service(false, true);
    let outcome = service.get_preferred_allocation(preferred_request(&[
        (&["mock0"], &[], 1),
        (&["bad1"], &[], 1),
        (&["mock2"], &[], 1),
    ]));
    assert_eq!(outcome, Err(Status::new(Code::NotFound, "no device bad1")));
    assert_eq!(
        service.plugin.calls(),
        vec!["prefer 1 of mock0 with ", "prefer 1 of bad1 with "]
    );
}

#[test]
fn preferred_allocation_without_containers_succeeds() {
    let service = service(false, true);
    assert_eq!(
        service.get_preferred_allocation(preferred_request(&[])),
        Ok(PreferredAllocationResponse { container_responses: vec![] })
    );
    assert!(service.plugin.calls().is_empty());
}

#[test]
fn preferred_allocation_is_refused_when_not_available() {
    let service = service(true, false);
    let outcome = service.get_preferred_allocation(preferred_request(&[(&["mock0"], &[], 1)]));
    assert_eq!(
        outcome,
        Err(Status {
            code: Code::Unimplemented,
            message: String::from("the plugin does not offer preferred allocation"),
        })
    );
    assert_eq!(
        service.get_preferred_allocation(preferred_request(&[])),
        Err(Status::unimplemented(PREFERRED_ALLOCATION_NOT_AVAILABLE))
    );
    assert!(service.plugin.calls().is_empty());
}

#[test]
fn pre_start_asks_the_plugin_once() {
    let service = service(true, false);
    assert_eq!(
        service.pre_start_container(PreStartContainerRequest { device_ids: ids(&["mock0", "mock1"]) }),
        Ok(PreStartContainerResponse {})
    );
    assert_eq!(service.plugin.calls(), vec!["pre_start mock0,mock1"]);
}

#[test]
fn pre_start_hands_on_the_failure_of_the_plugin() {
    let service = service(true, false);
    assert_eq!(
        service.pre_start_container(PreStartContainerRequest { device_ids: ids(&["bad0"]) }),
        Err(Status::new(Code::NotFound, "no device bad0"))
    );
    assert_eq!(service.plugin.calls(), vec!["pre_start bad0"]);
}

#[test]
fn pre_start_is_refused_when_not_required() {
    let service = service(false, true);
    assert_eq!(
        service.pre_start_container(PreStartContainerRequest { device_ids: ids(&["mock0"]) }),
        Err(Status {
            code: Code::Unimplemented,
            message: String::from("the plugin does not require a pre-start call"),
        })
    );
    assert_eq!(
        service.pre_start_container(PreStartContainerRequest { device_ids: vec![] }),
        Err(Status::unimplemented(PRE_START_NOT_REQUIRED))
    );
    assert!(service.plugin.calls().is_empty());
}

#[test]
fn list_and_watch_polls_at_the_configured_interval() {
    let service = service(false, false);
    let mut watch = service.list_and_watch();
    assert!(!watch.is_stopped());
    watch.step(WatchEvent::Start);
    watch.step(WatchEvent::ChannelChecked { closed: false });
    watch.step(WatchEvent::Polled(Ok(vec![])));
    match watch.step(WatchEvent::Sent { delivered: true }) {
        WatchAction::Sleep(interval) => assert_eq!(interval, Duration::from_secs(5)),
        other => panic!("expected a sleep, got {:?}", other),
    }
}

#[test]
fn each_watch_has_its_own_memory() {
    let service = service(false, false);
    let mut first = service.list_and_watch();
    let mut second = service.list_and_watch();
    assert!(matches!(first.step(WatchEvent::Polled(Ok(vec![]))), WatchAction::Send(_)));
    assert!(matches!(first.step(WatchEvent::Polled(Ok(vec![]))), WatchAction::Sleep(_)));
    assert!(matches!(second.step(WatchEvent::Polled(Ok(vec![]))), WatchAction::Send(_)));
    first.step(WatchEvent::ChannelChecked { closed: true });
    assert!(first.is_stopped());
    assert!(!second.is_stopped());
}

#[test]
fn poll_hands_the_devices_of_the_plugin_to_the_watch() {
    let healthy = vec![Device { id: String::from("mock0"), health: Health::Healthy, topology: None }];
    let unhealthy =
        vec![Device { id: String::from("mock0"), health: Health::Unhealthy, topology: None }];
    let plugin = MockPlugin::with_devices(vec![
        Ok(healthy.clone()),
        Ok(healthy.clone()),
        Ok(unhealthy.clone()),
        Err(Status::unavailable("cannot read /dev")),
        Err(Status::unavailable("cannot read /dev")),
    ]);
    let service = DevicePluginService::new(plugin, config(false, false));
    let mut watch = service.list_and_watch();
    let mut items = vec![];
    for _ in 0..5 {
        match service.poll(&mut watch) {
            WatchAction::Send(item) => items.push(item),
            WatchAction::Sleep(interval) => assert_eq!(interval, Duration::from_secs(5)),
            other => panic!("expected an item or a sleep, got {:?}", other),
        }
    }
    assert_eq!(
        items,
        vec![
            Ok(ListAndWatchResponse { devices: healthy }),
            Ok(ListAndWatchResponse { devices: unhealthy }),
            Err(Status::unavailable("cannot read /dev")),
            Err(Status::unavailable("cannot read /dev")),
        ]
    );
    assert_eq!(service.plugin.calls(), vec!["get_devices"; 5]);
}

#[test]
fn poll_of_a_stopped_watch_still_stops() {
    let service = service(false, false);
    let mut watch = service.list_and_watch();
    watch.step(WatchEvent::ChannelChecked { closed: true });
    assert!(matches!(service.poll(&mut watch), WatchAction::Stop));
}
