//! What a concrete device plugin supplies.

use crate::api::{
    ContainerAllocateResponse, ContainerPreferredAllocationResponse, DevicePluginOptions,
};
use crate::device::Device;
use crate::status::Status;
use std::time::Duration;
use vstd::prelude::*;

verus! {

/// The settings of a plugin. They do not change while the plugin runs.
#[derive(Debug)]
pub struct PluginConfig {
    /// The name of the resource the plugin advertises.
    pub resource_name: String,
    /// Whether the kubelet is to call the plugin before a container starts.
    pub pre_start_required: bool,
    /// Whether the plugin answers preferred allocation questions.
    pub get_preferred_allocation_available: bool,
    /// The time between two enumerations of a device watch.
    pub device_poll_interval: Duration,
}

impl PluginConfig {
    /// The optional protocol methods these settings offer.
    pub open spec fn spec_options(&self) -> DevicePluginOptions {
        DevicePluginOptions {
            pre_start_required: self.pre_start_required,
            get_preferred_allocation_available: self.get_preferred_allocation_available,
        }
    }

    /// The optional protocol methods these settings offer.
    #[verifier::when_used_as_spec(spec_options)]
    pub fn options(&self) -> (options: DevicePluginOptions)
        ensures
            options == self.spec_options(),
    {
        DevicePluginOptions {
            pre_start_required: self.pre_start_required,
            get_preferred_allocation_available: self.get_preferred_allocation_available,
        }
    }
}

impl Clone for PluginConfig {
    fn clone(&self) -> (copy: Self)
        ensures
            copy == *self,
    {
        PluginConfig {
            resource_name: self.resource_name.clone(),
            pre_start_required: self.pre_start_required,
            get_preferred_allocation_available: self.get_preferred_allocation_available,
            device_poll_interval: self.device_poll_interval,
        }
    }
}

/// The operations of a concrete device plugin.
///
/// Nothing is assumed of what an operation answers. Each operation comes with
/// a predicate that stands for the answers the plugin may give, and the
/// contracts of the protocol methods say through these predicates which
/// answer of the plugin ended up where. Unless a plugin defines a predicate
/// itself, every answer is one that it may give.
pub trait GenericDevicePlugin {
    /// Whether the plugin may give `outcome` when asked for its devices.
    open spec fn lists(&self, outcome: Result<Vec<Device>, Status>) -> bool {
        true
    }

    /// Whether the plugin may give `outcome` when asked to allocate
    /// `device_ids` to a container.
    open spec fn allocates(
        &self,
        device_ids: Vec<String>,
        outcome: Result<ContainerAllocateResponse, Status>,
    ) -> bool {
        true
    }

    /// Whether the plugin may give `outcome` when asked which
    /// `allocation_size` devices of `available_device_ids` it prefers, those
    /// of `must_include_device_ids` among them.
    open spec fn prefers(
        &self,
        available_device_ids: Vec<String>,
        must_include_device_ids: Vec<String>,
        allocation_size: i32,
        outcome: Result<ContainerPreferredAllocationResponse, Status>,
    ) -> bool {
        true
    }

    /// Whether the plugin may give `outcome` when told that a container with
    /// `device_ids` is about to start.
    open spec fn pre_starts(&self, device_ids: Vec<String>, outcome: Result<(), Status>) -> bool {
        true
    }

    /// Enumerates the devices of the node.
    fn get_devices(&self) -> (outcome: Result<Vec<Device>, Status>)
        ensures
            self.lists(outcome),
    ;

    /// Prepares `device_ids` for one container and says what the container
    /// needs in order to use them.
    fn container_allocate(&self, device_ids: Vec<String>) -> (outcome: Result<
        ContainerAllocateResponse,
        Status,
    >)
        ensures
            self.allocates(device_ids, outcome),
    ;

    /// Says which devices the plugin would like a container to get.
    fn get_container_preferred_allocation(
        &self,
        available_device_ids: Vec<String>,
        must_include_device_ids: Vec<String>,
        allocation_size: i32,
    ) -> (outcome: Result<ContainerPreferredAllocationResponse, Status>)
        ensures
            self.prefers(available_device_ids, must_include_device_ids, allocation_size, outcome),
    ;

    /// Readies `device_ids` for a container that is about to start.
    fn pre_start_container(&self, device_ids: Vec<String>) -> (outcome: Result<(), Status>)
        ensures
            self.pre_starts(device_ids, outcome),
    ;
}

} // verus!
