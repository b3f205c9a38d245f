//! The messages of the device plugin protocol.

use crate::device::Device;
use std::collections::HashMap;
use vstd::prelude::*;

verus! {

/// A host device node and the path under which a container sees it.
#[derive(Clone, Debug, PartialEq, Eq)]
pub struct DeviceSpec {
    pub container_path: String,
    pub host_path: String,
    pub permissions: String,
}

/// A host directory or file mounted into a container.
#[derive(Clone, Debug, PartialEq, Eq)]
pub struct Mount {
    pub container_path: String,
    pub host_path: String,
    pub read_only: bool,
}

/// A device named by the Container Device Interface.
#[derive(Clone, Debug, PartialEq, Eq)]
pub struct CdiDevice {
    pub name: String,
}

/// What a container needs in order to use the devices allocated to it.
#[derive(Clone, Debug, PartialEq, Eq)]
pub struct ContainerAllocateResponse {
    pub envs: HashMap<String, String>,
    pub mounts: Vec<Mount>,
    pub devices: Vec<DeviceSpec>,
    pub annotations: HashMap<String, String>,
    pub cdi_devices: Vec<CdiDevice>,
}

/// The devices the plugin would like a container to get.
#[derive(Clone, Debug, PartialEq, Eq)]
pub struct ContainerPreferredAllocationResponse {
    pub device_ids: Vec<String>,
}

/// The devices the kubelet has chosen for one container.
#[derive(Clone, Debug, PartialEq, Eq)]
pub struct ContainerAllocateRequest {
    pub device_ids: Vec<String>,
}

/// A question about which devices to prefer for one container.
#[derive(Clone, Debug, PartialEq, Eq)]
pub struct ContainerPreferredAllocationRequest {
    pub available_device_ids: Vec<String>,
    pub must_include_device_ids: Vec<String>,
    pub allocation_size: i32,
}

/// An allocation for the containers of one pod.
#[derive(Clone, Debug, PartialEq, Eq)]
pub struct AllocateRequest {
    pub container_requests: Vec<ContainerAllocateRequest>,
}

/// One entry for each container of an [`AllocateRequest`], in its order.
#[derive(Clone, Debug, PartialEq, Eq)]
pub struct AllocateResponse {
    pub container_responses: Vec<ContainerAllocateResponse>,
}

/// Preferred allocation questions for the containers of one pod.
#[derive(Clone, Debug, PartialEq, Eq)]
pub struct PreferredAllocationRequest {
    pub container_requests: Vec<ContainerPreferredAllocationRequest>,
}

/// One entry for each container of a [`PreferredAllocationRequest`], in its
/// order.
#[derive(Clone, Debug, PartialEq, Eq)]
pub struct PreferredAllocationResponse {
    pub container_responses: Vec<ContainerPreferredAllocationResponse>,
}

/// The devices of a container that is about to start.
#[derive(Clone, Debug, PartialEq, Eq)]
pub struct PreStartContainerRequest {
    pub device_ids: Vec<String>,
}

/// The acknowledgment of a [`PreStartContainerRequest`].
#[derive(Clone, Copy, Debug, PartialEq, Eq, Structural)]
pub struct PreStartContainerResponse {}

/// One item of the device watch stream: the full device list.
#[derive(Clone, Debug, PartialEq, Eq)]
pub struct ListAndWatchResponse {
    pub devices: Vec<Device>,
}

/// The optional protocol methods a plugin offers.
#[derive(Clone, Copy, Debug, PartialEq, Eq, Structural)]
pub struct DevicePluginOptions {
    pub pre_start_required: bool,
    pub get_preferred_allocation_available: bool,
}

/// The announcement a plugin makes to the kubelet.
#[derive(Clone, Debug, PartialEq, Eq)]
pub struct RegisterRequest {
    pub version: String,
    pub endpoint: String,
    pub resource_name: String,
    pub options: DevicePluginOptions,
}

/// What a [`RegisterRequest`] says, apart from how it is stored.
pub struct RegisterRequestView {
    pub version: Seq<char>,
    pub endpoint: Seq<char>,
    pub resource_name: Seq<char>,
    pub options: DevicePluginOptions,
}

impl View for RegisterRequest {
    type V = RegisterRequestView;

    open spec fn view(&self) -> RegisterRequestView {
        RegisterRequestView {
            version: self.version@,
            endpoint: self.endpoint@,
            resource_name: self.resource_name@,
            options: self.options,
        }
    }
}

} // verus!
