//! A verified core for Kubernetes kubelet device plugins.
//!
//! The crate holds the decisions of a device plugin: the values exchanged with
//! the kubelet, the change detection behind the device watch stream, the
//! adapter from plugin operations to protocol methods, and the lifecycle of
//! the serving socket. Sockets, timers and RPC transport are left to the
//! caller, which performs the actions these state machines ask for and reports
//! back what happened.

pub mod api;
pub mod device;
pub mod gather;
pub mod lifecycle;
pub mod plugin;
pub mod server;
pub mod service;
pub mod status;
pub mod watch;

pub use api::{
    CdiDevice, ContainerAllocateResponse, ContainerPreferredAllocationResponse, DeviceSpec, Mount,
};
pub use device::{Device, Health, NumaNode, TopologyInfo};
pub use plugin::{GenericDevicePlugin, PluginConfig};
pub use server::GenericDevicePluginServer;
pub use service::DevicePluginService;
pub use status::{Code, Status};
