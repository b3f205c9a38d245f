//! The protocol methods, answered by a plugin.
//!
//! A [`DevicePluginService`] holds a plugin and its settings and answers each
//! method of the device plugin protocol by asking the plugin. The optional
//! methods are refused with `Unimplemented` when the settings do not offer
//! them; the plugin is then not asked.

use crate::api::{
    AllocateRequest, AllocateResponse, ContainerAllocateRequest, ContainerAllocateResponse,
    ContainerPreferredAllocationRequest, ContainerPreferredAllocationResponse,
    DevicePluginOptions, PreStartContainerRequest, PreStartContainerResponse,
    PreferredAllocationRequest, PreferredAllocationResponse,
};
use crate::device::Device;
use crate::gather::Gatherer;
use crate::plugin::{GenericDevicePlugin, PluginConfig};
use crate::status::{Code, Status};
use crate::watch::{watch_next, DeviceWatch, WatchAction, WatchEvent, WatchState};
use vstd::prelude::*;

verus! {

/// The message of the status that refuses a preferred allocation question.
pub const PREFERRED_ALLOCATION_NOT_AVAILABLE: &'static str =
    "the plugin does not offer preferred allocation";

/// The message of the status that refuses a pre-start call.
pub const PRE_START_NOT_REQUIRED: &'static str = "the plugin does not require a pre-start call";

/// Whether `outcome` refuses a method that the plugin does not offer: it is
/// the status `Unimplemented` with the given message.
pub open spec fn refused<T>(outcome: Result<T, Status>, message: &str) -> bool {
    outcome matches Err(status) && status.code == Code::Unimplemented && status.message@
        == message@
}

/// Whether `responses` are answers of the plugin to the first containers of
/// `requests`, one for one and in their order.
pub open spec fn allocated<DP: GenericDevicePlugin>(
    plugin: &DP,
    requests: Seq<ContainerAllocateRequest>,
    responses: Seq<ContainerAllocateResponse>,
) -> bool {
    &&& responses.len() <= requests.len()
    &&& forall|i: int|
        0 <= i < responses.len() ==> #[trigger] plugin.allocates(
            requests[i].device_ids,
            Ok(responses[i]),
        )
}

/// Whether `responses` are answers of the plugin to the first questions of
/// `requests`, one for one and in their order.
pub open spec fn preferred<DP: GenericDevicePlugin>(
    plugin: &DP,
    requests: Seq<ContainerPreferredAllocationRequest>,
    responses: Seq<ContainerPreferredAllocationResponse>,
) -> bool {
    &&& responses.len() <= requests.len()
    &&& forall|i: int|
        0 <= i < responses.len() ==> #[trigger] plugin.prefers(
            requests[i].available_device_ids,
            requests[i].must_include_device_ids,
            requests[i].allocation_size,
            Ok(responses[i]),
        )
}

/// A plugin with its settings, ready to answer the kubelet.
pub struct DevicePluginService<DP: GenericDevicePlugin> {
    pub plugin: DP,
    pub config: PluginConfig,
}

impl<DP: GenericDevicePlugin> DevicePluginService<DP> {
    /// A service that answers with `plugin` under `config`.
    pub fn new(plugin: DP, config: PluginConfig) -> (service: Self)
        ensures
            service.plugin == plugin,
            service.config == config,
    {
        DevicePluginService { plugin, config }
    }

    /// The optional methods the plugin offers, as its settings say.
    pub fn get_device_plugin_options(&self) -> (options: DevicePluginOptions)
        ensures
            options == self.config.options(),
    {
        self.config.options()
    }

    /// A fresh device watch that polls at the configured interval. Each
    /// watch keeps its own memory of what it sent.
    pub fn list_and_watch(&self) -> (watch: DeviceWatch)
        ensures
            watch@ == (WatchState { last_sent: None, stopped: false }),
            watch.interval() == self.config.device_poll_interval,
    {
        DeviceWatch::new(self.config.device_poll_interval)
    }

    /// Performs the poll that `watch` has asked for: asks the plugin for its
    /// devices once and hands the answer to the watch. Returns what the
    /// watch asks for next.
    pub fn poll(&self, watch: &mut DeviceWatch) -> (action: WatchAction)
        ensures
            final(watch).interval() == old(watch).interval(),
            exists|polled: Result<Vec<Device>, Status>|
                {
                    &&& #[trigger] self.plugin.lists(polled)
                    &&& (final(watch)@, action) == watch_next(
                        old(watch)@,
                        old(watch).interval(),
                        WatchEvent::Polled(polled),
                    )
                },
    {
        let polled = self.plugin.get_devices();
        watch.step(WatchEvent::Polled(polled))
    }

    /// Asks the plugin, for each container in order, which devices it
    /// prefers.
    ///
    /// Without preferred allocation in the settings the call is refused and
    /// the plugin is not asked. Else the answer holds one entry for each
    /// container, in the order of the request, each an answer of the plugin
    /// to that container; or it is the failure of the plugin for the first
    /// container for which it failed, the containers before it having been
    /// answered.
    pub fn get_preferred_allocation(&self, request: PreferredAllocationRequest) -> (outcome:
        Result<PreferredAllocationResponse, Status>)
        ensures
            !self.config.get_preferred_allocation_available ==> refused(
                outcome,
                PREFERRED_ALLOCATION_NOT_AVAILABLE,
            ),
            self.config.get_preferred_allocation_available ==> match outcome {
                Ok(response) => {
                    &&& response.container_responses.len() == request.container_requests.len()
                    &&& preferred(
                        &self.plugin,
                        request.container_requests@,
                        response.container_responses@,
                    )
                },
                Err(status) => exists|earlier: Seq<ContainerPreferredAllocationResponse>|
                    {
                        &&& earlier.len() < request.container_requests.len()
                        &&& #[trigger] preferred(&self.plugin, request.container_requests@, earlier)
                        &&& self.plugin.prefers(
                            request.container_requests[earlier.len() as int].available_device_ids,
                            request.container_requests[earlier.len() as int].must_include_device_ids,
                            request.container_requests[earlier.len() as int].allocation_size,
                            Err(status),
                        )
                    },
            },
    {
        if !self.config.get_preferred_allocation_available {
            return Err(Status::unimplemented(PREFERRED_ALLOCATION_NOT_AVAILABLE));
        }
        let ghost requests = request.container_requests@;
        let mut gatherer: Gatherer<ContainerPreferredAllocationResponse> = Gatherer::new(
            request.container_requests.len(),
        );
        for container in pending: request.container_requests
            invariant
                pending.seq() == requests,
                preferred(&self.plugin, requests, gatherer@.responses),
                gatherer@.open() ==> gatherer@.responses.len() == pending.index(),
                !gatherer@.open() ==> gatherer@.responses.len() < requests.len()
                    && self.plugin.prefers(
                    requests[gatherer@.responses.len() as int].available_device_ids,
                    requests[gatherer@.responses.len() as int].must_include_device_ids,
                    requests[gatherer@.responses.len() as int].allocation_size,
                    Err(gatherer@.failure->Some_0),
                ),
        {
            if gatherer.is_open() {
                let answer = self.plugin.get_container_preferred_allocation(
                    container.available_device_ids,
                    container.must_include_device_ids,
                    container.allocation_size,
                );
                gatherer.record(answer);
            }
        }
        match gatherer.finish() {
            Ok(container_responses) => Ok(PreferredAllocationResponse { container_responses }),
            Err(status) => Err(status),
        }
    }

    /// Asks the plugin, for each container in order, to allocate its
    /// devices.
    ///
    /// The answer holds one entry for each container, in the order of the
    /// request, each an answer of the plugin to that container; or it is the
    /// failure of the plugin for the first container for which it failed, the
    /// containers before it having been answered.
    pub fn allocate(&self, request: AllocateRequest) -> (outcome: Result<AllocateResponse, Status>)
        ensures
            match outcome {
                Ok(response) => {
                    &&& response.container_responses.len() == request.container_requests.len()
                    &&& allocated(
                        &self.plugin,
                        request.container_requests@,
                        response.container_responses@,
                    )
                },
                Err(status) => exists|earlier: Seq<ContainerAllocateResponse>|
                    {
                        &&& earlier.len() < request.container_requests.len()
                        &&& #[trigger] allocated(&self.plugin, request.container_requests@, earlier)
                        &&& self.plugin.allocates(
                            request.container_requests[earlier.len() as int].device_ids,
                            Err(status),
                        )
                    },
            },
    {
        let ghost requests = request.container_requests@;
        let mut gatherer: Gatherer<ContainerAllocateResponse> = Gatherer::new(
            request.container_requests.len(),
        );
        for container in pending: request.container_requests
            invariant
                pending.seq() == requests,
                allocated(&self.plugin, requests, gatherer@.responses),
                gatherer@.open() ==> gatherer@.responses.len() == pending.index(),
                !gatherer@.open() ==> gatherer@.responses.len() < requests.len()
                    && self.plugin.allocates(
                    requests[gatherer@.responses.len() as int].device_ids,
                    Err(gatherer@.failure->Some_0),
                ),
        {
            if gatherer.is_open() {
                let answer = self.plugin.container_allocate(container.device_ids);
                gatherer.record(answer);
            }
        }
        match gatherer.finish() {
            Ok(container_responses) => Ok(AllocateResponse { container_responses }),
            Err(status) => Err(status),
        }
    }

    /// Tells the plugin that a container is about to start.
    ///
    /// Without the pre-start call in the settings the call is refused and the
    /// plugin is not asked. Else the plugin is asked once, with the devices
    /// of the request, and its answer is the answer.
    pub fn pre_start_container(&self, request: PreStartContainerRequest) -> (outcome: Result<
        PreStartContainerResponse,
        Status,
    >)
        ensures
            !self.config.pre_start_required ==> refused(outcome, PRE_START_NOT_REQUIRED),
            self.config.pre_start_required ==> match outcome {
                Ok(_) => self.plugin.pre_starts(request.device_ids, Ok(())),
                Err(status) => self.plugin.pre_starts(request.device_ids, Err(status)),
            },
    {
        if !self.config.pre_start_required {
            return Err(Status::unimplemented(PRE_START_NOT_REQUIRED));
        }
        let answer = self.plugin.pre_start_container(request.device_ids);
        match answer {
            Ok(_) => {
                assert(answer->Ok_0 == ());
                Ok(PreStartContainerResponse {  })
            },
            Err(status) => Err(status),
        }
    }
}

} // verus!
