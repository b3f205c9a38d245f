//! Devices as a plugin advertises them, and equality of device lists.

use vstd::prelude::*;

verus! {

/// Whether a device can currently be handed to a container.
#[derive(Clone, Copy, Debug, PartialEq, Eq, Structural)]
pub enum Health {
    Healthy,
    Unhealthy,
}

impl Health {
    /// The name under which the kubelet knows this state.
    pub open spec fn wire_name(self) -> Seq<char> {
        match self {
            Health::Healthy => "Healthy"@,
            Health::Unhealthy => "Unhealthy"@,
        }
    }

    /// The name under which the kubelet knows this state.
    pub fn as_str(&self) -> (name: &'static str)
        ensures
            name@ == self.wire_name(),
    {
        match self {
            Health::Healthy => "Healthy",
            Health::Unhealthy => "Unhealthy",
        }
    }
}

/// A NUMA node a device is attached to.
#[derive(Clone, Copy, Debug, PartialEq, Eq, Structural)]
pub struct NumaNode {
    pub id: i64,
}

/// The NUMA placement of a device.
#[derive(Debug)]
pub struct TopologyInfo {
    pub nodes: Vec<NumaNode>,
}

impl View for TopologyInfo {
    type V = Seq<NumaNode>;

    open spec fn view(&self) -> Seq<NumaNode> {
        self.nodes@
    }
}

impl Clone for TopologyInfo {
    fn clone(&self) -> (copy: Self)
        ensures
            copy@ == self@,
    {
        let mut nodes: Vec<NumaNode> = Vec::with_capacity(self.nodes.len());
        let mut i: usize = 0;
        while i < self.nodes.len()
            invariant
                i <= self.nodes.len(),
                nodes@ =~= self.nodes@.take(i as int),
            decreases self.nodes.len() - i,
        {
            nodes.push(self.nodes[i]);
            i += 1;
        }
        TopologyInfo { nodes }
    }
}

/// Two placements are equal when they name the same nodes in the same order.
impl PartialEq for TopologyInfo {
    fn eq(&self, other: &Self) -> (same: bool) {
        if self.nodes.len() != other.nodes.len() {
            return false;
        }
        let mut i: usize = 0;
        while i < self.nodes.len()
            invariant
                i <= self.nodes.len(),
                self.nodes.len() == other.nodes.len(),
                forall|j: int| 0 <= j < i ==> self.nodes@[j] == other.nodes@[j],
            decreases self.nodes.len() - i,
        {
            if self.nodes[i].id != other.nodes[i].id {
                return false;
            }
            i += 1;
        }
        assert(self.nodes@ =~= other.nodes@);
        true
    }
}

impl vstd::std_specs::cmp::PartialEqSpecImpl for TopologyInfo {
    open spec fn obeys_eq_spec() -> bool {
        true
    }

    open spec fn eq_spec(&self, other: &Self) -> bool {
        self@ == other@
    }
}

impl Eq for TopologyInfo {

}

/// One device of the node, as the plugin reports it at one enumeration.
#[derive(Debug)]
pub struct Device {
    pub id: String,
    pub health: Health,
    pub topology: Option<TopologyInfo>,
}

/// What a [`Device`] says, apart from how it is stored.
pub struct DeviceView {
    pub id: Seq<char>,
    pub health: Health,
    pub topology: Option<Seq<NumaNode>>,
}

impl View for Device {
    type V = DeviceView;

    open spec fn view(&self) -> DeviceView {
        DeviceView {
            id: self.id@,
            health: self.health,
            topology: match self.topology {
                Some(t) => Some(t@),
                None => None,
            },
        }
    }
}

impl DeepView for Device {
    type V = DeviceView;

    open spec fn deep_view(&self) -> DeviceView {
        self@
    }
}

impl Clone for Device {
    fn clone(&self) -> (copy: Self)
        ensures
            copy@ == self@,
    {
        let topology = match &self.topology {
            Some(t) => Some(t.clone()),
            None => None,
        };
        Device { id: self.id.clone(), health: self.health, topology }
    }
}

/// Two devices are equal when they have the same id, health and topology.
impl PartialEq for Device {
    fn eq(&self, other: &Self) -> (same: bool) {
        let same_topology = match (&self.topology, &other.topology) {
            (Some(a), Some(b)) => a == b,
            (None, None) => true,
            _ => false,
        };
        self.id == other.id && self.health == other.health && same_topology
    }
}

impl vstd::std_specs::cmp::PartialEqSpecImpl for Device {
    open spec fn obeys_eq_spec() -> bool {
        true
    }

    open spec fn eq_spec(&self, other: &Self) -> bool {
        self@ == other@
    }
}

impl Eq for Device {

}

/// A copy of a device list that says the same as the list.
pub fn clone_devices(devices: &Vec<Device>) -> (copy: Vec<Device>)
    ensures
        copy.deep_view() == devices.deep_view(),
{
    let mut copy: Vec<Device> = Vec::with_capacity(devices.len());
    let mut i: usize = 0;
    while i < devices.len()
        invariant
            i <= devices.len(),
            copy.len() == i,
            forall|j: int| 0 <= j < i ==> copy@[j]@ == devices@[j]@,
        decreases devices.len() - i,
    {
        copy.push(devices[i].clone());
        i += 1;
    }
    copy
}

/// Whether two device lists say the same: the same devices, in the same
/// order, each with the same id, health and topology.
pub fn same_devices(left: &Vec<Device>, right: &Vec<Device>) -> (same: bool)
    ensures
        same == (left.deep_view() == right.deep_view()),
{
    if left.len() != right.len() {
        assert(left.deep_view().len() != right.deep_view().len());
        return false;
    }
    let mut i: usize = 0;
    while i < left.len()
        invariant
            i <= left.len(),
            left.len() == right.len(),
            forall|j: int| 0 <= j < i ==> left@[j]@ == right@[j]@,
        decreases left.len() - i,
    {
        if left[i] != right[i] {
            assert(left.deep_view()[i as int] != right.deep_view()[i as int]);
            return false;
        }
        i += 1;
    }
    assert(left.deep_view() =~= right.deep_view());
    true
}

} // verus!
