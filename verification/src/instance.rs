//! Worker instances and how they are addressed.

use vstd::prelude::*;

verus! {

/// Where the request plane reaches an instance.
#[derive(Debug)]
pub struct TransportAddress {
    address: String,
}

impl View for TransportAddress {
    type V = Seq<char>;

    closed spec fn view(&self) -> Seq<char> {
        self.address@
    }
}

impl TransportAddress {
    pub fn new(address: String) -> (transport: TransportAddress)
        ensures
            transport@ == address@,
    {
        TransportAddress { address }
    }

    /// The address as text.
    pub fn address(&self) -> (address: &str)
        ensures
            address@ == self@,
    {
        self.address.as_str()
    }
}

/// The name of one instance of one endpoint: what a cancellation is scoped to.
#[derive(Debug)]
pub struct EndpointInstanceId {
    pub endpoint: String,
    pub instance_id: u64,
}

/// The plain value of an [`EndpointInstanceId`].
pub struct EndpointInstanceIdView {
    pub endpoint: Seq<char>,
    pub instance_id: u64,
}

impl View for EndpointInstanceId {
    type V = EndpointInstanceIdView;

    open spec fn view(&self) -> EndpointInstanceIdView {
        EndpointInstanceIdView { endpoint: self.endpoint@, instance_id: self.instance_id }
    }
}

/// An instance of an endpoint, as discovery reports it.
#[derive(Debug)]
pub struct Instance {
    pub endpoint: String,
    pub instance_id: u64,
    pub transport: TransportAddress,
}

/// The plain value of an [`Instance`].
pub struct InstanceView {
    pub endpoint: Seq<char>,
    pub instance_id: u64,
    pub address: Seq<char>,
}

impl View for Instance {
    type V = InstanceView;

    open spec fn view(&self) -> InstanceView {
        InstanceView {
            endpoint: self.endpoint@,
            instance_id: self.instance_id,
            address: self.transport@,
        }
    }
}

/// The plain value of an optional [`Instance`].
pub open spec fn instance_of(instance: Option<Instance>) -> Option<InstanceView> {
    match instance {
        Some(instance) => Some(instance@),
        None => None,
    }
}

impl InstanceView {
    /// The name of the instance: its endpoint together with its number.
    pub open spec fn id(self) -> EndpointInstanceIdView {
        EndpointInstanceIdView { endpoint: self.endpoint, instance_id: self.instance_id }
    }
}

impl Instance {
    /// The name of this instance: its own endpoint and its own number.
    pub fn endpoint_instance_id(&self) -> (id: EndpointInstanceId)
        ensures
            id@ == self@.id(),
            id.endpoint@ == self.endpoint@,
            id.instance_id == self.instance_id,
    {
        EndpointInstanceId { endpoint: self.endpoint.clone(), instance_id: self.instance_id }
    }
}

/// A name is made of the endpoint and the number of the instance that bears it. So two
/// instances bear one name if and only if they have the same endpoint and the same number,
/// wherever they are reached.
pub proof fn law_names_tell_instances_apart(a: Instance, b: Instance)
    ensures
        a@.id().endpoint == a.endpoint@,
        a@.id().instance_id == a.instance_id,
        a@.id() == b@.id() <==> a.endpoint@ == b.endpoint@ && a.instance_id == b.instance_id,
{
}

} // verus!
