//! Requests with the address of the worker they are for.

use vstd::prelude::*;

use crate::instance::Instance;

verus! {

/// A request, the address it goes to, and the instance behind that address, where it is
/// known: a cancellation then reaches that instance of that endpoint and no other.
pub struct AddressedRequest<T> {
    request: T,
    address: String,
    instance: Option<Instance>,
}

/// The plain value of an [`AddressedRequest`].
pub struct AddressedRequestView<T> {
    pub request: T,
    pub address: Seq<char>,
    pub instance: Option<crate::instance::InstanceView>,
}

impl<T> View for AddressedRequest<T> {
    type V = AddressedRequestView<T>;

    closed spec fn view(&self) -> AddressedRequestView<T> {
        AddressedRequestView {
            request: self.request,
            address: self.address@,
            instance: crate::instance::instance_of(self.instance),
        }
    }
}

impl<T> AddressedRequest<T> {
    /// A request to an address behind which no instance is known.
    pub fn new(request: T, address: String) -> (addressed: AddressedRequest<T>)
        ensures
            addressed@ == (AddressedRequestView { request, address: address@, instance: None }),
    {
        AddressedRequest { request, address, instance: None }
    }

    /// A request to an address and the instance behind it.
    pub fn with_instance(request: T, address: String, instance: Instance) -> (addressed:
        AddressedRequest<T>)
        ensures
            addressed@ == (AddressedRequestView {
                request,
                address: address@,
                instance: Some(instance@),
            }),
    {
        AddressedRequest { request, address, instance: Some(instance) }
    }

    /// A request to an instance, at the instance's own address.
    pub fn for_instance(request: T, instance: Instance) -> (addressed: AddressedRequest<T>)
        ensures
            addressed@ == (AddressedRequestView {
                request,
                address: instance@.address,
                instance: Some(instance@),
            }),
    {
        let address = instance.transport.address().to_string();
        AddressedRequest::with_instance(request, address, instance)
    }

    /// Takes the request apart.
    pub fn into_parts(self) -> (parts: (T, String, Option<Instance>))
        ensures
            parts.0 == self@.request,
            parts.1@ == self@.address,
            crate::instance::instance_of(parts.2) == self@.instance,
    {
        (self.request, self.address, self.instance)
    }
}

} // verus!
