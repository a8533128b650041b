use vstd::prelude::*;

verus! {

/// The id of a service, unique within one network.
pub type ServiceId = String;

/// The object through which a test speaks to one of its services.
pub trait Service {
    /// Whether the service is ready to be used.
    fn is_available(&self) -> bool;
}

/// Builds the object of a service from its id and address.
pub trait ServiceInterfaceWrapper<T: Service> {
    fn wrap(&self, service_id: &str, service_ip_addr: &str) -> T;
}

} // verus!
