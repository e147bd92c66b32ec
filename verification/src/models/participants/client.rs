//! The client of a representative: asks for services and is billed for them.
use vstd::prelude::*;
use std::collections::HashMap;
use crate::ambient::{fresh_id, is_random_id};
use crate::errors::client::ClientError;
use crate::models::declaration::{Billing, BillingView};
use crate::models::misc::location::{Location, LocationView};
use crate::models::participants::representative::{
    Logic as RepresentativeLogic, Representative, RepresentativeView, Service, ServiceRequest,
};
use crate::utils::HasId;

verus! {

broadcast use vstd::std_specs::hash::group_hash_axioms;

/// What a set of billings says, by identifier.
pub open spec fn bills(billings: Map<u128, Billing>) -> Map<u128, BillingView> {
    billings.map_values(|b: Billing| b@)
}

/// What a client is and holds.
pub ghost struct ClientView {
    pub id: u128,
    pub name: Seq<char>,
    pub location: Option<LocationView>,
    pub requests: Map<u128, ServiceRequest>,
    pub billings: Map<u128, BillingView>,
}

/// One who has a representative act for them.
#[derive(Debug)]
pub struct Client {
    id: u128,
    name: String,
    location: Option<Location>,
    requests: HashMap<u128, ServiceRequest>,
    billings: HashMap<u128, Billing>,
}

impl View for Client {
    type V = ClientView;

    closed spec fn view(&self) -> ClientView {
        ClientView {
            id: self.id,
            name: self.name@,
            location: match self.location {
                Some(l) => Some(l@),
                None => None,
            },
            requests: self.requests@,
            billings: bills(self.billings@),
        }
    }
}

impl Clone for Client {
    fn clone(&self) -> (r: Self)
        ensures
            r@ == self@,
    {
        Client {
            id: self.id,
            name: self.name.clone(),
            location: self.location.clone(),
            requests: self.requests.clone(),
            billings: self.billings.clone(),
        }
    }
}

impl Default for Client {
    /// Nobody: identifier zero, no name, nothing held.
    fn default() -> (r: Self)
        ensures
            r@ == (ClientView {
                id: 0,
                name: Seq::empty(),
                location: None,
                requests: Map::empty(),
                billings: Map::empty(),
            }),
    {
        let r = Client {
            id: 0,
            name: String::new(),
            location: None,
            requests: HashMap::new(),
            billings: HashMap::new(),
        };
        assert(bills(r.billings@) =~= Map::empty());
        r
    }
}

impl Client {
    /// A client who holds nothing yet, under a fresh random identifier.
    pub fn new(name: &str) -> (r: Self)
        ensures
            is_random_id(r@.id),
            r@ == (ClientView {
                id: r@.id,
                name: name@,
                location: None,
                requests: Map::empty(),
                billings: Map::empty(),
            }),
    {
        Self::load(fresh_id(), name)
    }

    /// A client who holds nothing yet, under a given identifier.
    pub fn load(id: u128, name: &str) -> (r: Self)
        ensures
            r@ == (ClientView {
                id,
                name: name@,
                location: None,
                requests: Map::empty(),
                billings: Map::empty(),
            }),
    {
        let r = Client {
            id,
            name: name.to_owned(),
            location: None,
            requests: HashMap::new(),
            billings: HashMap::new(),
        };
        assert(bills(r.billings@) =~= Map::empty());
        r
    }

    pub fn id(&self) -> (r: u128)
        ensures
            r == self@.id,
    {
        self.id
    }

    pub fn name_ref(&self) -> (r: &str)
        ensures
            r@ == self@.name,
    {
        self.name.as_str()
    }

    /// A copy of the location, if one is set.
    pub fn location(&self) -> (r: Option<Location>)
        ensures
            match r {
                Some(l) => self@.location == Some(l@),
                None => self@.location is None,
            },
    {
        self.location.clone()
    }

    /// The requests this client has made.
    pub fn requests_ref(&self) -> (r: &HashMap<u128, ServiceRequest>)
        ensures
            r@ == self@.requests,
    {
        &self.requests
    }

    /// The billings this client has received.
    pub fn billings_ref(&self) -> (r: &HashMap<u128, Billing>)
        ensures
            bills(r@) == self@.billings,
    {
        &self.billings
    }

    pub fn set_id(&mut self, value: u128)
        ensures
            final(self)@ == (ClientView { id: value, ..old(self)@ }),
    {
        self.id = value;
    }

    pub fn set_name(&mut self, value: &str)
        ensures
            final(self)@ == (ClientView { name: value@, ..old(self)@ }),
    {
        self.name = value.to_owned();
    }

    pub fn set_location(&mut self, value: Option<Location>)
        ensures
            final(self)@ == (ClientView {
                location: match value {
                    Some(l) => Some(l@),
                    None => None,
                },
                ..old(self)@
            }),
    {
        self.location = value;
    }
}

/// Whether a client took a billing in: it did unless it held one with the
/// same identifier already, and then nothing changed.
pub open spec fn billing_taken(
    before: ClientView,
    after: ClientView,
    billing: BillingView,
    r: Result<(), ClientError>,
) -> bool {
    match r {
        Ok(_) => !before.billings.contains_key(billing.id) && after == (ClientView {
            billings: before.billings.insert(billing.id, billing),
            ..before
        }),
        Err(e) => before.billings.contains_key(billing.id) && e == ClientError::BillingExists(
            billing.id,
        ) && after == before,
    }
}

/// A request was made: the client noted it under its identifier, the
/// representative did the same, and nothing else has changed.
pub open spec fn service_asked(
    before: ClientView,
    after: ClientView,
    repr_before: RepresentativeView,
    repr_after: RepresentativeView,
    asked: ServiceRequest,
) -> bool {
    &&& after == (ClientView { requests: before.requests.insert(asked.id, asked), ..before })
    &&& repr_after == (RepresentativeView {
        service_requests: repr_before.service_requests.insert(asked.id, asked),
        ..repr_before
    })
}

impl Client {
    /// Takes a billing in, unless one with the same identifier is held
    /// already.
    pub(crate) fn take_billing(&mut self, billing: Billing) -> (r: Result<(), ClientError>)
        ensures
            billing_taken(old(self)@, final(self)@, billing@, r),
    {
        if self.billings.contains_key(&billing.id()) {
            return Err(ClientError::BillingExists(billing.id()));
        }
        self.billings.insert(billing.id(), billing);
        assert(bills(self.billings@) =~= bills(old(self).billings@).insert(billing@.id, billing@));
        Ok(())
    }
}

/// What a client does.
pub trait Logic: View<V = ClientView> {
    /// Asks a representative for a service: a request under a fresh random
    /// identifier, naming this client, is noted here and handed to the
    /// representative.
    fn request_service(
        &mut self,
        repr: &mut Representative,
        description: String,
        service: Service,
    )
        ensures
            exists|request: u128|
                is_random_id(request) && service_asked(
                    old(self)@,
                    final(self)@,
                    old(repr)@,
                    final(repr)@,
                    ServiceRequest { id: request, client: old(self)@.id, description, service },
                ),
    ;

    /// Takes a billing in, unless one with the same identifier is held
    /// already.
    fn receive_billing(&mut self, billing: Billing) -> (r: Result<(), ClientError>)
        ensures
            billing_taken(old(self)@, final(self)@, billing@, r),
    ;
}

impl Logic for Client {
    fn request_service(
        &mut self,
        repr: &mut Representative,
        description: String,
        service: Service,
    ) {
        let service_req = ServiceRequest { id: fresh_id(), client: self.id, description, service };
        self.requests.insert(service_req.id, service_req.clone());
        let _ = repr.receive_service(service_req);
        assert(service_asked(old(self)@, self@, old(repr)@, repr@, service_req));
    }

    fn receive_billing(&mut self, billing: Billing) -> (r: Result<(), ClientError>) {
        self.take_billing(billing)
    }
}

impl HasId for Client {
    open spec fn spec_id(&self) -> u128 {
        self@.id
    }

    open spec fn same_but_id(&self, other: &Self) -> bool {
        self@ == (ClientView { id: self@.id, ..other@ })
    }

    fn id(&mut self) -> (r: &mut u128) {
        &mut self.id
    }
}

} // verus!
