//! The representative: acts for clients, keeps their declarations, and
//! bills them for services.
use vstd::prelude::*;
use std::collections::HashMap;
use crate::ambient::{fresh_id, is_random_id, now};
use crate::errors::declaration::DeclarationError;
use crate::errors::representative::RepresentativeError;
use crate::errors::AnyError;
use crate::models::declaration::{
    shelf, Billing, BillingView, Declaration, DeclarationGeneric, GenericView, Pending, Stage,
};
use crate::models::misc::location::{Location, LocationView};
use crate::models::participants::client::{Client, ClientView};
use crate::models::participants::Participant;
use crate::models::processor::{Logic as ProcessorLogic, Processor};

verus! {

broadcast use vstd::std_specs::hash::group_hash_axioms;

/// The services a representative offers.
#[derive(Clone, Copy, PartialEq, Eq, Structural, Debug)]
pub enum Service {
    CustomsPaperwork,
    Consultation,
    Outsoure,
}

impl Service {
    /// The place of the service in a list of prices.
    pub open spec fn price_index(self) -> int {
        match self {
            Service::CustomsPaperwork => 0,
            Service::Consultation => 1,
            Service::Outsoure => 2,
        }
    }
}

/// A client's request for a service.
#[derive(Debug)]
pub struct ServiceRequest {
    pub id: u128,
    pub client: u128,
    pub description: String,
    pub service: Service,
}

impl Clone for ServiceRequest {
    fn clone(&self) -> (r: Self)
        ensures
            r == *self,
    {
        ServiceRequest {
            id: self.id,
            client: self.client,
            description: self.description.clone(),
            service: self.service,
        }
    }
}

/// What a group of clients is and holds, by identifier.
pub open spec fn clientele(clients: Map<u128, Client>) -> Map<u128, ClientView> {
    clients.map_values(|c: Client| c@)
}

/// What a representative is and holds.
pub ghost struct RepresentativeView {
    pub id: u128,
    pub name: Seq<char>,
    pub location: Option<LocationView>,
    pub declarations: Map<u128, GenericView>,
    pub service_requests: Map<u128, ServiceRequest>,
    /// The price of each service, at its `price_index`.
    pub service_prices: Seq<u64>,
    pub clients: Map<u128, ClientView>,
    pub brokerage_account: u128,
}

/// One who acts for clients before customs.
#[derive(Debug)]
pub struct Representative {
    id: u128,
    name: String,
    location: Option<Location>,
    declarations: HashMap<u128, DeclarationGeneric>,
    service_requests: HashMap<u128, ServiceRequest>,
    service_prices: [u64; 3],
    clients: HashMap<u128, Client>,
    brokerage_account: u128,
}

impl View for Representative {
    type V = RepresentativeView;

    closed spec fn view(&self) -> RepresentativeView {
        RepresentativeView {
            id: self.id,
            name: self.name@,
            location: match self.location {
                Some(l) => Some(l@),
                None => None,
            },
            declarations: shelf(self.declarations@),
            service_requests: self.service_requests@,
            service_prices: self.service_prices@,
            clients: clientele(self.clients@),
            brokerage_account: self.brokerage_account,
        }
    }
}

impl Default for Representative {
    /// Nobody: identifier zero and no name, set up with nothing.
    fn default() -> (r: Self)
        ensures
            Representative::set_up(r@, 0, Seq::empty()),
    {
        proof {
            reveal_strlit("");
        }
        let r = Representative::load(0, "");
        assert(""@ =~= Seq::<char>::empty());
        r
    }
}

impl Clone for Representative {
    fn clone(&self) -> (r: Self)
        ensures
            r@ == self@,
    {
        Representative {
            id: self.id,
            name: self.name.clone(),
            location: self.location.clone(),
            declarations: self.declarations.clone(),
            service_requests: self.service_requests.clone(),
            service_prices: self.service_prices,
            clients: self.clients.clone(),
            brokerage_account: self.brokerage_account,
        }
    }
}

impl Representative {
    /// What a representative who has just set up under this identifier and
    /// name is: nothing kept, no request, no client, every service free, an
    /// empty account.
    pub open spec fn set_up(v: RepresentativeView, id: u128, name: Seq<char>) -> bool {
        v == (RepresentativeView {
            id,
            name,
            location: None,
            declarations: Map::empty(),
            service_requests: Map::empty(),
            service_prices: seq![0u64, 0u64, 0u64],
            clients: Map::empty(),
            brokerage_account: 0,
        })
    }

    /// A representative who has just set up, under a fresh random
    /// identifier.
    pub fn new(name: &str) -> (r: Self)
        ensures
            is_random_id(r@.id),
            Representative::set_up(r@, r@.id, name@),
    {
        Self::load(fresh_id(), name)
    }

    /// A representative who has just set up, under a given identifier.
    pub fn load(id: u128, name: &str) -> (r: Self)
        ensures
            Representative::set_up(r@, id, name@),
    {
        let r = Representative {
            id,
            name: name.to_owned(),
            location: None,
            declarations: HashMap::new(),
            service_requests: HashMap::new(),
            service_prices: [0, 0, 0],
            clients: HashMap::new(),
            brokerage_account: 0,
        };
        assert(shelf(r.declarations@) =~= Map::empty());
        assert(clientele(r.clients@) =~= Map::empty());
        assert(r.service_prices@ =~= seq![0u64, 0u64, 0u64]);
        r
    }

    pub fn id(&self) -> (r: u128)
        ensures
            r == self@.id,
    {
        self.id
    }

    pub fn name_ref(&self) -> (r: &str)
        ensures
            r@ == self@.name,
    {
        self.name.as_str()
    }

    /// What the representative keeps.
    pub fn declarations_ref(&self) -> (r: &HashMap<u128, DeclarationGeneric>)
        ensures
            shelf(r@) == self@.declarations,
    {
        &self.declarations
    }

    /// The requests received.
    pub fn service_requests_ref(&self) -> (r: &HashMap<u128, ServiceRequest>)
        ensures
            r@ == self@.service_requests,
    {
        &self.service_requests
    }

    /// The price of each service.
    pub fn service_prices_ref(&self) -> (r: &[u64; 3])
        ensures
            r@ == self@.service_prices,
    {
        &self.service_prices
    }

    /// The clients this representative acts for.
    pub fn clients_ref(&self) -> (r: &HashMap<u128, Client>)
        ensures
            clientele(r@) == self@.clients,
    {
        &self.clients
    }

    /// What has been paid in.
    pub fn brokerage_account(&self) -> (r: u128)
        ensures
            r == self@.brokerage_account,
    {
        self.brokerage_account
    }

    /// What the representative keeps, to change in place.
    pub fn declarations_mut(&mut self) -> (r: &mut HashMap<u128, DeclarationGeneric>)
        ensures
            shelf(r@) == old(self)@.declarations,
            final(self)@ == (RepresentativeView {
                declarations: shelf(final(r)@),
                ..old(self)@
            }),
    {
        &mut self.declarations
    }

    /// The requests received, to change in place.
    pub fn service_requests_mut(&mut self) -> (r: &mut HashMap<u128, ServiceRequest>)
        ensures
            r@ == old(self)@.service_requests,
            final(self)@ == (RepresentativeView { service_requests: final(r)@, ..old(self)@ }),
    {
        &mut self.service_requests
    }

    /// The clients this representative acts for, to change in place.
    pub fn clients_mut(&mut self) -> (r: &mut HashMap<u128, Client>)
        ensures
            clientele(r@) == old(self)@.clients,
            final(self)@ == (RepresentativeView { clients: clientele(final(r)@), ..old(self)@ }),
    {
        &mut self.clients
    }

    pub fn set_id(&mut self, value: u128)
        ensures
            final(self)@ == (RepresentativeView { id: value, ..old(self)@ }),
    {
        self.id = value;
    }

    pub fn set_name(&mut self, value: &str)
        ensures
            final(self)@ == (RepresentativeView { name: value@, ..old(self)@ }),
    {
        self.name = value.to_owned();
    }

    /// Replaces what the representative keeps.
    pub fn set_declarations(&mut self, value: HashMap<u128, DeclarationGeneric>)
        ensures
            final(self)@ == (RepresentativeView { declarations: shelf(value@), ..old(self)@ }),
    {
        self.declarations = value;
    }

    /// Replaces the requests received.
    pub fn set_service_requests(&mut self, value: HashMap<u128, ServiceRequest>)
        ensures
            final(self)@ == (RepresentativeView { service_requests: value@, ..old(self)@ }),
    {
        self.service_requests = value;
    }

    pub fn set_service_prices(&mut self, value: [u64; 3])
        ensures
            final(self)@ == (RepresentativeView { service_prices: value@, ..old(self)@ }),
    {
        self.service_prices = value;
    }

    /// Replaces the clients this representative acts for.
    pub fn set_clients(&mut self, value: HashMap<u128, Client>)
        ensures
            final(self)@ == (RepresentativeView { clients: clientele(value@), ..old(self)@ }),
    {
        self.clients = value;
    }
}

/// The outcome of billing the client of a request, by the representative
/// before and after and the result.
///
/// Without the request, or without its client, the call is refused and
/// nothing changes. Otherwise a billing goes to the client: it names the
/// representative as receiver and carries the price of the service. The
/// client takes it in unless it holds one with the same identifier already,
/// and the call succeeds either way.
pub open spec fn pay_requested(
    before: RepresentativeView,
    after: RepresentativeView,
    service_id: u128,
    r: Result<(), RepresentativeError>,
) -> bool {
    if !before.service_requests.contains_key(service_id) {
        &&& r == Err::<(), RepresentativeError>(RepresentativeError::ServiceNotFound(service_id))
        &&& after == before
    } else {
        let request = before.service_requests[service_id];
        if !before.clients.contains_key(request.client) {
            &&& r == Err::<(), RepresentativeError>(
                RepresentativeError::ClientNotFound(request.client),
            )
            &&& after == before
        } else {
            let client = before.clients[request.client];
            &&& r is Ok
            &&& exists|billing: BillingView|
                {
                    &&& is_random_id(billing.id)
                    &&& billing.receiver_id == before.id
                    &&& billing.sender_id == 0
                    &&& billing.declaration_id == 0
                    &&& billing.price == before.service_prices[request.service.price_index()]
                    &&& after == (RepresentativeView {
                        clients: before.clients.insert(
                            request.client,
                            if client.billings.contains_key(billing.id) {
                                client
                            } else {
                                ClientView {
                                    billings: #[trigger] client.billings.insert(
                                        billing.id,
                                        billing,
                                    ),
                                    ..client
                                }
                            },
                        ),
                        ..before
                    })
                }
        }
    }
}

/// What a representative does beyond keeping and sending declarations.
pub trait Logic: Participant + View<V = RepresentativeView> {
    /// Takes a payment: the price of the billing is added to the account.
    /// This never fails.
    ///
    /// The sum must fit the account.
    fn receive_pay(&mut self, bill: Billing) -> (r: Result<(), RepresentativeError>)
        requires
            old(self)@.brokerage_account + bill@.price <= u128::MAX,
        ensures
            r is Ok,
            final(self)@ == (RepresentativeView {
                brokerage_account: (old(self)@.brokerage_account + bill@.price) as u128,
                ..old(self)@
            }),
    ;

    /// The client with this identifier, if this representative acts for
    /// one.
    fn get_client(&mut self, id: &u128) -> (r: Option<&Client>)
        ensures
            final(self)@ == old(self)@,
            r is Some <==> old(self)@.clients.contains_key(*id),
            r is Some ==> r->0@ == old(self)@.clients[*id],
    ;

    /// Bills the client of the request with this identifier for the service
    /// asked.
    fn request_pay(&mut self, service_id: &u128) -> (r: Result<(), RepresentativeError>)
        ensures
            pay_requested(old(self)@, final(self)@, *service_id, r),
    ;

    /// Notes a request under its identifier. This never fails.
    fn receive_service(&mut self, service: ServiceRequest) -> (r: Result<
        (),
        RepresentativeError,
    >)
        ensures
            r is Ok,
            final(self)@ == (RepresentativeView {
                service_requests: old(self)@.service_requests.insert(service.id, service),
                ..old(self)@
            }),
    ;
}

impl Logic for Representative {
    fn receive_pay(&mut self, bill: Billing) -> (r: Result<(), RepresentativeError>) {
        self.brokerage_account = self.brokerage_account + bill.price() as u128;
        Ok(())
    }

    fn request_pay(&mut self, service_id: &u128) -> (r: Result<(), RepresentativeError>) {
        let (client_id, service) = match self.service_requests.get(service_id) {
            Some(request) => (request.client, request.service),
            None => {
                return Err(RepresentativeError::ServiceNotFound(*service_id));
            },
        };
        let mut billing = Billing::new();
        billing.set_receiver_id(self.id);
        billing.set_created_at(now());
        match service {
            Service::CustomsPaperwork => {
                billing.set_price(self.service_prices[0]);
            },
            Service::Consultation => {
                billing.set_price(self.service_prices[1]);
            },
            Service::Outsoure => {
                billing.set_price(self.service_prices[2]);
            },
        }
        match self.clients.remove(&client_id) {
            None => {
                assert(clientele(self.clients@) =~= clientele(old(self).clients@));
                Err(RepresentativeError::ClientNotFound(client_id))
            },
            Some(client) => {
                let mut client = client;
                let ghost before = client@;
                let ghost sent = billing@;
                let _ = client.take_billing(billing);
                let ghost after = client@;
                self.clients.insert(client_id, client);
                assert(clientele(self.clients@) =~= clientele(old(self).clients@).insert(
                    client_id,
                    after,
                ));
                assert(!before.billings.contains_key(sent.id) ==> after == (ClientView {
                    billings: before.billings.insert(sent.id, sent),
                    ..before
                }));
                Ok(())
            },
        }
    }

    fn get_client(&mut self, id: &u128) -> (r: Option<&Client>) {
        self.clients.get(id)
    }

    fn receive_service(&mut self, service: ServiceRequest) -> (r: Result<
        (),
        RepresentativeError,
    >) {
        let id = service.id;
        self.service_requests.insert(id, service);
        Ok(())
    }
}

impl Participant for Representative {
    open spec fn archive(&self) -> Map<u128, GenericView> {
        self@.declarations
    }

    fn update_declaration(&mut self, declaration: &DeclarationGeneric) -> (r: Result<
        Option<DeclarationGeneric>,
        AnyError,
    >)
        ensures
            final(self)@ == (RepresentativeView {
                declarations: old(self)@.declarations.insert(
                    declaration@.content.id,
                    declaration@,
                ),
                ..old(self)@
            }),
    {
        let previous = self.declarations.insert(declaration.id(), declaration.clone());
        assert(shelf(self.declarations@) =~= shelf(old(self).declarations@).insert(
            declaration@.content.id,
            declaration@,
        ));
        Ok(previous)
    }

    fn get_declaration(&self, id: u128) -> (r: Option<&DeclarationGeneric>) {
        self.declarations.get(&id)
    }

    fn send_docs(&mut self, proc: &mut Processor, id: u128) -> (r: Result<(), AnyError>)
        ensures
            final(self)@ == (RepresentativeView {
                declarations: final(self)@.declarations,
                ..old(self)@
            }),
    {
        let declaration = self.declarations.get(&id);
        match declaration {
            None => Err(AnyError::Declaration(DeclarationError::DeclarationNotFound(id))),
            Some(DeclarationGeneric::Draft(decl)) => {
                match decl.validate() {
                    Err(e) => Err(AnyError::Declaration(e)),
                    Ok(decl) => {
                        match proc.process_declaration(&decl) {
                            Err(e) => Err(AnyError::Processor(e)),
                            Ok(_) => {
                                let ghost kept = decl@;
                                self.declarations.insert(
                                    decl.id(),
                                    DeclarationGeneric::Pending(decl),
                                );
                                assert(shelf(self.declarations@) =~= shelf(
                                    old(self).declarations@,
                                ).insert(
                                    kept.id,
                                    GenericView { stage: Stage::Pending, content: kept },
                                ));
                                Ok(())
                            },
                        }
                    },
                }
            },
            Some(other) => {
                let state = other.current_stage().name().to_owned();
                Err(AnyError::Declaration(DeclarationError::IncorrectState(id, state)))
            },
        }
    }
}

} // verus!
