use customs_workflow::errors::client::ClientError;
use customs_workflow::errors::declaration::DeclarationError;
use customs_workflow::errors::processor::ProcessorError;
use customs_workflow::errors::representative::RepresentativeError;
use customs_workflow::errors::AnyError;
use customs_workflow::models::customs::{Customs, Logic as CustomsLogic};
use customs_workflow::models::declaration::{
    Billing, Declaration, DeclarationGeneric, Draft, Inspecting,
};
use customs_workflow::models::misc::location::Location;
use customs_workflow::models::participants::client::{Client, Logic as ClientLogic};
use customs_workflow::models::participants::declarant::Declarant;
use customs_workflow::models::participants::representative::{
    Logic as RepresentativeLogic, Representative, Service, ServiceRequest,
};
use customs_workflow::models::participants::Participant;
use customs_workflow::models::processor::{Logic as ProcessorLogic, Processor};

fn generate_declaration() -> Declaration<Draft> {
    let mut declaration = Declaration::<Draft>::default();
    declaration.set_sender_name("John");
    declaration.set_id(uuid::Uuid::new_v4().as_u128());
    declaration.set_departure("Test");
    declaration.set_product_name("Test");
    declaration.set_product_code("Test");
    declaration.set_product_price(1);
    declaration.set_product_quantity(1);
    declaration.set_product_weight(1);
    declaration.set_product_description("Test");
    declaration.set_transport_type("Test");
    declaration.set_transport_name("Test");
    declaration.set_receiver_name("Test");
    declaration.set_destination("Test");
    declaration
}

fn receiver_of(g: &DeclarationGeneric) -> String {
    match g {
        DeclarationGeneric::Draft(d) => d.receiver_name_ref().to_string(),
        DeclarationGeneric::Pending(d) => d.receiver_name_ref().to_string(),
        DeclarationGeneric::Inspecting(d) => d.receiver_name_ref().to_string(),
        DeclarationGeneric::Approved(d) => d.receiver_name_ref().to_string(),
        DeclarationGeneric::Rejected(d) => d.receiver_name_ref().to_string(),
    }
}

#[test]
fn declarant_update_declaration() {
    let mut declarant = Declarant::new("John");
    let mut declaration = generate_declaration();
    let id = declaration.id();
    declaration.set_receiver_name("Steve");
    declarant.update_declaration(&DeclarationGeneric::Draft(declaration.clone())).unwrap();

    assert_eq!(declarant.declarations_ref().len(), 1);
    let mut name = String::new();
    if let DeclarationGeneric::Draft(decl) = &declarant.declarations_ref()[&id] {
        name = decl.receiver_name_ref().to_string();
    }
    assert_eq!(name, "Steve");

    declaration.set_receiver_name("Jane");
    let declaration_new = declaration.validate().unwrap();
    declarant.update_declaration(&DeclarationGeneric::Pending(declaration_new)).unwrap();

    assert_eq!(declarant.declarations_ref().len(), 1);
    let mut name = String::new();
    if let DeclarationGeneric::Pending(decl) = &declarant.declarations_ref()[&id] {
        name = decl.receiver_name_ref().to_string();
    }
    assert_eq!(name, "Jane");
}

#[test]
fn declarant_get_declaration() {
    let mut declarant = Declarant::new("John");
    let mut declaration = generate_declaration();
    let id = declaration.id();
    declaration.set_receiver_name("Steve");
    declarant.update_declaration(&DeclarationGeneric::Draft(declaration.clone())).unwrap();

    assert_eq!(declarant.declarations_ref().len(), 1);
    assert_eq!(receiver_of(&declarant.declarations_ref()[&id]), "Steve");

    let declaration_get = declarant.get_declaration(id);
    assert!(declaration_get.is_some());
    assert_eq!(*declaration_get.unwrap(), DeclarationGeneric::Draft(declaration.clone()));

    declaration.set_receiver_name("Jane");
    let declaration_new = declaration.validate().unwrap();
    declarant
        .update_declaration(&DeclarationGeneric::Pending(declaration_new.clone()))
        .unwrap();

    assert_eq!(declarant.declarations_ref().len(), 1);

    let declaration_get = declarant.get_declaration(id);
    assert!(declaration_get.is_some());
    assert_eq!(*declaration_get.unwrap(), DeclarationGeneric::Pending(declaration_new.clone()));

    let declaration_new: Declaration<Inspecting> = declaration_new.into();
    declarant
        .update_declaration(&DeclarationGeneric::Inspecting(declaration_new.clone()))
        .unwrap();

    assert_eq!(declarant.declarations_ref().len(), 1);

    let declaration_get = declarant.get_declaration(id);
    assert!(declaration_get.is_some());
    assert_eq!(*declaration_get.unwrap(), DeclarationGeneric::Inspecting(declaration_new));
}

#[test]
fn send_docs() {
    let mut declarant = Declarant::new("John");
    let declaration = generate_declaration();
    let id = declaration.id();
    declarant.update_declaration(&DeclarationGeneric::Draft(declaration.clone())).unwrap();

    assert_eq!(declarant.declarations_ref().len(), 1);
    assert_eq!(receiver_of(&declarant.declarations_ref()[&id]), "Test");

    let mut processor = Processor::new();
    let cumstoms = Customs::new("Test", &Location::default());
    processor.connect(cumstoms.clone()).unwrap();
    declarant.send_docs(&mut processor, id).unwrap();

    assert_eq!(declarant.declarations_ref().len(), 1);
    let cumstoms = &processor.customs_ref()[&cumstoms.id()];
    assert_eq!(
        cumstoms.get_declaration(&declaration.id()).unwrap(),
        DeclarationGeneric::Pending(declaration.validate().unwrap())
    );
    assert_eq!(
        declarant.get_declaration(id),
        Some(&DeclarationGeneric::Pending(declaration.validate().unwrap()))
    );
}

#[test]
fn send_docs_of_unknown_identifier_is_refused() {
    let mut declarant = Declarant::new("John");
    let mut processor = Processor::new();
    match declarant.send_docs(&mut processor, 4) {
        Err(AnyError::Declaration(DeclarationError::DeclarationNotFound(id))) => assert_eq!(id, 4),
        other => panic!("expected a refusal, got {:?}", other),
    }
}

#[test]
fn send_docs_of_incomplete_draft_is_refused() {
    let mut declarant = Declarant::new("John");
    let mut declaration = generate_declaration();
    declaration.set_product_weight(0);
    let id = declaration.id();
    declarant.update_declaration(&DeclarationGeneric::Draft(declaration.clone())).unwrap();
    let mut processor = Processor::new();
    let customs = Customs::load(1, "Test", &Location::default());
    processor.connect(customs).unwrap();
    match declarant.send_docs(&mut processor, id) {
        Err(AnyError::Declaration(DeclarationError::DeclarationNotComplete(refused))) => {
            assert_eq!(refused, id)
        }
        other => panic!("expected a refusal, got {:?}", other),
    }
    assert!(processor.customs_ref()[&1].declarations_ref().is_empty());
    assert_eq!(declarant.get_declaration(id), Some(&DeclarationGeneric::Draft(declaration)));
}

#[test]
fn send_docs_of_what_is_no_draft_is_refused_with_its_state() {
    let mut declarant = Declarant::new("John");
    let declaration = generate_declaration();
    let id = declaration.id();
    let pending = declaration.validate().unwrap();
    declarant.update_declaration(&DeclarationGeneric::Pending(pending.clone())).unwrap();
    let mut processor = Processor::new();
    processor.connect(Customs::load(1, "Test", &Location::default())).unwrap();
    match declarant.send_docs(&mut processor, id) {
        Err(AnyError::Declaration(DeclarationError::IncorrectState(refused, state))) => {
            assert_eq!(refused, id);
            assert_eq!(state, "pending");
        }
        other => panic!("expected a refusal, got {:?}", other),
    }
    assert!(processor.customs_ref()[&1].declarations_ref().is_empty());

    let inspecting: Declaration<Inspecting> = pending.into();
    declarant.update_declaration(&DeclarationGeneric::Inspecting(inspecting)).unwrap();
    match declarant.send_docs(&mut processor, id) {
        Err(AnyError::Declaration(DeclarationError::IncorrectState(_, state))) => {
            assert_eq!(state, "inspecting")
        }
        other => panic!("expected a refusal, got {:?}", other),
    }
}

#[test]
fn declarant_load_keeps_what_it_is_given() {
    let declarant = Declarant::load(8, "John");
    assert_eq!(declarant.id(), 8);
    assert_eq!(declarant.name_ref(), "John");
    assert_eq!(declarant.location_ref(), &None);
    assert!(declarant.declarations_ref().is_empty());
}

#[test]
fn receive_pay() {
    let mut repr = Representative::new("Test");
    let mut bill = Billing::new();
    bill.set_price(1000);
    repr.receive_pay(bill.clone()).unwrap();
    assert_eq!(repr.brokerage_account(), 1000);
    repr.receive_pay(bill).unwrap();
    assert_eq!(repr.brokerage_account(), 2000);
}

#[test]
fn receive_service() {
    let mut repr = Representative::new("Test");
    repr.receive_service(ServiceRequest {
        id: uuid::Uuid::new_v4().as_u128(),
        client: uuid::Uuid::new_v4().as_u128(),
        description: "Test".to_string(),
        service: Service::Consultation,
    })
    .unwrap();
    assert_eq!(repr.service_requests_ref().len(), 1);
}

#[test]
fn representative_update_declaration() {
    let mut repr = Representative::new("Test");
    let decl = DeclarationGeneric::Draft(Declaration::new());
    repr.update_declaration(&decl).unwrap();
    assert_eq!(repr.declarations_ref().len(), 1);
}

#[test]
fn representative_get_declaration() {
    let mut repr = Representative::new("Test");
    let decl = Declaration::new();
    let id = decl.id();
    let decl = DeclarationGeneric::Draft(decl);
    repr.update_declaration(&decl).unwrap();
    assert_eq!(repr.get_declaration(id), Some(&decl));
}

#[test]
fn representative_sends_docs() {
    let mut repr = Representative::new("Test");
    let declaration = generate_declaration();
    let id = declaration.id();
    repr.update_declaration(&DeclarationGeneric::Draft(declaration.clone())).unwrap();
    let mut processor = Processor::new();
    processor.connect(Customs::load(1, "Test", &Location::default())).unwrap();
    repr.send_docs(&mut processor, id).unwrap();
    let pending = declaration.validate().unwrap();
    assert_eq!(repr.get_declaration(id), Some(&DeclarationGeneric::Pending(pending.clone())));
    assert_eq!(processor.find_declaration(id), Some(DeclarationGeneric::Pending(pending)));
    match repr.send_docs(&mut processor, id) {
        Err(AnyError::Declaration(DeclarationError::IncorrectState(refused, state))) => {
            assert_eq!(refused, id);
            assert_eq!(state, "pending");
        }
        other => panic!("expected a refusal, got {:?}", other),
    }
}

#[test]
fn request_service() {
    let mut client = Client::new("Test");
    let mut repr = Representative::new("Test");
    client.request_service(&mut repr, "Test".to_string(), Service::Outsoure);
    assert_eq!(repr.service_requests_ref().len(), 1);
    assert_eq!(client.requests_ref().len(), 1);
    let (id, request) = client.requests_ref().iter().next().unwrap();
    assert_eq!(request.id, *id);
    assert_eq!(request.client, client.id());
    assert_eq!(request.description, "Test");
    assert_eq!(request.service, Service::Outsoure);
    assert_eq!(repr.service_requests_ref()[id].client, client.id());
}

#[test]
fn receive_billing() {
    let mut client = Client::new("Test");
    let mut repr = Representative::new("Test");
    client.request_service(&mut repr, "Test".to_string(), Service::Outsoure);
    let billing = Billing::new();
    client.receive_billing(billing).unwrap();
    assert_eq!(client.billings_ref().len(), 1);
}

#[test]
fn receive_billing_twice_is_refused() {
    let mut client = Client::new("Test");
    let mut billing = Billing::new();
    billing.set_price(5);
    client.receive_billing(billing.clone()).unwrap();
    billing.set_price(6);
    match client.receive_billing(billing.clone()) {
        Err(ClientError::BillingExists(id)) => assert_eq!(id, billing.id()),
        other => panic!("expected a refusal, got {:?}", other),
    }
    assert_eq!(client.billings_ref().len(), 1);
    assert_eq!(client.billings_ref()[&billing.id()].price(), 5);
}

#[test]
fn request_pay_bills_the_client() {
    let mut client = Client::load(3, "Test");
    let mut repr = Representative::load(4, "Test");
    repr.set_service_prices([10, 20, 30]);
    client.request_service(&mut repr, "Test".to_string(), Service::Consultation);
    let request = *client.requests_ref().keys().next().unwrap();
    repr.clients_mut().insert(3, client);

    repr.request_pay(&request).unwrap();

    let billed = &repr.clients_ref()[&3];
    assert_eq!(billed.billings_ref().len(), 1);
    let billing = billed.billings_ref().values().next().unwrap();
    assert_eq!(billing.price(), 20);
    assert_eq!(billing.receiver_id(), 4);
    assert_eq!(billing.sender_id(), 0);
    assert_eq!(billing.declaration_id(), 0);
}

#[test]
fn request_pay_without_request_or_client_is_refused() {
    let mut repr = Representative::load(4, "Test");
    match repr.request_pay(&1) {
        Err(RepresentativeError::ServiceNotFound(id)) => assert_eq!(id, 1),
        other => panic!("expected a refusal, got {:?}", other),
    }
    repr.receive_service(ServiceRequest {
        id: 1,
        client: 2,
        description: "Test".to_string(),
        service: Service::CustomsPaperwork,
    })
    .unwrap();
    match repr.request_pay(&1) {
        Err(RepresentativeError::ClientNotFound(id)) => assert_eq!(id, 2),
        other => panic!("expected a refusal, got {:?}", other),
    }
    assert!(repr.get_client(&2).is_none());
}

#[test]
fn send_docs_without_an_office_is_refused() {
    let mut declarant = Declarant::new("John");
    let declaration = generate_declaration();
    let id = declaration.id();
    declarant.update_declaration(&DeclarationGeneric::Draft(declaration.clone())).unwrap();
    let mut processor = Processor::new();
    match declarant.send_docs(&mut processor, id) {
        Err(AnyError::Processor(ProcessorError::NoCustomsConnected)) => {}
        other => panic!("expected a refusal, got {:?}", other),
    }
    assert_eq!(declarant.get_declaration(id), Some(&DeclarationGeneric::Draft(declaration)));
    assert!(processor.customs_ref().is_empty());

    let mut repr = Representative::new("Test");
    let declaration = generate_declaration();
    let id = declaration.id();
    repr.update_declaration(&DeclarationGeneric::Draft(declaration.clone())).unwrap();
    match repr.send_docs(&mut processor, id) {
        Err(AnyError::Processor(ProcessorError::NoCustomsConnected)) => {}
        other => panic!("expected a refusal, got {:?}", other),
    }
    assert_eq!(repr.get_declaration(id), Some(&DeclarationGeneric::Draft(declaration)));
}

#[test]
fn participants_get_identifiers_of_the_random_kind() {
    let ids = [
        Declarant::new("John").id(),
        Representative::new("Test").id(),
        Client::new("Test").id(),
        Location::new("RU", "Moscow", "Moscow", Default::default()).id(),
        Declaration::new().id(),
    ];
    for id in ids {
        let id = uuid::Uuid::from_u128(id);
        assert_eq!(id.get_version_num(), 4);
        assert_eq!(id.get_variant(), uuid::Variant::RFC4122);
    }
    let mut client = Client::new("Test");
    let mut repr = Representative::new("Test");
    client.request_service(&mut repr, "Test".to_string(), Service::Consultation);
    let request = *client.requests_ref().keys().next().unwrap();
    assert_eq!(uuid::Uuid::from_u128(request).get_version_num(), 4);
}
