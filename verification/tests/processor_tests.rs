use customs_workflow::errors::processor::ProcessorError;
use customs_workflow::models::customs::inspector::{Inspector, Logic as InspectorLogic};
use customs_workflow::models::customs::{Customs, Fee, Logic as CustomsLogic};
use customs_workflow::models::declaration::{
    Declaration, DeclarationGeneric, Draft, GenericDowncast, Pending, Pool,
};
use customs_workflow::models::misc::location::Location;
use customs_workflow::models::misc::timestamp::DayTime;
use customs_workflow::models::processor::{Logic, Processor};

fn filled(receiver: &str) -> Declaration<Draft> {
    let mut d = Declaration::new();
    d.set_product_name("Test");
    d.set_product_code("Test");
    d.set_product_price(1);
    d.set_product_quantity(1);
    d.set_product_weight(1);
    d.set_product_description("Test");
    d.set_transport_type("Test");
    d.set_transport_name("Test");
    d.set_sender_name("Test");
    d.set_receiver_name(receiver);
    d.set_destination("Test");
    d.set_departure("Test");
    d
}

#[test]
fn connect() {
    let mut proc = Processor::new();
    let location = Location::default();
    let customs = Customs::new("Moscow", &location);
    proc.connect(customs.clone()).unwrap();

    assert_eq!(proc.customs_ref().len(), 1);
    assert_eq!(proc.customs_ref()[&customs.id()], customs);
}

#[test]
fn process_declaration() {
    let mut proc = Processor::new();
    let location = Location::default();
    let customs = Customs::new("Moscow", &location);
    proc.connect(customs.clone()).unwrap();
    let mut decl = Declaration::<Draft>::default();
    decl.set_receiver_name("TEST");

    assert_eq!(proc.customs_ref().len(), 1);
    assert_eq!(proc.customs_ref()[&customs.id()], customs);
}

#[test]
fn find_declaration() {
    let mut proc = Processor::new();
    let location = Location::default();
    let customs = Customs::new("Moscow", &location);
    proc.connect(customs.clone()).unwrap();
    let decl: Declaration<Pending> = filled("TEST").validate().unwrap();
    proc.process_declaration(&decl).unwrap();
    let decl = proc.find_declaration(decl.id()).unwrap();
    let decl: &Declaration<Pending> = decl.downcast().unwrap();

    assert_eq!(decl.receiver_name_ref(), "TEST");
}

#[test]
fn connect_returns_the_office_it_replaced() {
    let mut proc = Processor::new();
    let first = Customs::load(7, "Moscow", &Location::default());
    let second = Customs::load(7, "Kazan", &Location::default());
    assert!(proc.connect(first.clone()).unwrap().is_none());
    let previous = proc.connect(second.clone()).unwrap();
    assert_eq!(previous, Some(first));
    assert_eq!(proc.customs_ref().len(), 1);
    assert_eq!(proc.customs_ref()[&7], second);
}

#[test]
fn new_office_has_its_defaults() {
    let location = Location::load(3, "RU", "Moscow", "Moscow", Default::default());
    let customs = Customs::load(7, "Moscow", &location);
    assert_eq!(customs.id(), 7);
    assert_eq!(customs.name_ref(), &Some("Moscow".to_string()));
    assert_eq!(customs.location_ref(), &Some(location));
    assert_eq!(
        customs.work_hours(),
        Some((DayTime { secs: 9 * 3600, frac: 0 }, DayTime { secs: 20 * 3600, frac: 0 }))
    );
    assert_eq!(customs.competence_ref(), &None);
    assert_eq!(customs.phone_number_ref(), &None);
    assert_eq!(customs.email_ref(), &None);
    assert!(customs.declarations_ref().is_empty());
    assert!(customs.inspectors_ref().is_empty());
    assert!(customs.operators_ref().is_empty());
    assert_eq!(customs.customs_params_ref().fee, Fee::Flat(0));
}

#[test]
fn dispatch_puts_the_declaration_into_exactly_one_office() {
    let mut proc = Processor::new();
    for id in 1..=5u128 {
        proc.connect(Customs::load(id, "Office", &Location::default())).unwrap();
    }
    for _ in 0..20 {
        let decl = filled("TEST").validate().unwrap();
        let previous = proc.process_declaration(&decl).unwrap();
        assert!(previous.is_none());
        let holders = proc
            .customs_ref()
            .values()
            .filter(|office| office.declarations_ref().contains_key(&decl.id()))
            .count();
        assert_eq!(holders, 1);
        let under_review = proc
            .customs_ref()
            .values()
            .flat_map(|office| office.inspectors_ref().values())
            .filter(|inspector| inspector.declarations_ref().contains_key(&decl.id()))
            .count();
        assert_eq!(under_review, 0);
    }
}

#[test]
fn dispatch_twice_returns_the_first_and_keeps_the_second() {
    let mut proc = Processor::new();
    proc.connect(Customs::load(1, "Moscow", &Location::default())).unwrap();
    let mut draft = filled("Steve");
    let first = draft.validate().unwrap();
    draft.set_receiver_name("Jane");
    let second = draft.validate().unwrap();

    assert!(proc.process_declaration(&first).unwrap().is_none());
    let previous = proc.process_declaration(&second).unwrap();

    assert_eq!(previous, Some(first));
    let pool = proc.customs_ref()[&1].declarations_ref();
    assert_eq!(pool.len(), 1);
    assert_eq!(pool[&draft.id()], second);
}

#[test]
fn dispatch_to_a_named_office() {
    let mut proc = Processor::new();
    proc.connect(Customs::load(1, "Moscow", &Location::default())).unwrap();
    proc.connect(Customs::load(2, "Kazan", &Location::default())).unwrap();
    let decl = filled("TEST").validate().unwrap();

    assert!(proc.process_declaration_at(&2, &decl).unwrap().is_none());

    assert!(proc.customs_ref()[&1].declarations_ref().is_empty());
    assert_eq!(proc.customs_ref()[&2].declarations_ref()[&decl.id()], decl);
    assert_eq!(proc.customs_ref()[&2].name_ref(), &Some("Kazan".to_string()));
    assert_eq!(proc.customs_ref().len(), 2);
}

#[test]
fn dispatch_to_an_unknown_office_is_refused() {
    let mut proc = Processor::new();
    proc.connect(Customs::load(1, "Moscow", &Location::default())).unwrap();
    let decl = filled("TEST").validate().unwrap();
    let before = proc.clone();
    match proc.process_declaration_at(&9, &decl) {
        Err(ProcessorError::CannotBorrowCustoms(office)) => assert_eq!(office, 9),
        other => panic!("expected a refusal, got {:?}", other),
    }
    assert_eq!(proc, before);
}

#[test]
fn find_does_not_see_unknown_identifiers() {
    let mut proc = Processor::new();
    assert!(proc.find_declaration(5).is_none());
    proc.connect(Customs::load(1, "Moscow", &Location::default())).unwrap();
    let decl = filled("TEST").validate().unwrap();
    proc.process_declaration(&decl).unwrap();
    assert!(proc.find_declaration(decl.id().wrapping_add(1)).is_none());
}

#[test]
fn find_searches_every_office() {
    let mut proc = Processor::new();
    for id in 1..=4u128 {
        proc.connect(Customs::load(id, "Office", &Location::default())).unwrap();
    }
    let decl = filled("TEST").validate().unwrap();
    proc.process_declaration_at(&3, &decl).unwrap();
    let found = proc.find_declaration(decl.id()).unwrap();
    assert_eq!(found, DeclarationGeneric::Pending(decl));
}

#[test]
fn find_does_not_see_what_an_inspector_took_up() {
    let mut proc = Processor::new();
    let mut customs = Customs::load(1, "Moscow", &Location::default());
    let inspector = Inspector::load(5, "Ivan", "Inspector", "Leutenant");
    customs.inspectors_mut().insert(5, inspector);
    proc.connect(customs).unwrap();
    let decl = filled("TEST").validate().unwrap();
    let id = decl.id();
    proc.process_declaration(&decl).unwrap();

    let office = proc.customs_mut().get_mut(&1).unwrap();
    let taken = office.remove_declaration(&id).unwrap();
    office.inspectors_mut().get_mut(&5).unwrap().fetch_declaration(taken);

    assert!(proc.find_declaration(id).is_none());
    let office = &proc.customs_ref()[&1];
    assert!(!office.declarations_ref().contains_key(&id));
    let holders = office
        .inspectors_ref()
        .values()
        .filter(|inspector| inspector.declarations_ref().contains_key(&id))
        .count();
    assert_eq!(holders, 1);
    assert_eq!(
        office.inspectors_ref()[&5].get_declaration(&id).unwrap().inspected_by(),
        Some(5)
    );
}

#[test]
fn office_pool_operations() {
    let mut customs = Customs::load(1, "Moscow", &Location::default());
    let mut draft = filled("Steve");
    let first = draft.validate().unwrap();
    draft.set_receiver_name("Jane");
    let second = draft.validate().unwrap();
    let id = draft.id();

    assert!(customs.get_declaration(&id).is_none());
    assert_eq!(customs.update_decl(first.clone()).unwrap(), None);
    assert_eq!(customs.get_declaration(&id), Some(DeclarationGeneric::Pending(first.clone())));
    assert_eq!(customs.update_decl(second.clone()).unwrap(), Some(first));
    assert_eq!(customs.declarations_ref().len(), 1);
    assert_eq!(customs.remove_declaration(&id), Some(second));
    assert!(customs.remove_declaration(&id).is_none());
    assert!(customs.declarations_ref().is_empty());
}

#[test]
fn dispatch_without_an_office_is_refused() {
    let mut proc = Processor::new();
    let decl = filled("TEST").validate().unwrap();
    match proc.process_declaration(&decl) {
        Err(ProcessorError::NoCustomsConnected) => {}
        other => panic!("expected a refusal, got {:?}", other),
    }
    assert!(proc.customs_ref().is_empty());
    assert_eq!(proc, Processor::new());
    assert!(proc.find_declaration(decl.id()).is_none());
}

#[test]
fn office_identifier_is_of_the_random_kind() {
    let customs = Customs::new("Moscow", &Location::default());
    let id = uuid::Uuid::from_u128(customs.id());
    assert_eq!(id.get_version_num(), 4);
    assert_eq!(id.get_variant(), uuid::Variant::RFC4122);
    let inspector = Inspector::new("Ivan", "Inspector", "Leutenant");
    assert_eq!(uuid::Uuid::from_u128(inspector.id()).get_version_num(), 4);
}

#[test]
fn office_pool_can_be_replaced_by_a_keyed_map() {
    let mut customs = Customs::load(1, "Moscow", &Location::default());
    let first = filled("Steve").validate().unwrap();
    let second = filled("Jane").validate().unwrap();
    let mut map = std::collections::HashMap::new();
    map.insert(first.id(), first.clone());
    map.insert(second.id(), second.clone());
    assert!(Pool::fits(&map));
    customs.set_declarations(Pool::from_map(map.clone()).unwrap());
    assert_eq!(customs.declarations_ref(), &map);
    assert_eq!(customs.get_declaration(&first.id()), Some(DeclarationGeneric::Pending(first)));

    let mut wrong = std::collections::HashMap::new();
    wrong.insert(second.id().wrapping_add(1), second);
    assert!(!Pool::fits(&wrong));
    assert!(Pool::from_map(wrong).is_none());
    assert!(Pool::<Pending>::fits(&std::collections::HashMap::new()));
}

#[test]
fn pool_keeps_each_declaration_under_its_own_identifier() {
    let mut pool = Pool::new();
    let mut draft = filled("Steve");
    let first = draft.validate().unwrap();
    draft.set_receiver_name("Jane");
    let second = draft.validate().unwrap();
    let other = filled("Test").validate().unwrap();
    assert_eq!(pool.upsert(first.clone()), None);
    assert_eq!(pool.upsert(other.clone()), None);
    assert_eq!(pool.upsert(second.clone()), Some(first));
    assert_eq!(pool.as_map().len(), 2);
    for (key, kept) in pool.as_map() {
        assert_eq!(*key, kept.id());
    }
    assert_eq!(pool.get(&draft.id()), Some(&second));
    assert_eq!(pool.clone(), pool);
    assert_eq!(pool.remove(&draft.id()), Some(second));
    assert_eq!(pool.remove(&draft.id()), None);
    assert_eq!(pool.get(&draft.id()), None);
    assert_eq!(pool.get(&other.id()), Some(&other));
}
