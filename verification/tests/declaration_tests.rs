use customs_workflow::errors::declaration::DeclarationError;
use customs_workflow::models::declaration::{
    Approved, Billing, Declaration, DeclarationGeneric, Draft, GenericDowncast, Inspecting,
    Pending, Rejected, Stage, Tax,
};
use customs_workflow::models::misc::timestamp::Timestamp;

fn parse(text: &str) -> u128 {
    uuid::Uuid::parse_str(text).unwrap().as_u128()
}

fn sample() -> Declaration<Draft> {
    let mut d = Declaration::<Draft>::default();
    d.set_id(parse("f6d4f3c4-2b1c-4c27-8e75-7f8b9c9b9a9e"));
    d.set_product_name("product name");
    d.set_product_code("product code");
    d.set_product_price(1);
    d.set_product_quantity(2);
    d.set_product_weight(3);
    d.set_product_description("product description");
    d.set_transport_type("transport type");
    d.set_transport_name("transport name");
    d.set_sender_name("sender name");
    d.set_receiver_name("receiver name");
    d.set_destination("destination");
    d.set_departure("departure");
    d
}

#[test]
fn test_getters() {
    let d = sample();

    assert_eq!(d.product_name_ref(), "product name");
    assert_eq!(d.product_code_ref(), "product code");
    assert_eq!(d.product_price(), 1);
    assert_eq!(d.product_quantity(), 2);
    assert_eq!(d.product_weight(), 3);
    assert_eq!(d.product_description_ref(), "product description");
    assert_eq!(d.transport_type_ref(), "transport type");
    assert_eq!(d.transport_name_ref(), "transport name");
    assert_eq!(d.sender_name_ref(), "sender name");
    assert_eq!(d.receiver_name_ref(), "receiver name");
    assert_eq!(d.destination_ref(), "destination");
    assert_eq!(d.departure_ref(), "departure");
}

#[test]
fn validate() {
    let mut d = sample();
    let t = Timestamp { secs: 1_700_000_000, nanos: 5 };
    d.set_created_at(t);
    d.set_updated_at(t);

    let d_validated = d.validate();
    assert!(d_validated.is_ok());
    let p = d_validated.unwrap();
    assert_eq!(p.id(), parse("f6d4f3c4-2b1c-4c27-8e75-7f8b9c9b9a9e"));
    assert_eq!(p.signed_by(), d.signed_by());
    assert_eq!(p.inspected_by(), None);
    assert_eq!(p.fields(), d.fields());
    assert_eq!(p.created_at(), t);
    assert_eq!(p.updated_at(), t);
}

#[test]
fn new_draft_is_blank_and_not_filled() {
    let d = Declaration::new();
    assert_eq!(d.product_name_ref(), "");
    assert_eq!(d.product_price(), 0);
    assert_eq!(d.created_at(), Timestamp { secs: 0, nanos: 0 });
    assert!(!d.is_filled());
    let other = Declaration::new();
    assert_ne!(d.id(), other.id());
}

#[test]
fn default_draft_has_identifier_zero() {
    let d = Declaration::<Draft>::default();
    assert_eq!(d.id(), 0);
    assert_eq!(d.signed_by(), 0);
    assert_eq!(d.inspected_by(), None);
}

#[test]
fn validate_refuses_each_missing_field() {
    let id = parse("f6d4f3c4-2b1c-4c27-8e75-7f8b9c9b9a9e");
    let blankers: Vec<fn(&mut Declaration<Draft>)> = vec![
        |d| d.set_product_name(""),
        |d| d.set_product_code(""),
        |d| d.set_product_description(""),
        |d| d.set_transport_type(""),
        |d| d.set_transport_name(""),
        |d| d.set_sender_name(""),
        |d| d.set_receiver_name(""),
        |d| d.set_destination(""),
        |d| d.set_departure(""),
        |d| d.set_product_price(0),
        |d| d.set_product_weight(0),
        |d| d.set_product_quantity(0),
    ];
    assert!(sample().is_filled());
    for blank in blankers {
        let mut d = sample();
        blank(&mut d);
        assert!(!d.is_filled());
        match d.validate() {
            Err(DeclarationError::DeclarationNotComplete(refused)) => assert_eq!(refused, id),
            other => panic!("expected a refusal, got {:?}", other),
        }
    }
}

#[test]
fn negative_quantity_counts_as_filled() {
    let mut d = sample();
    d.set_product_quantity(-4);
    assert!(d.is_filled());
    assert!(d.validate().is_ok());
}

#[test]
fn fields_come_in_comparison_order() {
    let d = sample();
    let (texts, amounts, counts) = d.fields();
    assert_eq!(
        texts,
        [
            "product name".to_string(),
            "product code".to_string(),
            "product description".to_string(),
            "transport type".to_string(),
            "transport name".to_string(),
            "sender name".to_string(),
            "receiver name".to_string(),
            "destination".to_string(),
            "departure".to_string(),
        ]
    );
    assert_eq!(amounts, [1, 3]);
    assert_eq!(counts, [2]);
}

#[test]
fn transitions_keep_every_field() {
    let d = sample();
    let pending = d.validate().unwrap();
    let inspecting: Declaration<Inspecting> = pending.clone().into();
    assert_eq!(inspecting.fields(), d.fields());
    assert_eq!(inspecting.id(), d.id());
    let back: Declaration<Pending> = inspecting.clone().into();
    assert_eq!(back, pending);
    let approved: Declaration<Approved> = inspecting.clone().into();
    assert_eq!(approved.fields(), d.fields());
    let rejected: Declaration<Rejected> = inspecting.into();
    assert_eq!(rejected.fields(), d.fields());
    assert_eq!(rejected.id(), d.id());
}

#[test]
fn downcast_answers_only_for_the_own_state() {
    let draft = sample();
    let pending = draft.validate().unwrap();
    let inspecting: Declaration<Inspecting> = pending.clone().into();
    let approved: Declaration<Approved> = inspecting.clone().into();
    let rejected: Declaration<Rejected> = inspecting.clone().into();
    let all = vec![
        DeclarationGeneric::Draft(draft),
        DeclarationGeneric::Pending(pending),
        DeclarationGeneric::Inspecting(inspecting),
        DeclarationGeneric::Approved(approved),
        DeclarationGeneric::Rejected(rejected),
    ];
    let stages =
        [Stage::Draft, Stage::Pending, Stage::Inspecting, Stage::Approved, Stage::Rejected];
    for (g, stage) in all.iter().zip(stages.iter()) {
        assert_eq!(g.current_stage(), *stage);
        let as_draft: Option<&Declaration<Draft>> = g.downcast();
        let as_pending: Option<&Declaration<Pending>> = g.downcast();
        let as_inspecting: Option<&Declaration<Inspecting>> = g.downcast();
        let as_approved: Option<&Declaration<Approved>> = g.downcast();
        let as_rejected: Option<&Declaration<Rejected>> = g.downcast();
        assert_eq!(as_draft.is_some(), *stage == Stage::Draft);
        assert_eq!(as_pending.is_some(), *stage == Stage::Pending);
        assert_eq!(as_inspecting.is_some(), *stage == Stage::Inspecting);
        assert_eq!(as_approved.is_some(), *stage == Stage::Approved);
        assert_eq!(as_rejected.is_some(), *stage == Stage::Rejected);
    }
}

#[test]
fn default_generic_is_a_blank_draft() {
    let g = DeclarationGeneric::default();
    assert_eq!(g, DeclarationGeneric::Draft(Declaration::<Draft>::default()));
    assert_eq!(g.id(), 0);
}

#[test]
fn stage_names() {
    assert_eq!(Stage::Draft.name(), "draft");
    assert_eq!(Stage::Pending.name(), "pending");
    assert_eq!(Stage::Inspecting.name(), "inspecting");
    assert_eq!(Stage::Approved.name(), "approved");
    assert_eq!(Stage::Rejected.name(), "rejected");
    assert_eq!(Stage::from_name("approved"), Some(Stage::Approved));
    assert_eq!(Stage::from_name("Approved"), None);
    assert_eq!(Stage::from_name(""), None);
}

fn is_random_kind(id: u128) -> bool {
    let by_bits = id & 0x0000_0000_0000_f000_c000_0000_0000_0000
        == 0x0000_0000_0000_4000_8000_0000_0000_0000;
    let u = uuid::Uuid::from_u128(id);
    let by_crate = u.get_version_num() == 4 && u.get_variant() == uuid::Variant::RFC4122;
    assert_eq!(by_bits, by_crate);
    by_bits
}

#[test]
fn new_assessment_has_four_random_identifiers() {
    for _ in 0..50 {
        let tax = Tax::new();
        assert!(is_random_kind(tax.id()));
        assert!(is_random_kind(tax.declaration_id()));
        assert!(is_random_kind(tax.inspector_id()));
        assert!(is_random_kind(tax.receiver_id()));
        assert_eq!(tax.incorrect_fields(), 0);
        assert_eq!(tax.price(), 0);
    }
    assert!(!is_random_kind(0));
    assert!(!is_random_kind(u128::MAX));
}

#[test]
fn new_billing_is_blank_under_a_random_identifier() {
    for _ in 0..50 {
        let billing = Billing::new();
        assert!(is_random_kind(billing.id()));
        assert_eq!(billing.declaration_id(), 0);
        assert_eq!(billing.sender_id(), 0);
        assert_eq!(billing.receiver_id(), 0);
        assert_eq!(billing.created_at(), Timestamp { secs: 0, nanos: 0 });
        assert_eq!(billing.price(), 0);
    }
    assert_ne!(Billing::new(), Billing::default());
}
