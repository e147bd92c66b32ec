//! Records: entities as a store of records holds them, in plain values, and
//! the way from a declaration to its record and back.
use vstd::prelude::*;
use crate::ambient::{id_text, parse_id, uuid_parsed, uuid_text};
use crate::errors::declaration::DeclarationError;
use crate::errors::AnyError;
use crate::models::declaration::{
    copy, Approved, Declaration, DeclarationGeneric, DeclarationView, Draft, GenericView,
    Inspecting, Pending, Rejected, Stage, stage_named, stage_named_own_label,
};
use crate::models::misc::timestamp::Timestamp;
use crate::models::participants::declarant::Declarant;
use crate::utils::keys_of;

verus! {

/// A pointer to a record: the table it is in, and its identifier as text.
#[derive(Clone, Eq, PartialEq, PartialOrd, Ord, Debug, Hash)]
pub struct SurrealThing {
    pub tb: String,
    pub id: String,
}

/// The record of a declarant: the name, a pointer to the location, and the
/// identifiers of the declarations kept.
#[derive(Clone, Eq, PartialEq, PartialOrd, Ord, Debug, Hash)]
pub struct SurrealDeclarant {
    pub name: String,
    pub location: SurrealThing,
    pub declarations: Vec<u128>,
}

impl SurrealDeclarant {
    /// The record of a declarant. The pointer is to the declarant's
    /// location in the table of locations, or to identifier zero there where
    /// no location is set. The identifiers of the declarations come each
    /// once, in no particular order.
    pub fn record(value: &Declarant) -> (r: SurrealDeclarant)
        ensures
            r.name@ == value@.name,
            r.location.tb@ == "location"@,
            r.location.id@ == uuid_text(
                match value@.location {
                    Some(l) => l.id,
                    None => 0,
                },
            ),
            r.declarations@.no_duplicates(),
            r.declarations@.to_set() == value@.declarations.dom(),
    {
        let id: u128 = match value.location_ref() {
            None => 0,
            Some(location) => location.id(),
        };
        let kept = value.declarations_ref();
        let keys = keys_of(kept);
        assert(value@.declarations.dom() =~= kept@.dom());
        SurrealDeclarant {
            name: value.name_ref().to_owned(),
            location: SurrealThing { tb: "location".to_owned(), id: id_text(id) },
            declarations: keys,
        }
    }
}

/// The record of a location.
#[derive(Clone, Default, Eq, PartialEq, PartialOrd, Ord, Debug, Hash)]
pub struct SurrealLocation {
    pub country: String,
    pub region: String,
    pub city: String,
    pub timezone: Timestamp,
}

/// What the record of a declaration says.
pub ghost struct RecordView {
    pub signed_by: Seq<char>,
    pub inspected_by: Option<Seq<char>>,
    pub product_name: Seq<char>,
    pub product_code: Seq<char>,
    pub product_price: u64,
    pub product_quantity: i64,
    pub product_weight: u64,
    pub product_description: Seq<char>,
    pub transport_type: Seq<char>,
    pub transport_name: Seq<char>,
    pub sender_name: Seq<char>,
    pub receiver_name: Seq<char>,
    pub destination: Seq<char>,
    pub departure: Seq<char>,
    pub state: Seq<char>,
    pub created_at: Timestamp,
    pub updated_at: Timestamp,
}

/// The record of a declaration: every field but the identifier, under which
/// the store keeps the record. Signer and inspector are written as texts,
/// the state as its name.
#[derive(Clone, PartialEq, PartialOrd, Debug)]
pub struct SurrealDeclaration {
    pub signed_by: String,
    pub inspected_by: Option<String>,
    pub product_name: String,
    pub product_code: String,
    pub product_price: u64,
    pub product_quantity: i64,
    pub product_weight: u64,
    pub product_description: String,
    pub transport_type: String,
    pub transport_name: String,
    pub sender_name: String,
    pub receiver_name: String,
    pub destination: String,
    pub departure: String,
    pub state: String,
    pub created_at: Timestamp,
    pub updated_at: Timestamp,
}

impl View for SurrealDeclaration {
    type V = RecordView;

    open spec fn view(&self) -> RecordView {
        RecordView {
            signed_by: self.signed_by@,
            inspected_by: match self.inspected_by {
                Some(s) => Some(s@),
                None => None,
            },
            product_name: self.product_name@,
            product_code: self.product_code@,
            product_price: self.product_price,
            product_quantity: self.product_quantity,
            product_weight: self.product_weight,
            product_description: self.product_description@,
            transport_type: self.transport_type@,
            transport_name: self.transport_name@,
            sender_name: self.sender_name@,
            receiver_name: self.receiver_name@,
            destination: self.destination@,
            departure: self.departure@,
            state: self.state@,
            created_at: self.created_at,
            updated_at: self.updated_at,
        }
    }
}

impl RecordView {
    /// The record of a declaration.
    pub open spec fn of(g: GenericView) -> RecordView {
        RecordView {
            signed_by: uuid_text(g.content.signed_by),
            inspected_by: match g.content.inspected_by {
                Some(i) => Some(uuid_text(i)),
                None => None,
            },
            product_name: g.content.product_name,
            product_code: g.content.product_code,
            product_price: g.content.product_price,
            product_quantity: g.content.product_quantity,
            product_weight: g.content.product_weight,
            product_description: g.content.product_description,
            transport_type: g.content.transport_type,
            transport_name: g.content.transport_name,
            sender_name: g.content.sender_name,
            receiver_name: g.content.receiver_name,
            destination: g.content.destination,
            departure: g.content.departure,
            state: g.stage.label(),
            created_at: g.content.created_at,
            updated_at: g.content.updated_at,
        }
    }

    /// Whether the text of the inspector can be read: there is none, or it
    /// is the text of an identifier.
    pub open spec fn inspector_readable(self) -> bool {
        match self.inspected_by {
            Some(text) => uuid_parsed(text) is Some,
            None => true,
        }
    }

    /// Whether a declaration can be read from the record: signer and
    /// inspector are texts of identifiers, and the state is the name of one.
    pub open spec fn readable(self) -> bool {
        &&& uuid_parsed(self.signed_by) is Some
        &&& self.inspector_readable()
        &&& stage_named(self.state) is Some
    }

    /// The declaration that a readable record kept under `id` stands for.
    pub open spec fn declaration(self, id: u128) -> GenericView
        recommends
            self.readable(),
    {
        GenericView {
            stage: stage_named(self.state)->0,
            content: DeclarationView {
                id,
                signed_by: uuid_parsed(self.signed_by)->0,
                inspected_by: match self.inspected_by {
                    Some(text) => Some(uuid_parsed(text)->0),
                    None => None,
                },
                product_name: self.product_name,
                product_code: self.product_code,
                product_price: self.product_price,
                product_quantity: self.product_quantity,
                product_weight: self.product_weight,
                product_description: self.product_description,
                transport_type: self.transport_type,
                transport_name: self.transport_name,
                sender_name: self.sender_name,
                receiver_name: self.receiver_name,
                destination: self.destination,
                departure: self.departure,
                created_at: self.created_at,
                updated_at: self.updated_at,
            },
        }
    }

    /// Whether `e` is the refusal that a record kept under `id` earns, if it
    /// is not readable: the first of a signer that is no identifier, an
    /// inspector that is no identifier, a state of unknown name; each with
    /// the text that was refused.
    pub open spec fn refused_with(self, id: u128, e: AnyError) -> bool {
        if uuid_parsed(self.signed_by) is None {
            e matches AnyError::Declaration(DeclarationError::InvalidField { id: i, field, value })
                && i == id && field@ == "signed_by"@ && value@ == self.signed_by
        } else if !self.inspector_readable() {
            e matches AnyError::Declaration(DeclarationError::InvalidField { id: i, field, value })
                && i == id && field@ == "inspected_by"@ && value@ == self.inspected_by->0
        } else {
            e matches AnyError::Declaration(DeclarationError::IncorrectState(i, state)) && i == id
                && state@ == self.state
        }
    }
}

impl SurrealDeclaration {
    /// The record of a declaration. Read back under the declaration's
    /// identifier, it gives the same declaration in the same state.
    pub fn record(declaration: &DeclarationGeneric) -> (r: SurrealDeclaration)
        ensures
            r@ == RecordView::of(declaration@),
            r@.readable(),
            r@.declaration(declaration@.content.id) == declaration@,
    {
        let stage = declaration.current_stage();
        let r = match declaration {
            DeclarationGeneric::Draft(d) => Self::fields_of(d, stage),
            DeclarationGeneric::Pending(d) => Self::fields_of(d, stage),
            DeclarationGeneric::Inspecting(d) => Self::fields_of(d, stage),
            DeclarationGeneric::Approved(d) => Self::fields_of(d, stage),
            DeclarationGeneric::Rejected(d) => Self::fields_of(d, stage),
        };
        proof {
            stage_named_own_label(stage);
        }
        r
    }

    /// The record of a declaration that is in `stage`.
    fn fields_of<State>(d: &Declaration<State>, stage: Stage) -> (r: SurrealDeclaration)
        ensures
            r@ == RecordView::of(GenericView { stage, content: d@ }),
            uuid_parsed(r@.signed_by) == Some(d@.signed_by),
            match d@.inspected_by {
                Some(i) => r@.inspected_by is Some && uuid_parsed(r@.inspected_by->0) == Some(i),
                None => r@.inspected_by is None,
            },
    {
        SurrealDeclaration {
            signed_by: id_text(d.signed_by()),
            inspected_by: match d.inspected_by() {
                Some(i) => Some(id_text(i)),
                None => None,
            },
            product_name: d.product_name_ref().to_owned(),
            product_code: d.product_code_ref().to_owned(),
            product_price: d.product_price(),
            product_quantity: d.product_quantity(),
            product_weight: d.product_weight(),
            product_description: d.product_description_ref().to_owned(),
            transport_type: d.transport_type_ref().to_owned(),
            transport_name: d.transport_name_ref().to_owned(),
            sender_name: d.sender_name_ref().to_owned(),
            receiver_name: d.receiver_name_ref().to_owned(),
            destination: d.destination_ref().to_owned(),
            departure: d.departure_ref().to_owned(),
            state: stage.name().to_owned(),
            created_at: d.created_at(),
            updated_at: d.updated_at(),
        }
    }
}

impl DeclarationGeneric {
    /// Reads the declaration kept under `id` from its record, in the state
    /// that the record names. A record that is not readable is refused.
    pub fn try_from(id: u128, value: SurrealDeclaration) -> (r: Result<Self, AnyError>)
        ensures
            match r {
                Ok(g) => value@.readable() && g@ == value@.declaration(id),
                Err(e) => !value@.readable() && value@.refused_with(id, e),
            },
    {
        let mut res: Declaration<Draft> = Declaration::<Draft>::default();
        res.set_id(id);
        match parse_id(value.signed_by.as_str()) {
            Ok(signer) => {
                res.set_signed_by(signer);
            },
            Err(_) => {
                return Err(
                    AnyError::Declaration(
                        DeclarationError::InvalidField {
                            id,
                            field: "signed_by".to_owned(),
                            value: value.signed_by,
                        },
                    ),
                );
            },
        }
        match value.inspected_by {
            Some(text) => {
                match parse_id(text.as_str()) {
                    Ok(inspector) => {
                        res.set_inspected_by(Some(inspector));
                    },
                    Err(_) => {
                        return Err(
                            AnyError::Declaration(
                                DeclarationError::InvalidField {
                                    id,
                                    field: "inspected_by".to_owned(),
                                    value: text,
                                },
                            ),
                        );
                    },
                }
            },
            None => {},
        }
        res.set_product_name(value.product_name.as_str());
        res.set_product_code(value.product_code.as_str());
        res.set_product_price(value.product_price);
        res.set_product_quantity(value.product_quantity);
        res.set_product_weight(value.product_weight);
        res.set_product_description(value.product_description.as_str());
        res.set_transport_type(value.transport_type.as_str());
        res.set_transport_name(value.transport_name.as_str());
        res.set_sender_name(value.sender_name.as_str());
        res.set_receiver_name(value.receiver_name.as_str());
        res.set_destination(value.destination.as_str());
        res.set_departure(value.departure.as_str());
        res.set_created_at(value.created_at);
        res.set_updated_at(value.updated_at);

        match Stage::from_name(value.state.as_str()) {
            Some(Stage::Draft) => Ok(DeclarationGeneric::Draft(res)),
            Some(Stage::Pending) => Ok(DeclarationGeneric::Pending(copy(res))),
            Some(Stage::Inspecting) => Ok(DeclarationGeneric::Inspecting(copy(res))),
            Some(Stage::Approved) => Ok(DeclarationGeneric::Approved(copy(res))),
            Some(Stage::Rejected) => Ok(DeclarationGeneric::Rejected(copy(res))),
            None => Err(AnyError::Declaration(DeclarationError::IncorrectState(id, value.state))),
        }
    }
}

} // verus!
