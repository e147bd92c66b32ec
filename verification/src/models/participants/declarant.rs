//! The declarant: writes declarations and sends them off.
use vstd::prelude::*;
use std::collections::HashMap;
use crate::ambient::{fresh_id, is_random_id};
use crate::errors::declaration::DeclarationError;
use crate::errors::AnyError;
use crate::models::declaration::{
    shelf, Declaration, DeclarationGeneric, GenericView, Pending, Stage,
};
use crate::models::misc::location::{Location, LocationView};
use crate::models::participants::Participant;
use crate::models::processor::{Logic as ProcessorLogic, Processor};

verus! {

broadcast use vstd::std_specs::hash::group_hash_axioms;

/// What a declarant is and keeps.
pub ghost struct DeclarantView {
    pub id: u128,
    pub name: Seq<char>,
    pub location: Option<LocationView>,
    pub declarations: Map<u128, GenericView>,
}

/// One who declares goods.
#[derive(PartialEq, Debug)]
pub struct Declarant {
    id: u128,
    name: String,
    location: Option<Location>,
    declarations: HashMap<u128, DeclarationGeneric>,
}

impl View for Declarant {
    type V = DeclarantView;

    closed spec fn view(&self) -> DeclarantView {
        DeclarantView {
            id: self.id,
            name: self.name@,
            location: match self.location {
                Some(l) => Some(l@),
                None => None,
            },
            declarations: shelf(self.declarations@),
        }
    }
}

impl Default for Declarant {
    /// Nobody: identifier zero, no name, nothing kept.
    fn default() -> (r: Self)
        ensures
            r@ == (DeclarantView {
                id: 0,
                name: Seq::empty(),
                location: None,
                declarations: Map::empty(),
            }),
    {
        let r = Declarant {
            id: 0,
            name: String::new(),
            location: None,
            declarations: HashMap::new(),
        };
        assert(shelf(r.declarations@) =~= Map::empty());
        r
    }
}

impl Clone for Declarant {
    fn clone(&self) -> (r: Self)
        ensures
            r@ == self@,
    {
        Declarant {
            id: self.id,
            name: self.name.clone(),
            location: self.location.clone(),
            declarations: self.declarations.clone(),
        }
    }
}

impl Declarant {
    /// A declarant who keeps nothing yet, under a fresh random identifier.
    pub fn new(name: &str) -> (r: Self)
        ensures
            is_random_id(r@.id),
            r@ == (DeclarantView {
                id: r@.id,
                name: name@,
                location: None,
                declarations: Map::empty(),
            }),
    {
        Self::load(fresh_id(), name)
    }

    /// A declarant who keeps nothing yet, under a given identifier.
    pub fn load(id: u128, name: &str) -> (r: Self)
        ensures
            r@ == (DeclarantView { id, name: name@, location: None, declarations: Map::empty() }),
    {
        let r = Declarant {
            id,
            name: name.to_owned(),
            location: None,
            declarations: HashMap::new(),
        };
        assert(shelf(r.declarations@) =~= Map::empty());
        r
    }

    pub fn id(&self) -> (r: u128)
        ensures
            r == self@.id,
    {
        self.id
    }

    pub fn name_ref(&self) -> (r: &str)
        ensures
            r@ == self@.name,
    {
        self.name.as_str()
    }

    pub fn location_ref(&self) -> (r: &Option<Location>)
        ensures
            match *r {
                Some(l) => self@.location == Some(l@),
                None => self@.location is None,
            },
    {
        &self.location
    }

    /// What the declarant keeps.
    pub fn declarations_ref(&self) -> (r: &HashMap<u128, DeclarationGeneric>)
        ensures
            shelf(r@) == self@.declarations,
    {
        &self.declarations
    }

    /// What the declarant keeps, to change in place.
    pub fn declarations_mut(&mut self) -> (r: &mut HashMap<u128, DeclarationGeneric>)
        ensures
            shelf(r@) == old(self)@.declarations,
            final(self)@ == (DeclarantView { declarations: shelf(final(r)@), ..old(self)@ }),
    {
        &mut self.declarations
    }

    pub fn set_id(&mut self, value: u128)
        ensures
            final(self)@ == (DeclarantView { id: value, ..old(self)@ }),
    {
        self.id = value;
    }

    pub fn set_name(&mut self, value: &str)
        ensures
            final(self)@ == (DeclarantView { name: value@, ..old(self)@ }),
    {
        self.name = value.to_owned();
    }

    /// Replaces what the declarant keeps.
    pub fn set_declarations(&mut self, value: HashMap<u128, DeclarationGeneric>)
        ensures
            final(self)@ == (DeclarantView { declarations: shelf(value@), ..old(self)@ }),
    {
        self.declarations = value;
    }
}

impl Participant for Declarant {
    open spec fn archive(&self) -> Map<u128, GenericView> {
        self@.declarations
    }

    fn update_declaration(&mut self, declaration: &DeclarationGeneric) -> (r: Result<
        Option<DeclarationGeneric>,
        AnyError,
    >)
        ensures
            final(self)@ == (DeclarantView {
                declarations: old(self)@.declarations.insert(
                    declaration@.content.id,
                    declaration@,
                ),
                ..old(self)@
            }),
    {
        let previous = self.declarations.insert(declaration.id(), declaration.clone());
        assert(shelf(self.declarations@) =~= shelf(old(self).declarations@).insert(
            declaration@.content.id,
            declaration@,
        ));
        Ok(previous)
    }

    fn get_declaration(&self, id: u128) -> (r: Option<&DeclarationGeneric>) {
        self.declarations.get(&id)
    }

    fn send_docs(&mut self, proc: &mut Processor, id: u128) -> (r: Result<(), AnyError>)
        ensures
            final(self)@ == (DeclarantView {
                declarations: final(self)@.declarations,
                ..old(self)@
            }),
    {
        let declaration = self.declarations.get(&id);
        match declaration {
            None => Err(AnyError::Declaration(DeclarationError::DeclarationNotFound(id))),
            Some(DeclarationGeneric::Draft(decl)) => {
                match decl.validate() {
                    Err(e) => Err(AnyError::Declaration(e)),
                    Ok(decl) => {
                        match proc.process_declaration(&decl) {
                            Err(e) => Err(AnyError::Processor(e)),
                            Ok(_) => {
                                let ghost kept = decl@;
                                self.declarations.insert(
                                    decl.id(),
                                    DeclarationGeneric::Pending(decl),
                                );
                                assert(shelf(self.declarations@) =~= shelf(
                                    old(self).declarations@,
                                ).insert(
                                    kept.id,
                                    GenericView { stage: Stage::Pending, content: kept },
                                ));
                                Ok(())
                            },
                        }
                    },
                }
            },
            Some(other) => {
                let state = other.current_stage().name().to_owned();
                Err(AnyError::Declaration(DeclarationError::IncorrectState(id, state)))
            },
        }
    }
}

/// What a declarant does: what every participant does.
pub trait Logic: Participant {}

impl Logic for Declarant {}

} // verus!
