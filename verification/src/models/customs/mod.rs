//! A customs office: its fee schedule, and the declarations that wait in it.
use vstd::prelude::*;
use std::collections::HashMap;
use crate::ambient::{day_time, fresh_id, is_random_id};
use crate::errors::declaration::DeclarationError;
use crate::models::customs::inspector::{Inspector, InspectorView};
use crate::models::customs::operator::Operator;
use crate::models::declaration::{
    contents, keyed, Declaration, DeclarationGeneric, DeclarationView, Pending, Pool, Stage,
};
use crate::models::misc::location::{Location, LocationView};
use crate::models::misc::timestamp::DayTime;
use crate::utils::HasId;
pub use self::fee::{Fee, FeeView};

pub mod fee;
pub mod inspector;
pub mod operator;

verus! {

broadcast use vstd::std_specs::hash::group_hash_axioms;

/// What the rules of an office say.
pub ghost struct CustomsParamsView {
    pub fee: FeeView,
    pub banned_import_products: Seq<String>,
    pub banned_export_products: Seq<String>,
    pub banned_import_origin: Seq<String>,
    pub banned_export_origin: Seq<String>,
}

/// The rules of one office: what a wrong field costs, and what may not pass.
#[derive(Debug, PartialEq)]
pub struct CustomsParams {
    pub fee: Fee,
    pub banned_import_products: Vec<String>,
    pub banned_export_products: Vec<String>,
    pub banned_import_origin: Vec<String>,
    pub banned_export_origin: Vec<String>,
}

impl View for CustomsParams {
    type V = CustomsParamsView;

    open spec fn view(&self) -> CustomsParamsView {
        CustomsParamsView {
            fee: self.fee@,
            banned_import_products: self.banned_import_products@,
            banned_export_products: self.banned_export_products@,
            banned_import_origin: self.banned_import_origin@,
            banned_export_origin: self.banned_export_origin@,
        }
    }
}

impl CustomsParamsView {
    /// No fee, nothing banned.
    pub open spec fn lenient() -> CustomsParamsView {
        CustomsParamsView {
            fee: FeeView::Flat(0),
            banned_import_products: Seq::empty(),
            banned_export_products: Seq::empty(),
            banned_import_origin: Seq::empty(),
            banned_export_origin: Seq::empty(),
        }
    }
}

impl Clone for CustomsParams {
    fn clone(&self) -> (r: Self)
        ensures
            r@ == self@,
    {
        let r = CustomsParams {
            fee: self.fee.clone(),
            banned_import_products: self.banned_import_products.clone(),
            banned_export_products: self.banned_export_products.clone(),
            banned_import_origin: self.banned_import_origin.clone(),
            banned_export_origin: self.banned_export_origin.clone(),
        };
        assert(r.banned_import_products@ =~= self.banned_import_products@);
        assert(r.banned_export_products@ =~= self.banned_export_products@);
        assert(r.banned_import_origin@ =~= self.banned_import_origin@);
        assert(r.banned_export_origin@ =~= self.banned_export_origin@);
        r
    }
}

impl Default for CustomsParams {
    /// No fee, nothing banned.
    fn default() -> (r: Self)
        ensures
            r@ == CustomsParamsView::lenient(),
    {
        CustomsParams {
            fee: Fee::Flat(0),
            banned_import_products: Vec::new(),
            banned_export_products: Vec::new(),
            banned_import_origin: Vec::new(),
            banned_export_origin: Vec::new(),
        }
    }
}

/// What an optional text says.
pub open spec fn text_of(o: Option<String>) -> Option<Seq<char>> {
    match o {
        Some(s) => Some(s@),
        None => None,
    }
}

/// What a group of inspectors is and holds, by identifier.
pub open spec fn staff(inspectors: Map<u128, Inspector>) -> Map<u128, InspectorView> {
    inspectors.map_values(|i: Inspector| i@)
}

/// What a customs office is and holds.
pub ghost struct CustomsView {
    pub id: u128,
    pub work_hours: Option<(DayTime, DayTime)>,
    pub name: Option<Seq<char>>,
    pub location: Option<LocationView>,
    pub competence: Option<Seq<char>>,
    pub phone_number: Option<Seq<char>>,
    pub email: Option<Seq<char>>,
    /// The pending declarations that wait here for inspection, by
    /// identifier.
    pub declarations: Map<u128, DeclarationView>,
    pub inspectors: Map<u128, InspectorView>,
    pub operators: Map<u128, Operator>,
    pub customs_params: CustomsParamsView,
}

/// A customs office.
#[derive(Debug, PartialEq)]
pub struct Customs {
    id: u128,
    work_hours: Option<(DayTime, DayTime)>,
    name: Option<String>,
    location: Option<Location>,
    competence: Option<String>,
    phone_number: Option<String>,
    email: Option<String>,
    declarations: Pool<Pending>,
    inspectors: HashMap<u128, Inspector>,
    operators: HashMap<u128, Operator>,
    customs_params: CustomsParams,
}

impl View for Customs {
    type V = CustomsView;

    closed spec fn view(&self) -> CustomsView {
        CustomsView {
            id: self.id,
            work_hours: self.work_hours,
            name: text_of(self.name),
            location: match self.location {
                Some(l) => Some(l@),
                None => None,
            },
            competence: text_of(self.competence),
            phone_number: text_of(self.phone_number),
            email: text_of(self.email),
            declarations: self.declarations@,
            inspectors: staff(self.inspectors@),
            operators: self.operators@,
            customs_params: self.customs_params@,
        }
    }
}

impl Customs {
    /// What a newly opened office with this identifier, name and location
    /// is: open from 9:00 to 20:00, with no declaration, no staff, no fee
    /// and nothing banned.
    pub open spec fn opened(v: CustomsView, id: u128, name: Seq<char>, location: LocationView) -> bool {
        &&& v.id == id
        &&& v.work_hours == Some(
            (DayTime { secs: 32400, frac: 0 }, DayTime { secs: 72000, frac: 0 }),
        )
        &&& v.name == Some(name)
        &&& v.location == Some(location)
        &&& v.competence is None
        &&& v.phone_number is None
        &&& v.email is None
        &&& v.declarations == Map::<u128, DeclarationView>::empty()
        &&& v.inspectors == Map::<u128, InspectorView>::empty()
        &&& v.operators == Map::<u128, Operator>::empty()
        &&& v.customs_params == CustomsParamsView::lenient()
    }

    /// A newly opened office under a fresh random identifier.
    pub fn new(name: &str, location: &Location) -> (r: Customs)
        ensures
            is_random_id(r@.id),
            Customs::opened(r@, r@.id, name@, location@),
    {
        Self::load(fresh_id(), name, location)
    }

    /// A newly opened office under a given identifier.
    pub fn load(id: u128, name: &str, location: &Location) -> (r: Customs)
        ensures
            Customs::opened(r@, id, name@, location@),
    {
        let r = Customs {
            id,
            work_hours: Some((day_time(9, 0, 0).unwrap(), day_time(20, 0, 0).unwrap())),
            name: Some(name.to_owned()),
            location: Some(location.clone()),
            competence: None,
            phone_number: None,
            email: None,
            declarations: Pool::new(),
            inspectors: HashMap::new(),
            operators: HashMap::new(),
            customs_params: CustomsParams::default(),
        };
        assert(staff(r.inspectors@) =~= Map::empty());
        r
    }
}

impl Default for Customs {
    /// An office of which nothing is known: identifier zero, no hours, no
    /// name, no declaration, no staff, no fee and nothing banned.
    fn default() -> (r: Self)
        ensures
            r@ == (CustomsView {
                id: 0,
                work_hours: None,
                name: None,
                location: None,
                competence: None,
                phone_number: None,
                email: None,
                declarations: Map::empty(),
                inspectors: Map::empty(),
                operators: Map::empty(),
                customs_params: CustomsParamsView::lenient(),
            }),
    {
        let r = Customs {
            id: 0,
            work_hours: None,
            name: None,
            location: None,
            competence: None,
            phone_number: None,
            email: None,
            declarations: Pool::new(),
            inspectors: HashMap::new(),
            operators: HashMap::new(),
            customs_params: CustomsParams::default(),
        };
        assert(staff(r.inspectors@) =~= Map::empty());
        r
    }
}

impl Clone for Customs {
    fn clone(&self) -> (r: Self)
        ensures
            r@ == self@,
    {
        Customs {
            id: self.id,
            work_hours: self.work_hours,
            name: self.name.clone(),
            location: self.location.clone(),
            competence: self.competence.clone(),
            phone_number: self.phone_number.clone(),
            email: self.email.clone(),
            declarations: self.declarations.clone(),
            inspectors: self.inspectors.clone(),
            operators: self.operators.clone(),
            customs_params: self.customs_params.clone(),
        }
    }
}

impl CustomsView {
    /// The office after one of its inspectors has taken up the pending
    /// declaration with this identifier: the declaration has left the pool
    /// and entered the inspector's.
    pub open spec fn handed_over(self, inspector: u128, id: u128) -> CustomsView {
        CustomsView {
            declarations: self.declarations.remove(id),
            inspectors: self.inspectors.insert(
                inspector,
                self.inspectors[inspector].fetched(self.declarations[id]),
            ),
            ..self
        }
    }
}

/// After an inspector of an office has taken up a declaration that waited
/// there, the declaration waits there no longer, that inspector has it
/// under review, stamped with the inspector's identifier, and no other
/// inspector of the office has.
///
/// This holds of every office, whose pool keeps each declaration under its
/// own identifier, where no inspector of the office had a declaration with
/// that identifier under review.
pub proof fn fetch_moves_once(office: CustomsView, inspector: u128, id: u128)
    requires
        keyed(office.declarations),
        office.declarations.contains_key(id),
        office.inspectors.contains_key(inspector),
        forall|j: u128|
            office.inspectors.contains_key(j) ==> !(#[trigger] office.inspectors[j]).declarations.contains_key(
                id,
            ),
    ensures
        !office.handed_over(inspector, id).declarations.contains_key(id),
        forall|j: u128|
            office.handed_over(inspector, id).inspectors.contains_key(j) ==> ((
            #[trigger] office.handed_over(
                inspector,
                id,
            ).inspectors[j]).declarations.contains_key(id) <==> j == inspector),
        office.handed_over(inspector, id).inspectors[inspector].declarations[id] == (
        DeclarationView {
            inspected_by: Some(office.inspectors[inspector].id),
            ..office.declarations[id]
        }),
{
    let after = office.handed_over(inspector, id);
    assert forall|j: u128| after.inspectors.contains_key(j) implies ((
    #[trigger] after.inspectors[j]).declarations.contains_key(id) <==> j == inspector) by {
        if j != inspector {
            assert(office.inspectors.contains_key(j));
            assert(after.inspectors[j] == office.inspectors[j]);
        }
    }
}

/// What an office does with the declarations that wait in it.
pub trait Logic: View<V = CustomsView> {
    /// Puts a pending declaration into the pool under its identifier, and
    /// gives back the one it replaced, if there was one. This never fails.
    fn update_decl(&mut self, decl: Declaration<Pending>) -> (r: Result<
        Option<Declaration<Pending>>,
        DeclarationError,
    >)
        ensures
            final(self)@ == (CustomsView {
                declarations: old(self)@.declarations.insert(decl@.id, decl@),
                ..old(self)@
            }),
            r is Ok,
            r->Ok_0 is Some <==> old(self)@.declarations.contains_key(decl@.id),
            r->Ok_0 is Some ==> r->Ok_0->0@ == old(self)@.declarations[decl@.id],
    ;

    /// A copy of the pending declaration with this identifier, if one waits
    /// here.
    fn get_declaration(&self, id: &u128) -> (r: Option<DeclarationGeneric>)
        ensures
            r is Some <==> self@.declarations.contains_key(*id),
            r is Some ==> r->0.stage() == Stage::Pending && r->0.content()
                == self@.declarations[*id] && r->0.content().id == *id,
    ;

    /// Takes the pending declaration with this identifier out of the pool.
    fn remove_declaration(&mut self, id: &u128) -> (r: Option<Declaration<Pending>>)
        ensures
            final(self)@ == (CustomsView {
                declarations: old(self)@.declarations.remove(*id),
                ..old(self)@
            }),
            r is Some <==> old(self)@.declarations.contains_key(*id),
            r is Some ==> r->0@ == old(self)@.declarations[*id] && r->0@.id == *id,
    ;
}

impl Logic for Customs {
    fn update_decl(&mut self, decl: Declaration<Pending>) -> (r: Result<
        Option<Declaration<Pending>>,
        DeclarationError,
    >) {
        Ok(self.declarations.upsert(decl))
    }

    fn get_declaration(&self, id: &u128) -> (r: Option<DeclarationGeneric>) {
        if let Some(decl) = self.declarations.get(id) {
            Some(DeclarationGeneric::Pending(decl.clone()))
        } else {
            None
        }
    }

    fn remove_declaration(&mut self, id: &u128) -> (r: Option<Declaration<Pending>>) {
        self.declarations.remove(id)
    }
}

impl HasId for Customs {
    open spec fn spec_id(&self) -> u128 {
        self@.id
    }

    open spec fn same_but_id(&self, other: &Self) -> bool {
        self@ == (CustomsView { id: self@.id, ..other@ })
    }

    fn id(&mut self) -> (r: &mut u128) {
        &mut self.id
    }
}

impl Customs {
    pub fn id(&self) -> (r: u128)
        ensures
            r == self@.id,
    {
        self.id
    }

    pub fn work_hours(&self) -> (r: Option<(DayTime, DayTime)>)
        ensures
            r == self@.work_hours,
    {
        self.work_hours
    }

    pub fn name_ref(&self) -> (r: &Option<String>)
        ensures
            text_of(*r) == self@.name,
    {
        &self.name
    }

    pub fn location_ref(&self) -> (r: &Option<Location>)
        ensures
            match *r {
                Some(l) => self@.location == Some(l@),
                None => self@.location is None,
            },
    {
        &self.location
    }

    pub fn competence_ref(&self) -> (r: &Option<String>)
        ensures
            text_of(*r) == self@.competence,
    {
        &self.competence
    }

    pub fn phone_number_ref(&self) -> (r: &Option<String>)
        ensures
            text_of(*r) == self@.phone_number,
    {
        &self.phone_number
    }

    pub fn email_ref(&self) -> (r: &Option<String>)
        ensures
            text_of(*r) == self@.email,
    {
        &self.email
    }

    /// The pending declarations that wait here, each under its own
    /// identifier.
    pub fn declarations_ref(&self) -> (r: &HashMap<u128, Declaration<Pending>>)
        ensures
            contents(r@) == self@.declarations,
            keyed(self@.declarations),
    {
        self.declarations.as_map()
    }

    pub fn inspectors_ref(&self) -> (r: &HashMap<u128, Inspector>)
        ensures
            staff(r@) == self@.inspectors,
    {
        &self.inspectors
    }

    pub fn operators_ref(&self) -> (r: &HashMap<u128, Operator>)
        ensures
            r@ == self@.operators,
    {
        &self.operators
    }

    /// The rules of the office, its fee schedule among them.
    pub fn customs_params_ref(&self) -> (r: &CustomsParams)
        ensures
            r@ == self@.customs_params,
    {
        &self.customs_params
    }

    /// The inspectors, to change in place.
    pub fn inspectors_mut(&mut self) -> (r: &mut HashMap<u128, Inspector>)
        ensures
            staff(r@) == old(self)@.inspectors,
            final(self)@ == (CustomsView { inspectors: staff(final(r)@), ..old(self)@ }),
    {
        &mut self.inspectors
    }

    /// The operators, to change in place.
    pub fn operators_mut(&mut self) -> (r: &mut HashMap<u128, Operator>)
        ensures
            r@ == old(self)@.operators,
            final(self)@ == (CustomsView { operators: final(r)@, ..old(self)@ }),
    {
        &mut self.operators
    }

    pub fn set_id(&mut self, value: u128)
        ensures
            final(self)@ == (CustomsView { id: value, ..old(self)@ }),
    {
        self.id = value;
    }

    pub fn set_name(&mut self, value: Option<String>)
        ensures
            final(self)@ == (CustomsView { name: text_of(value), ..old(self)@ }),
    {
        self.name = value;
    }

    pub fn set_competence(&mut self, value: Option<String>)
        ensures
            final(self)@ == (CustomsView { competence: text_of(value), ..old(self)@ }),
    {
        self.competence = value;
    }

    pub fn set_phone_number(&mut self, value: Option<String>)
        ensures
            final(self)@ == (CustomsView { phone_number: text_of(value), ..old(self)@ }),
    {
        self.phone_number = value;
    }

    pub fn set_email(&mut self, value: Option<String>)
        ensures
            final(self)@ == (CustomsView { email: text_of(value), ..old(self)@ }),
    {
        self.email = value;
    }

    /// Replaces the pending pool.
    pub fn set_declarations(&mut self, value: Pool<Pending>)
        ensures
            final(self)@ == (CustomsView { declarations: value@, ..old(self)@ }),
    {
        self.declarations = value;
    }

    /// Replaces the inspectors.
    pub fn set_inspectors(&mut self, value: HashMap<u128, Inspector>)
        ensures
            final(self)@ == (CustomsView { inspectors: staff(value@), ..old(self)@ }),
    {
        self.inspectors = value;
    }

    /// Replaces the operators.
    pub fn set_operators(&mut self, value: HashMap<u128, Operator>)
        ensures
            final(self)@ == (CustomsView { operators: value@, ..old(self)@ }),
    {
        self.operators = value;
    }

    /// Replaces the rules of the office.
    pub fn set_customs_params(&mut self, value: CustomsParams)
        ensures
            final(self)@ == (CustomsView { customs_params: value@, ..old(self)@ }),
    {
        self.customs_params = value;
    }
}

} // verus!
