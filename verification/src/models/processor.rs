//! The processor: owns every connected customs office, sends pending
//! declarations to one of them, and finds a declaration among them.
use vstd::prelude::*;
use std::collections::HashMap;
use crate::ambient::random_index;
use crate::errors::processor::ProcessorError;
use crate::models::customs::{Customs, CustomsView, Logic as CustomsLogic};
use crate::models::declaration::{Declaration, DeclarationGeneric, DeclarationView, Pending, Stage};
use crate::utils::keys_of;

verus! {

broadcast use vstd::std_specs::hash::group_hash_axioms;

/// What a group of offices is and holds, by identifier.
pub open spec fn offices(customs: Map<u128, Customs>) -> Map<u128, CustomsView> {
    customs.map_values(|c: Customs| c@)
}

/// The offices after a declaration was put into the pending pool of one of
/// them: that pool holds it under its identifier, in place of whatever it
/// held there, and nothing else has changed.
pub open spec fn dispatched(
    before: Map<u128, CustomsView>,
    office: u128,
    decl: DeclarationView,
) -> Map<u128, CustomsView> {
    before.insert(
        office,
        CustomsView {
            declarations: before[office].declarations.insert(decl.id, decl),
            ..before[office]
        },
    )
}

/// The offices whose pending pool holds a declaration with this identifier.
pub open spec fn holders(all: Map<u128, CustomsView>, id: u128) -> Set<u128> {
    Set::new(|k: u128| all.contains_key(k) && all[k].declarations.contains_key(id))
}

/// Whether some inspector of some office has a declaration with this
/// identifier under review.
pub open spec fn under_review(all: Map<u128, CustomsView>, id: u128) -> bool {
    exists|k: u128, i: u128|
        all.contains_key(k) && #[trigger] all[k].inspectors.contains_key(i)
            && all[k].inspectors[i].declarations.contains_key(id)
}

/// Whether no office is connected.
pub open spec fn unconnected(all: Map<u128, CustomsView>) -> bool {
    forall|k: u128| !all.contains_key(k)
}

/// What one optional declaration says.
pub open spec fn said(d: Option<Declaration<Pending>>) -> Option<DeclarationView> {
    match d {
        Some(d) => Some(d@),
        None => None,
    }
}

/// A declaration was sent to `office`: the office is connected, its pool
/// took the declaration as `dispatched` says, and `previous` is what the
/// pool held under that identifier before.
pub open spec fn sent(
    before: Map<u128, CustomsView>,
    after: Map<u128, CustomsView>,
    office: u128,
    decl: DeclarationView,
    previous: Option<DeclarationView>,
) -> bool {
    &&& before.contains_key(office)
    &&& after == dispatched(before, office, decl)
    &&& previous == if before[office].declarations.contains_key(decl.id) {
        Some(before[office].declarations[decl.id])
    } else {
        None
    }
}

/// After a declaration has gone to an office, it waits in that office and
/// in no other, and no inspector has it under review.
///
/// This holds where, before, no other office held a declaration with that
/// identifier and no inspector had one under review: sending never takes a
/// declaration away from where it already is.
pub proof fn dispatch_places_once(
    before: Map<u128, CustomsView>,
    office: u128,
    decl: DeclarationView,
)
    requires
        before.contains_key(office),
        forall|k: u128| holders(before, decl.id).contains(k) ==> k == office,
        !under_review(before, decl.id),
    ensures
        holders(dispatched(before, office, decl), decl.id) == set![office],
        dispatched(before, office, decl)[office].declarations[decl.id] == decl,
        !under_review(dispatched(before, office, decl), decl.id),
{
    let after = dispatched(before, office, decl);
    assert(holders(after, decl.id) =~= set![office]) by {
        assert forall|k: u128| holders(after, decl.id).contains(k) implies k == office by {
            if k != office {
                assert(holders(before, decl.id).contains(k));
            }
        }
    }
    assert forall|k: u128, i: u128|
        after.contains_key(k) && #[trigger] after[k].inspectors.contains_key(i) implies !after[k].inspectors[i].declarations.contains_key(
        decl.id,
    ) by {
        assert(before.contains_key(k));
        assert(before[k].inspectors.contains_key(i));
    }
}

/// Sending a second declaration with the identifier of a first one to the
/// same office gives the first one back, and leaves the office as if only
/// the second had been sent.
pub proof fn redispatch_replaces(
    before: Map<u128, CustomsView>,
    office: u128,
    first: DeclarationView,
    second: DeclarationView,
)
    requires
        before.contains_key(office),
        first.id == second.id,
    ensures
        sent(
            dispatched(before, office, first),
            dispatched(dispatched(before, office, first), office, second),
            office,
            second,
            Some(first),
        ),
        dispatched(dispatched(before, office, first), office, second) == dispatched(
            before,
            office,
            second,
        ),
{
    let once = dispatched(before, office, first);
    let twice = dispatched(once, office, second);
    assert(once[office].declarations.insert(second.id, second)
        =~= before[office].declarations.insert(second.id, second));
    assert(twice =~= dispatched(before, office, second));
}

/// The router of declarations.
#[derive(Debug, PartialEq)]
pub struct Processor {
    customs: HashMap<u128, Customs>,
}

impl View for Processor {
    type V = Map<u128, CustomsView>;

    closed spec fn view(&self) -> Map<u128, CustomsView> {
        offices(self.customs@)
    }
}

impl Processor {
    /// A processor with no office connected.
    pub fn new() -> (r: Processor)
        ensures
            r@ == Map::<u128, CustomsView>::empty(),
    {
        let r = Processor { customs: HashMap::new() };
        assert(offices(r.customs@) =~= Map::empty());
        r
    }

    /// The identifiers of the connected offices, each once, in the order in
    /// which the map hands them out.
    fn office_ids(&self) -> (ids: Vec<u128>)
        ensures
            ids@.no_duplicates(),
            ids@.to_set() == self@.dom(),
    {
        let ids = keys_of(&self.customs);
        assert(offices(self.customs@).dom() =~= self.customs@.dom());
        ids
    }

    /// One connected office, picked at random with equal chances and
    /// without a look at the declaration; none where none is connected.
    /// This stands in for a better rule.
    fn pick_customs_index(&self, _decl: &Declaration<Pending>) -> (index: Option<u128>)
        ensures
            match index {
                Some(k) => self@.contains_key(k),
                None => unconnected(self@),
            },
    {
        let ids = self.office_ids();
        if ids.len() == 0 {
            assert forall|k: u128| !self@.contains_key(k) by {
                if self@.contains_key(k) {
                    assert(ids@.to_set().contains(k));
                    assert(ids@.contains(k));
                }
            }
            return None;
        }
        let i = random_index(ids.len());
        assert(ids@.to_set().contains(ids@[i as int])) by {
            assert(ids@.contains(ids@[i as int]));
        }
        Some(ids[i])
    }

    /// Sends a declaration to the office with this identifier: a copy
    /// enters that office's pending pool, and what the pool held under the
    /// declaration's identifier comes back. Where no such office is
    /// connected, nothing changes.
    pub fn process_declaration_at(&mut self, index: &u128, decl: &Declaration<Pending>) -> (r:
        Result<Option<Declaration<Pending>>, ProcessorError>)
        ensures
            match r {
                Ok(previous) => sent(old(self)@, final(self)@, *index, decl@, said(previous)),
                Err(e) => !old(self)@.contains_key(*index) && e
                    == ProcessorError::CannotBorrowCustoms(*index) && final(self)@ == old(self)@,
            },
    {
        match self.customs.remove(index) {
            Some(office) => {
                let mut office = office;
                let previous = office.update_decl(decl.clone()).unwrap();
                self.customs.insert(*index, office);
                assert(offices(self.customs@) =~= dispatched(
                    offices(old(self).customs@),
                    *index,
                    decl@,
                ));
                Ok(previous)
            },
            None => {
                assert(offices(self.customs@) =~= offices(old(self).customs@));
                Err(ProcessorError::CannotBorrowCustoms(*index))
            },
        }
    }

    /// The connected offices.
    pub fn customs_ref(&self) -> (r: &HashMap<u128, Customs>)
        ensures
            offices(r@) == self@,
    {
        &self.customs
    }

    /// The connected offices, to change in place.
    pub fn customs_mut(&mut self) -> (r: &mut HashMap<u128, Customs>)
        ensures
            offices(r@) == old(self)@,
            final(self)@ == offices(final(r)@),
    {
        &mut self.customs
    }

    /// Replaces the connected offices.
    pub fn set_customs(&mut self, value: HashMap<u128, Customs>)
        ensures
            final(self)@ == offices(value@),
    {
        self.customs = value;
    }
}

impl Clone for Processor {
    fn clone(&self) -> (r: Self)
        ensures
            r@ == self@,
    {
        Processor { customs: self.customs.clone() }
    }
}

impl Default for Processor {
    /// A processor with no office connected.
    fn default() -> (r: Self)
        ensures
            r@ == Map::<u128, CustomsView>::empty(),
    {
        Processor::new()
    }
}

/// What the processor does.
pub trait Logic: View<V = Map<u128, CustomsView>> {
    /// Connects an office under its identifier. An office that was
    /// connected under the same identifier is replaced and comes back. This
    /// never fails.
    fn connect(&mut self, customs: Customs) -> (r: Result<Option<Customs>, ProcessorError>)
        ensures
            final(self)@ == old(self)@.insert(customs@.id, customs@),
            r is Ok,
            r->Ok_0 is Some <==> old(self)@.contains_key(customs@.id),
            r->Ok_0 is Some ==> r->Ok_0->0@ == old(self)@[customs@.id],
    ;

    /// Sends a declaration to one connected office, picked at random: a
    /// copy enters that office's pending pool, and what the pool held under
    /// the declaration's identifier comes back. Where no office is
    /// connected, the declaration is refused and nothing changes.
    fn process_declaration(&mut self, decl: &Declaration<Pending>) -> (r: Result<
        Option<Declaration<Pending>>,
        ProcessorError,
    >)
        ensures
            match r {
                Ok(previous) => exists|k: u128|
                    sent(old(self)@, final(self)@, k, decl@, said(previous)),
                Err(e) => unconnected(old(self)@) && e == ProcessorError::NoCustomsConnected
                    && final(self)@ == old(self)@,
            },
            r is Err <==> unconnected(old(self)@),
    ;

    /// A copy of the pending declaration with this identifier, from the
    /// pending pool of a connected office. Only those pools are searched: a
    /// declaration that an inspector has taken up is not found.
    fn find_declaration(&self, id: u128) -> (r: Option<DeclarationGeneric>)
        ensures
            r is Some <==> exists|k: u128| holders(self@, id).contains(k),
            r is Some ==> r->0.stage() == Stage::Pending && exists|k: u128|
                holders(self@, id).contains(k) && r->0.content()
                    == self@[k].declarations[id],
    ;
}

impl Logic for Processor {
    fn connect(&mut self, customs: Customs) -> (r: Result<Option<Customs>, ProcessorError>) {
        let id = customs.id();
        let previous = self.customs.insert(id, customs);
        assert(offices(self.customs@) =~= offices(old(self).customs@).insert(id, customs@));
        Ok(previous)
    }

    fn process_declaration(&mut self, decl: &Declaration<Pending>) -> (r: Result<
        Option<Declaration<Pending>>,
        ProcessorError,
    >) {
        match self.pick_customs_index(decl) {
            Some(index) => self.process_declaration_at(&index, decl),
            None => Err(ProcessorError::NoCustomsConnected),
        }
    }

    fn find_declaration(&self, id: u128) -> (r: Option<DeclarationGeneric>) {
        let ids = self.office_ids();
        let mut found: Option<DeclarationGeneric> = None;
        let mut i: usize = 0;
        while i < ids.len()
            invariant
                i <= ids.len(),
                ids@.to_set() == self@.dom(),
                found is Some <==> exists|j: int|
                    0 <= j < i && self@[#[trigger] ids@[j]].declarations.contains_key(id),
                found is Some ==> found->0.stage() == Stage::Pending && exists|j: int|
                    0 <= j < i && self@[#[trigger] ids@[j]].declarations.contains_key(id)
                        && found->0.content() == self@[ids@[j]].declarations[id],
            decreases ids.len() - i,
        {
            assert(ids@.to_set().contains(ids@[i as int])) by {
                assert(ids@.contains(ids@[i as int]));
            }
            match self.customs.get(&ids[i]) {
                Some(office) => {
                    match office.get_declaration(&id) {
                        Some(decl) => {
                            found = Some(decl);
                        },
                        None => {},
                    }
                },
                None => {},
            }
            i += 1;
        }
        proof {
            if exists|k: u128| holders(self@, id).contains(k) {
                let k = choose|k: u128| holders(self@, id).contains(k);
                assert(ids@.to_set().contains(k));
                assert(ids@.contains(k));
                let j = choose|j: int| 0 <= j < ids@.len() && ids@[j] == k;
                assert(self@[ids@[j]].declarations.contains_key(id));
            }
            if found is Some {
                let j = choose|j: int|
                    0 <= j < i && self@[#[trigger] ids@[j]].declarations.contains_key(id)
                        && found->0.content() == self@[ids@[j]].declarations[id];
                assert(ids@.to_set().contains(ids@[j])) by {
                    assert(ids@.contains(ids@[j]));
                }
                assert(holders(self@, id).contains(ids@[j]));
            }
        }
        found
    }
}

} // verus!
