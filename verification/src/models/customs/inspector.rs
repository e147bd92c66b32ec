//! The inspector: holds the declarations under review and assesses what a
//! corrected declaration costs its signer.
use vstd::prelude::*;
use std::collections::HashMap;
use crate::ambient::{fresh_id, is_random_id};
use crate::errors::declaration::DeclarationError;
use crate::errors::processor::ProcessorError;
use crate::errors::AnyError;
use crate::models::customs::CustomsParams;
use crate::models::declaration::{
    contents, differing, keyed, Declaration, DeclarationView, Inspecting, Pending, Pool, Tax,
};
use crate::models::processor::{
    dispatched, said, sent, unconnected, Logic as ProcessorLogic, Processor,
};

verus! {

broadcast use vstd::std_specs::hash::group_hash_axioms;

/// What an inspector is and holds.
pub ghost struct InspectorView {
    pub id: u128,
    pub name: Seq<char>,
    pub rank: Seq<char>,
    pub post: Seq<char>,
    /// The declarations under this inspector's review, by identifier.
    pub declarations: Map<u128, DeclarationView>,
}

impl InspectorView {
    /// The inspector after taking a declaration up: the pool holds it under
    /// its identifier, stamped with the inspector's own, in place of
    /// whatever it held there.
    pub open spec fn fetched(self, decl: DeclarationView) -> InspectorView {
        InspectorView {
            declarations: self.declarations.insert(
                decl.id,
                DeclarationView { inspected_by: Some(self.id), ..decl },
            ),
            ..self
        }
    }
}

/// An officer of a customs office, who reviews declarations one by one.
#[derive(PartialEq, Debug)]
pub struct Inspector {
    id: u128,
    name: String,
    rank: String,
    post: String,
    declarations: Pool<Inspecting>,
}

impl View for Inspector {
    type V = InspectorView;

    closed spec fn view(&self) -> InspectorView {
        InspectorView {
            id: self.id,
            name: self.name@,
            rank: self.rank@,
            post: self.post@,
            declarations: self.declarations@,
        }
    }
}

impl Inspector {
    /// An inspector with nothing under review, under a fresh random
    /// identifier.
    pub fn new(name: &str, post: &str, rank: &str) -> (r: Self)
        ensures
            is_random_id(r@.id),
            r@ == (InspectorView {
                id: r@.id,
                name: name@,
                rank: rank@,
                post: post@,
                declarations: Map::empty(),
            }),
    {
        Self::load(fresh_id(), name, post, rank)
    }

    /// An inspector with nothing under review, under a given identifier.
    pub fn load(id: u128, name: &str, post: &str, rank: &str) -> (r: Self)
        ensures
            r@ == (InspectorView {
                id,
                name: name@,
                rank: rank@,
                post: post@,
                declarations: Map::empty(),
            }),
    {
        let r = Inspector {
            id,
            name: name.to_owned(),
            post: post.to_owned(),
            rank: rank.to_owned(),
            declarations: Pool::new(),
        };
        r
    }
}

/// Twelve fees at most are added up, and that many fit: with one more wrong
/// field the price grows by one fee and stays in range.
proof fn one_more_fits(count: int, fee: int)
    requires
        0 <= count < 12,
        0 <= fee <= u32::MAX * u64::MAX,
    ensures
        (count + 1) * fee == count * fee + fee,
        (count + 1) * fee <= u128::MAX,
{
    assert((count + 1) * fee == count * fee + fee) by (nonlinear_arith);
    assert((count + 1) * fee <= 12 * (u32::MAX * u64::MAX)) by (nonlinear_arith)
        requires
            count + 1 <= 12,
            0 <= fee <= u32::MAX * u64::MAX,
    ;
}

/// What an inspector does with declarations.
pub trait Logic: View<V = InspectorView> {
    /// The declaration under review with this identifier, if there is one.
    fn get_declaration(&self, id: &u128) -> (r: Option<&Declaration<Inspecting>>)
        ensures
            r is Some <==> self@.declarations.contains_key(*id),
            r is Some ==> r->0@ == self@.declarations[*id] && r->0@.id == *id,
    ;

    /// Takes a pending declaration up for review: it enters this
    /// inspector's pool under its identifier, stamped with the inspector's
    /// own, and replaces whatever was kept there.
    fn fetch_declaration(&mut self, declaration: Declaration<Pending>)
        ensures
            final(self)@ == old(self)@.fetched(declaration@),
    ;

    /// Stores a corrected declaration, stamped with the inspector's
    /// identifier, and gives back the one it replaced.
    fn update_declaration(&mut self, declaration: Declaration<Inspecting>) -> (r: Option<
        Declaration<Inspecting>,
    >)
        ensures
            final(self)@ == old(self)@.fetched(declaration@),
            r is Some <==> old(self)@.declarations.contains_key(declaration@.id),
            r is Some ==> r->0@ == old(self)@.declarations[declaration@.id],
    ;

    /// Takes the declaration with this identifier out of review.
    fn remove_declaration(&mut self, id: &u128) -> (r: Option<Declaration<Inspecting>>)
        ensures
            final(self)@ == (InspectorView {
                declarations: old(self)@.declarations.remove(*id),
                ..old(self)@
            }),
            r is Some <==> old(self)@.declarations.contains_key(*id),
            r is Some ==> r->0@ == old(self)@.declarations[*id] && r->0@.id == *id,
    ;

    /// Hands the declaration with this identifier back: it goes through the
    /// processor, pending again, to one connected office picked at random,
    /// and only then leaves this inspector's pool. Where the pool holds no
    /// such declaration, or no office is connected, the call is refused and
    /// nothing changes: the declaration stays where it is.
    fn reprocess(&mut self, processor: &mut Processor, id: &u128) -> (r: Result<(), AnyError>)
        ensures
            match r {
                Ok(_) => {
                    &&& old(self)@.declarations.contains_key(*id)
                    &&& final(self)@ == (InspectorView {
                        declarations: old(self)@.declarations.remove(*id),
                        ..old(self)@
                    })
                    &&& exists|k: u128|
                        old(processor)@.contains_key(k) && final(processor)@ == #[trigger] dispatched(
                            old(processor)@,
                            k,
                            old(self)@.declarations[*id],
                        )
                },
                Err(e) => {
                    &&& final(self)@ == old(self)@
                    &&& final(processor)@ == old(processor)@
                    &&& if !old(self)@.declarations.contains_key(*id) {
                        e == AnyError::Declaration(DeclarationError::DeclarationNotFound(*id))
                    } else {
                        unconnected(old(processor)@) && e == AnyError::Processor(
                            ProcessorError::NoCustomsConnected,
                        )
                    }
                },
            },
    ;

    /// Holds a corrected declaration against the one submitted. Each of the
    /// twelve compared fields that differs counts as one wrong field and
    /// costs the fee that the schedule gives for the corrected price. The
    /// assessment names this inspector, the corrected declaration, and its
    /// signer as the one who pays.
    fn calc_tax(
        &self,
        declaration: &Declaration<Inspecting>,
        declaration_corrected: &Declaration<Inspecting>,
        conf: CustomsParams,
    ) -> (tax: Tax)
        ensures
            is_random_id(tax@.id),
            tax@.inspector_id == self@.id,
            tax@.declaration_id == declaration_corrected@.id,
            tax@.receiver_id == declaration_corrected@.signed_by,
            tax@.incorrect_fields == declaration@.mismatches(declaration_corrected@),
            tax@.price == declaration@.mismatches(declaration_corrected@) * conf@.fee.fee_for(
                declaration_corrected@.product_price,
            ),
    ;
}

impl Logic for Inspector {
    fn get_declaration(&self, id: &u128) -> (r: Option<&Declaration<Inspecting>>) {
        self.declarations.get(id)
    }

    fn remove_declaration(&mut self, id: &u128) -> (r: Option<Declaration<Inspecting>>) {
        self.declarations.remove(id)
    }

    fn fetch_declaration(&mut self, declaration: Declaration<Pending>) {
        let mut declaration: Declaration<Inspecting> = declaration.into();
        declaration.set_inspected_by(Some(self.id));
        self.declarations.upsert(declaration);
    }

    fn update_declaration(&mut self, declaration: Declaration<Inspecting>) -> (r: Option<
        Declaration<Inspecting>,
    >) {
        let mut declaration = declaration;
        declaration.set_inspected_by(Some(self.id));
        self.declarations.upsert(declaration)
    }

    fn reprocess(&mut self, processor: &mut Processor, id: &u128) -> (r: Result<(), AnyError>) {
        let declaration: Declaration<Pending> = match self.declarations.get(id) {
            Some(declaration) => declaration.clone().into(),
            None => {
                return Err(AnyError::Declaration(DeclarationError::DeclarationNotFound(*id)));
            },
        };
        match processor.process_declaration(&declaration) {
            Ok(previous) => {
                self.declarations.remove(id);
                proof {
                    let k = choose|k: u128|
                        sent(old(processor)@, processor@, k, declaration@, said(previous));
                    assert(processor@ == dispatched(
                        old(processor)@,
                        k,
                        old(self)@.declarations[*id],
                    ));
                }
                Ok(())
            },
            Err(e) => Err(AnyError::Processor(e)),
        }
    }

    fn calc_tax(
        &self,
        declaration_old: &Declaration<Inspecting>,
        declaration_corrected: &Declaration<Inspecting>,
        conf: CustomsParams,
    ) -> (tax: Tax) {
        let fee_per_item = conf.fee.calculate_fee(declaration_corrected.product_price());
        proof {
            conf@.fee.fee_for_bounded(declaration_corrected@.product_price);
        }
        let mut tax = Tax::new();
        tax.set_inspector_id(self.id);
        tax.set_declaration_id(declaration_corrected.id());
        tax.set_receiver_id(declaration_corrected.signed_by());
        let old_fields = declaration_old.fields();
        let new_fields = declaration_corrected.fields();
        let ghost a = declaration_old@;
        let ghost b = declaration_corrected@;
        let mut incorrect_fields: usize = 0;
        let mut price: u128 = 0;

        let mut i: usize = 0;
        while i < 9
            invariant
                i <= 9,
                fee_per_item <= u32::MAX * u64::MAX,
                forall|k: int| 0 <= k < 9 ==> (#[trigger] old_fields.0@[k])@ == a.texts()[k],
                forall|k: int| 0 <= k < 9 ==> (#[trigger] new_fields.0@[k])@ == b.texts()[k],
                incorrect_fields == differing(a.texts(), b.texts(), i as nat),
                incorrect_fields <= i,
                price == incorrect_fields * fee_per_item,
            decreases 9 - i,
        {
            if !(old_fields.0[i] == new_fields.0[i]) {
                proof {
                    one_more_fits(incorrect_fields as int, fee_per_item as int);
                }
                incorrect_fields += 1;
                price += fee_per_item;
            }
            i += 1;
        }

        let mut j: usize = 0;
        while j < 2
            invariant
                j <= 2,
                fee_per_item <= u32::MAX * u64::MAX,
                old_fields.1@ == a.amounts(),
                new_fields.1@ == b.amounts(),
                incorrect_fields == differing(a.texts(), b.texts(), 9) + differing(
                    a.amounts(),
                    b.amounts(),
                    j as nat,
                ),
                incorrect_fields <= 9 + j,
                price == incorrect_fields * fee_per_item,
            decreases 2 - j,
        {
            if old_fields.1[j] != new_fields.1[j] {
                proof {
                    one_more_fits(incorrect_fields as int, fee_per_item as int);
                }
                incorrect_fields += 1;
                price += fee_per_item;
            }
            j += 1;
        }

        let mut k: usize = 0;
        while k < 1
            invariant
                k <= 1,
                fee_per_item <= u32::MAX * u64::MAX,
                old_fields.2@ == a.counts(),
                new_fields.2@ == b.counts(),
                incorrect_fields == differing(a.texts(), b.texts(), 9) + differing(
                    a.amounts(),
                    b.amounts(),
                    2,
                ) + differing(a.counts(), b.counts(), k as nat),
                incorrect_fields <= 11 + k,
                price == incorrect_fields * fee_per_item,
            decreases 1 - k,
        {
            if old_fields.2[k] != new_fields.2[k] {
                proof {
                    one_more_fits(incorrect_fields as int, fee_per_item as int);
                }
                incorrect_fields += 1;
                price += fee_per_item;
            }
            k += 1;
        }
        tax.set_incorrect_fields(incorrect_fields);
        tax.set_price(price);
        tax
    }
}

impl Default for Inspector {
    /// Nobody: identifier zero, no name, nothing under review.
    fn default() -> (r: Self)
        ensures
            r@ == (InspectorView {
                id: 0,
                name: Seq::empty(),
                rank: Seq::empty(),
                post: Seq::empty(),
                declarations: Map::empty(),
            }),
    {
        let r = Inspector {
            id: 0,
            name: String::new(),
            rank: String::new(),
            post: String::new(),
            declarations: Pool::new(),
        };
        r
    }
}

impl Clone for Inspector {
    fn clone(&self) -> (r: Self)
        ensures
            r@ == self@,
    {
        Inspector {
            id: self.id,
            name: self.name.clone(),
            rank: self.rank.clone(),
            post: self.post.clone(),
            declarations: self.declarations.clone(),
        }
    }
}

impl Inspector {
    pub fn id(&self) -> (r: u128)
        ensures
            r == self@.id,
    {
        self.id
    }

    pub fn name_ref(&self) -> (r: &str)
        ensures
            r@ == self@.name,
    {
        self.name.as_str()
    }

    pub fn rank_ref(&self) -> (r: &str)
        ensures
            r@ == self@.rank,
    {
        self.rank.as_str()
    }

    pub fn post_ref(&self) -> (r: &str)
        ensures
            r@ == self@.post,
    {
        self.post.as_str()
    }

    /// The declarations under review, each under its own identifier.
    pub fn declarations_ref(&self) -> (r: &HashMap<u128, Declaration<Inspecting>>)
        ensures
            contents(r@) == self@.declarations,
            keyed(self@.declarations),
    {
        self.declarations.as_map()
    }

    pub fn set_id(&mut self, value: u128)
        ensures
            final(self)@ == (InspectorView { id: value, ..old(self)@ }),
    {
        self.id = value;
    }

    pub fn set_name(&mut self, value: &str)
        ensures
            final(self)@ == (InspectorView { name: value@, ..old(self)@ }),
    {
        self.name = value.to_owned();
    }

    pub fn set_rank(&mut self, value: &str)
        ensures
            final(self)@ == (InspectorView { rank: value@, ..old(self)@ }),
    {
        self.rank = value.to_owned();
    }

    pub fn set_post(&mut self, value: &str)
        ensures
            final(self)@ == (InspectorView { post: value@, ..old(self)@ }),
    {
        self.post = value.to_owned();
    }

    /// Replaces everything under review.
    pub fn set_declarations(&mut self, value: Pool<Inspecting>)
        ensures
            final(self)@ == (InspectorView { declarations: value@, ..old(self)@ }),
    {
        self.declarations = value;
    }
}

} // verus!
