//! The declaration, the document that moves through the system, and the
//! states it passes through.
use vstd::prelude::*;
use vstd::std_specs::convert::FromSpecImpl;
use std::collections::HashMap;
use core::marker::PhantomData;
use crate::ambient::{fresh_id, is_random_id, now};
use crate::errors::declaration::DeclarationError;
use crate::models::misc::timestamp::Timestamp;
use crate::utils::keys_of;

verus! {

broadcast use vstd::std_specs::hash::group_hash_axioms;

/// Being written by the declarant.
#[derive(Clone, Default, PartialEq, Eq, PartialOrd, Debug)]
pub struct Draft;

/// Validated, waiting in an office for inspection.
#[derive(Clone, Default, PartialEq, Eq, PartialOrd, Debug)]
pub struct Pending;

/// Under review by one inspector.
#[derive(Clone, Default, PartialEq, Eq, PartialOrd, Debug)]
pub struct Inspecting;

/// Accepted; final.
#[derive(Clone, Default, PartialEq, Eq, PartialOrd, Debug)]
pub struct Approved;

/// Refused; final.
#[derive(Clone, Default, PartialEq, Eq, PartialOrd, Debug)]
pub struct Rejected;

/// States in which the fields of a declaration may be written: while the
/// declarant drafts it, and while an inspector corrects it.
pub trait Editable {}

impl Editable for Draft {}

impl Editable for Inspecting {}

/// What a declaration says, whatever its state.
///
/// Prices and weights are whole numbers of the smallest unit in use.
pub ghost struct DeclarationView {
    pub id: u128,
    pub signed_by: u128,
    pub inspected_by: Option<u128>,
    pub product_name: Seq<char>,
    pub product_code: Seq<char>,
    pub product_price: u64,
    pub product_quantity: i64,
    pub product_weight: u64,
    pub product_description: Seq<char>,
    pub transport_type: Seq<char>,
    pub transport_name: Seq<char>,
    pub sender_name: Seq<char>,
    pub receiver_name: Seq<char>,
    pub destination: Seq<char>,
    pub departure: Seq<char>,
    pub created_at: Timestamp,
    pub updated_at: Timestamp,
}

impl DeclarationView {
    /// The declaration nobody has written yet: identifier zero, every text
    /// empty, every number zero, both times at the epoch.
    pub open spec fn blank() -> DeclarationView {
        DeclarationView {
            id: 0,
            signed_by: 0,
            inspected_by: None,
            product_name: Seq::empty(),
            product_code: Seq::empty(),
            product_price: 0,
            product_quantity: 0,
            product_weight: 0,
            product_description: Seq::empty(),
            transport_type: Seq::empty(),
            transport_name: Seq::empty(),
            sender_name: Seq::empty(),
            receiver_name: Seq::empty(),
            destination: Seq::empty(),
            departure: Seq::empty(),
            created_at: Timestamp::epoch(),
            updated_at: Timestamp::epoch(),
        }
    }

    /// The nine texts, in the order in which two declarations are compared.
    pub open spec fn texts(self) -> Seq<Seq<char>> {
        seq![
            self.product_name,
            self.product_code,
            self.product_description,
            self.transport_type,
            self.transport_name,
            self.sender_name,
            self.receiver_name,
            self.destination,
            self.departure,
        ]
    }

    /// The two measured amounts: price, then weight.
    pub open spec fn amounts(self) -> Seq<u64> {
        seq![self.product_price, self.product_weight]
    }

    /// The one count: the quantity.
    pub open spec fn counts(self) -> Seq<i64> {
        seq![self.product_quantity]
    }

    /// In how many of the twelve compared fields the two declarations
    /// differ: nine texts, two amounts, one count.
    pub open spec fn mismatches(self, other: DeclarationView) -> nat {
        differing(self.texts(), other.texts(), 9) + differing(self.amounts(), other.amounts(), 2)
            + differing(self.counts(), other.counts(), 1)
    }

    /// Every text is non-empty and every number is non-zero.
    pub open spec fn is_filled(self) -> bool {
        &&& self.product_name.len() > 0
        &&& self.product_code.len() > 0
        &&& self.product_description.len() > 0
        &&& self.transport_type.len() > 0
        &&& self.transport_name.len() > 0
        &&& self.sender_name.len() > 0
        &&& self.receiver_name.len() > 0
        &&& self.destination.len() > 0
        &&& self.departure.len() > 0
        &&& self.product_price != 0
        &&& self.product_weight != 0
        &&& self.product_quantity != 0
    }
}

/// How many of the first `n` places of two sequences hold different values.
pub open spec fn differing<T>(a: Seq<T>, b: Seq<T>, n: nat) -> nat
    recommends
        n <= a.len(),
        n <= b.len(),
    decreases n,
{
    if n == 0 {
        0
    } else {
        differing(a, b, (n - 1) as nat) + if a[n - 1] != b[n - 1] {
            1nat
        } else {
            0nat
        }
    }
}

/// What a pool of declarations says: each identifier with the content of
/// the declaration kept under it.
pub open spec fn contents<State>(pool: Map<u128, Declaration<State>>) -> Map<
    u128,
    DeclarationView,
> {
    pool.map_values(|d: Declaration<State>| d@)
}

/// Whether a pool keeps every declaration under the declaration's own
/// identifier.
pub open spec fn keyed(pool: Map<u128, DeclarationView>) -> bool {
    forall|k: u128| pool.contains_key(k) ==> (#[trigger] pool[k]).id == k
}

/// A declaration in the state `State`.
///
/// The state is part of the type: a function that needs a pending
/// declaration takes `Declaration<Pending>` and nothing else.
#[derive(PartialEq, Debug)]
pub struct Declaration<State = Draft> {
    id: u128,
    signed_by: u128,
    inspected_by: Option<u128>,
    product_name: String,
    product_code: String,
    product_price: u64,
    product_quantity: i64,
    product_weight: u64,
    product_description: String,
    transport_type: String,
    transport_name: String,
    sender_name: String,
    receiver_name: String,
    destination: String,
    departure: String,
    state: PhantomData<State>,
    created_at: Timestamp,
    updated_at: Timestamp,
}

impl<State> View for Declaration<State> {
    type V = DeclarationView;

    closed spec fn view(&self) -> DeclarationView {
        DeclarationView {
            id: self.id,
            signed_by: self.signed_by,
            inspected_by: self.inspected_by,
            product_name: self.product_name@,
            product_code: self.product_code@,
            product_price: self.product_price,
            product_quantity: self.product_quantity,
            product_weight: self.product_weight,
            product_description: self.product_description@,
            transport_type: self.transport_type@,
            transport_name: self.transport_name@,
            sender_name: self.sender_name@,
            receiver_name: self.receiver_name@,
            destination: self.destination@,
            departure: self.departure@,
            created_at: self.created_at,
            updated_at: self.updated_at,
        }
    }
}

impl<State> Clone for Declaration<State> {
    fn clone(&self) -> (r: Self)
        ensures
            r@ == self@,
    {
        Declaration {
            id: self.id,
            signed_by: self.signed_by,
            inspected_by: self.inspected_by,
            product_name: self.product_name.clone(),
            product_code: self.product_code.clone(),
            product_price: self.product_price,
            product_quantity: self.product_quantity,
            product_weight: self.product_weight,
            product_description: self.product_description.clone(),
            transport_type: self.transport_type.clone(),
            transport_name: self.transport_name.clone(),
            sender_name: self.sender_name.clone(),
            receiver_name: self.receiver_name.clone(),
            destination: self.destination.clone(),
            departure: self.departure.clone(),
            state: PhantomData,
            created_at: self.created_at,
            updated_at: self.updated_at,
        }
    }
}

impl Default for Declaration<Draft> {
    fn default() -> (r: Self)
        ensures
            r@ == DeclarationView::blank(),
    {
        Declaration {
            id: 0,
            signed_by: 0,
            inspected_by: None,
            product_name: String::new(),
            product_code: String::new(),
            product_price: 0,
            product_quantity: 0,
            product_weight: 0,
            product_description: String::new(),
            transport_type: String::new(),
            transport_name: String::new(),
            sender_name: String::new(),
            receiver_name: String::new(),
            destination: String::new(),
            departure: String::new(),
            state: PhantomData,
            created_at: Timestamp { secs: 0, nanos: 0 },
            updated_at: Timestamp { secs: 0, nanos: 0 },
        }
    }
}

/// Re-tags a declaration: every field moves over, only the state changes.
pub(crate) fn copy<T, U>(value: Declaration<U>) -> (r: Declaration<T>)
    ensures
        r == value.retagged::<T>(),
        r@ == value@,
{
    Declaration {
        id: value.id,
        signed_by: value.signed_by,
        inspected_by: value.inspected_by,
        product_name: value.product_name,
        product_code: value.product_code,
        product_price: value.product_price,
        product_quantity: value.product_quantity,
        product_weight: value.product_weight,
        product_description: value.product_description,
        transport_type: value.transport_type,
        transport_name: value.transport_name,
        sender_name: value.sender_name,
        receiver_name: value.receiver_name,
        destination: value.destination,
        departure: value.departure,
        state: PhantomData,
        created_at: value.created_at,
        updated_at: value.updated_at,
    }
}

impl Declaration<Draft> {
    /// A blank draft under a fresh random identifier.
    pub fn new() -> (r: Self)
        ensures
            is_random_id(r@.id),
            r@ == (DeclarationView { id: r@.id, ..DeclarationView::blank() }),
    {
        let mut r = Declaration::<Draft>::default();
        r.id = fresh_id();
        r
    }

    /// Whether nothing is missing: no text is empty and no number is zero.
    pub fn is_filled(&self) -> (r: bool)
        ensures
            r == self@.is_filled(),
    {
        let texts_filled = !self.product_name.as_str().is_empty()
            && !self.product_code.as_str().is_empty()
            && !self.product_description.as_str().is_empty()
            && !self.transport_type.as_str().is_empty()
            && !self.transport_name.as_str().is_empty()
            && !self.sender_name.as_str().is_empty()
            && !self.receiver_name.as_str().is_empty()
            && !self.destination.as_str().is_empty()
            && !self.departure.as_str().is_empty();
        texts_filled && self.product_price != 0 && self.product_weight != 0
            && self.product_quantity != 0
    }

    /// Turns a complete draft into a pending declaration with the same
    /// content; an incomplete one is refused.
    pub fn validate(&self) -> (r: Result<Declaration<Pending>, DeclarationError>)
        ensures
            self@.is_filled() ==> r is Ok && r->Ok_0@ == self@,
            !self@.is_filled() ==> r == Err::<Declaration<Pending>, DeclarationError>(
                DeclarationError::DeclarationNotComplete(self@.id),
            ),
    {
        if !self.is_filled() {
            return Err(DeclarationError::DeclarationNotComplete(self.id));
        }
        Ok(copy(self.clone()))
    }
}

/// A pool of declarations in one state, each kept under its own
/// identifier.
#[derive(PartialEq, Debug)]
pub struct Pool<State> {
    map: HashMap<u128, Declaration<State>>,
}

impl<State> View for Pool<State> {
    type V = Map<u128, DeclarationView>;

    closed spec fn view(&self) -> Map<u128, DeclarationView> {
        contents(self.map@)
    }
}

impl<State> Pool<State> {
    /// Every declaration is kept under its own identifier.
    #[verifier::type_invariant]
    spec fn is_keyed(self) -> bool {
        keyed(contents(self.map@))
    }

    /// An empty pool.
    pub fn new() -> (r: Self)
        ensures
            r@ == Map::<u128, DeclarationView>::empty(),
    {
        let r = Pool { map: HashMap::new() };
        assert(contents(r.map@) =~= Map::empty());
        r
    }

    /// Whether a map keeps every declaration under the declaration's own
    /// identifier, and so can become a pool.
    pub fn fits(map: &HashMap<u128, Declaration<State>>) -> (r: bool)
        ensures
            r == keyed(contents(map@)),
    {
        let ids = keys_of(map);
        let mut i: usize = 0;
        while i < ids.len()
            invariant
                i <= ids.len(),
                ids@.to_set() == map@.dom(),
                forall|j: int| 0 <= j < i ==> (#[trigger] contents(map@)[ids@[j]]).id == ids@[j],
            decreases ids.len() - i,
        {
            assert(ids@.to_set().contains(ids@[i as int])) by {
                assert(ids@.contains(ids@[i as int]));
            }
            match map.get(&ids[i]) {
                Some(d) => {
                    if d.id() != ids[i] {
                        assert(contents(map@).contains_key(ids@[i as int]));
                        assert(contents(map@)[ids@[i as int]].id != ids@[i as int]);
                        return false;
                    }
                },
                None => {},
            }
            i += 1;
        }
        assert forall|k: u128| contents(map@).contains_key(k) implies (#[trigger] contents(
            map@,
        )[k]).id == k by {
            assert(ids@.to_set().contains(k));
            assert(ids@.contains(k));
            let j = choose|j: int| 0 <= j < ids@.len() && ids@[j] == k;
            assert(contents(map@)[ids@[j]].id == ids@[j]);
        }
        true
    }

    /// The pool that holds what a map holds, where the map keeps every
    /// declaration under the declaration's own identifier; nothing
    /// otherwise.
    pub fn from_map(map: HashMap<u128, Declaration<State>>) -> (r: Option<Self>)
        ensures
            match r {
                Some(pool) => keyed(contents(map@)) && pool@ == contents(map@),
                None => !keyed(contents(map@)),
            },
    {
        if Self::fits(&map) {
            Some(Pool { map })
        } else {
            None
        }
    }

    /// The declarations of the pool, by identifier.
    pub fn as_map(&self) -> (r: &HashMap<u128, Declaration<State>>)
        ensures
            contents(r@) == self@,
            keyed(self@),
    {
        proof {
            use_type_invariant(self);
        }
        &self.map
    }

    /// The declaration with this identifier, if the pool holds one.
    pub fn get(&self, id: &u128) -> (r: Option<&Declaration<State>>)
        ensures
            r is Some <==> self@.contains_key(*id),
            r is Some ==> r->0@ == self@[*id] && r->0@.id == *id,
    {
        proof {
            use_type_invariant(self);
        }
        let r = self.map.get(id);
        assert(r is Some ==> contents(self.map@)[*id] == r->0@);
        r
    }

    /// Puts a declaration into the pool under its identifier, and gives
    /// back the one it replaced, if there was one.
    pub fn upsert(&mut self, decl: Declaration<State>) -> (r: Option<Declaration<State>>)
        ensures
            final(self)@ == old(self)@.insert(decl@.id, decl@),
            r is Some <==> old(self)@.contains_key(decl@.id),
            r is Some ==> r->0@ == old(self)@[decl@.id] && r->0@.id == decl@.id,
    {
        proof {
            use_type_invariant(&*self);
        }
        let id = decl.id();
        let mut map = HashMap::new();
        std::mem::swap(&mut self.map, &mut map);
        let r = map.insert(id, decl);
        assert(contents(map@) =~= contents(old(self).map@).insert(id, decl@));
        assert(r is Some ==> contents(old(self).map@)[id] == r->0@);
        self.map = map;
        r
    }

    /// Takes the declaration with this identifier out of the pool.
    pub fn remove(&mut self, id: &u128) -> (r: Option<Declaration<State>>)
        ensures
            final(self)@ == old(self)@.remove(*id),
            r is Some <==> old(self)@.contains_key(*id),
            r is Some ==> r->0@ == old(self)@[*id] && r->0@.id == *id,
    {
        proof {
            use_type_invariant(&*self);
        }
        let mut map = HashMap::new();
        std::mem::swap(&mut self.map, &mut map);
        let r = map.remove(id);
        assert(contents(map@) =~= contents(old(self).map@).remove(*id));
        assert(r is Some ==> contents(old(self).map@)[*id] == r->0@);
        self.map = map;
        r
    }
}

impl<State> Clone for Pool<State> {
    fn clone(&self) -> (r: Self)
        ensures
            r@ == self@,
    {
        proof {
            use_type_invariant(self);
        }
        Pool { map: self.map.clone() }
    }
}

impl<State> Declaration<State> {
    /// The same declaration under the state `T`, as a value of
    /// specifications.
    pub closed spec fn retagged<T>(self) -> Declaration<T> {
        Declaration {
            id: self.id,
            signed_by: self.signed_by,
            inspected_by: self.inspected_by,
            product_name: self.product_name,
            product_code: self.product_code,
            product_price: self.product_price,
            product_quantity: self.product_quantity,
            product_weight: self.product_weight,
            product_description: self.product_description,
            transport_type: self.transport_type,
            transport_name: self.transport_name,
            sender_name: self.sender_name,
            receiver_name: self.receiver_name,
            destination: self.destination,
            departure: self.departure,
            state: PhantomData,
            created_at: self.created_at,
            updated_at: self.updated_at,
        }
    }

    /// Re-tagging keeps the content.
    pub proof fn retagged_keeps_content<T>(self)
        ensures
            self.retagged::<T>()@ == self@,
    {
    }

    /// The fields that two declarations are compared by: the nine texts,
    /// the two amounts (price, weight) and the quantity.
    pub fn fields(&self) -> (r: ([String; 9], [u64; 2], [i64; 1]))
        ensures
            forall|i: int| 0 <= i < 9 ==> (#[trigger] r.0@[i])@ == self@.texts()[i],
            r.1@ == self@.amounts(),
            r.2@ == self@.counts(),
    {
        (
            [
                self.product_name.clone(),
                self.product_code.clone(),
                self.product_description.clone(),
                self.transport_type.clone(),
                self.transport_name.clone(),
                self.sender_name.clone(),
                self.receiver_name.clone(),
                self.destination.clone(),
                self.departure.clone(),
            ],
            [self.product_price, self.product_weight],
            [self.product_quantity],
        )
    }
}

impl From<Declaration<Pending>> for Declaration<Inspecting> {
    /// An inspector takes the declaration up.
    fn from(value: Declaration<Pending>) -> (r: Self)
        ensures
            r@ == value@,
    {
        copy(value)
    }
}

impl FromSpecImpl<Declaration<Pending>> for Declaration<Inspecting> {
    open spec fn obeys_from_spec() -> bool {
        true
    }

    open spec fn from_spec(v: Declaration<Pending>) -> Self {
        v.retagged()
    }
}

impl From<Declaration<Inspecting>> for Declaration<Pending> {
    /// The inspector hands the declaration back to be queued again.
    fn from(value: Declaration<Inspecting>) -> (r: Self)
        ensures
            r@ == value@,
    {
        copy(value)
    }
}

impl FromSpecImpl<Declaration<Inspecting>> for Declaration<Pending> {
    open spec fn obeys_from_spec() -> bool {
        true
    }

    open spec fn from_spec(v: Declaration<Inspecting>) -> Self {
        v.retagged()
    }
}

impl From<Declaration<Inspecting>> for Declaration<Approved> {
    /// The verdict is acceptance. Who decides, and by what rule, is the
    /// caller's matter.
    fn from(value: Declaration<Inspecting>) -> (r: Self)
        ensures
            r@ == value@,
    {
        copy(value)
    }
}

impl FromSpecImpl<Declaration<Inspecting>> for Declaration<Approved> {
    open spec fn obeys_from_spec() -> bool {
        true
    }

    open spec fn from_spec(v: Declaration<Inspecting>) -> Self {
        v.retagged()
    }
}

impl From<Declaration<Inspecting>> for Declaration<Rejected> {
    /// The verdict is refusal. Who decides, and by what rule, is the
    /// caller's matter.
    fn from(value: Declaration<Inspecting>) -> (r: Self)
        ensures
            r@ == value@,
    {
        copy(value)
    }
}

impl FromSpecImpl<Declaration<Inspecting>> for Declaration<Rejected> {
    open spec fn obeys_from_spec() -> bool {
        true
    }

    open spec fn from_spec(v: Declaration<Inspecting>) -> Self {
        v.retagged()
    }
}

impl<State> Declaration<State> {
    /// The identifier, unique in the whole system.
    pub fn id(&self) -> (r: u128)
        ensures
            r == self@.id,
    {
        self.id
    }

    /// The identifier of the signer.
    pub fn signed_by(&self) -> (r: u128)
        ensures
            r == self@.signed_by,
    {
        self.signed_by
    }

    /// The identifier of the inspector who took the declaration up, if one did.
    pub fn inspected_by(&self) -> (r: Option<u128>)
        ensures
            r == self@.inspected_by,
    {
        self.inspected_by
    }

    /// The price of the product.
    pub fn product_price(&self) -> (r: u64)
        ensures
            r == self@.product_price,
    {
        self.product_price
    }

    /// How many of the product.
    pub fn product_quantity(&self) -> (r: i64)
        ensures
            r == self@.product_quantity,
    {
        self.product_quantity
    }

    /// The weight of the product.
    pub fn product_weight(&self) -> (r: u64)
        ensures
            r == self@.product_weight,
    {
        self.product_weight
    }

    /// When the declaration was created.
    pub fn created_at(&self) -> (r: Timestamp)
        ensures
            r == self@.created_at,
    {
        self.created_at
    }

    /// When the declaration was last changed.
    pub fn updated_at(&self) -> (r: Timestamp)
        ensures
            r == self@.updated_at,
    {
        self.updated_at
    }

    /// The name of the product.
    pub fn product_name_ref(&self) -> (r: &str)
        ensures
            r@ == self@.product_name,
    {
        self.product_name.as_str()
    }

    /// The code of the product.
    pub fn product_code_ref(&self) -> (r: &str)
        ensures
            r@ == self@.product_code,
    {
        self.product_code.as_str()
    }

    /// The description of the product.
    pub fn product_description_ref(&self) -> (r: &str)
        ensures
            r@ == self@.product_description,
    {
        self.product_description.as_str()
    }

    /// The kind of transport.
    pub fn transport_type_ref(&self) -> (r: &str)
        ensures
            r@ == self@.transport_type,
    {
        self.transport_type.as_str()
    }

    /// The name of the carrier.
    pub fn transport_name_ref(&self) -> (r: &str)
        ensures
            r@ == self@.transport_name,
    {
        self.transport_name.as_str()
    }

    /// The name of the sender.
    pub fn sender_name_ref(&self) -> (r: &str)
        ensures
            r@ == self@.sender_name,
    {
        self.sender_name.as_str()
    }

    /// The name of the receiver.
    pub fn receiver_name_ref(&self) -> (r: &str)
        ensures
            r@ == self@.receiver_name,
    {
        self.receiver_name.as_str()
    }

    /// Where the goods go.
    pub fn destination_ref(&self) -> (r: &str)
        ensures
            r@ == self@.destination,
    {
        self.destination.as_str()
    }

    /// Where the goods leave from.
    pub fn departure_ref(&self) -> (r: &str)
        ensures
            r@ == self@.departure,
    {
        self.departure.as_str()
    }
}

impl<State: Editable> Declaration<State> {
    pub fn set_id(&mut self, value: u128)
        ensures
            final(self)@ == (DeclarationView { id: value, ..old(self)@ }),
    {
        self.id = value;
    }

    pub fn set_signed_by(&mut self, value: u128)
        ensures
            final(self)@ == (DeclarationView { signed_by: value, ..old(self)@ }),
    {
        self.signed_by = value;
    }

    pub fn set_inspected_by(&mut self, value: Option<u128>)
        ensures
            final(self)@ == (DeclarationView { inspected_by: value, ..old(self)@ }),
    {
        self.inspected_by = value;
    }

    pub fn set_product_price(&mut self, value: u64)
        ensures
            final(self)@ == (DeclarationView { product_price: value, ..old(self)@ }),
    {
        self.product_price = value;
    }

    pub fn set_product_quantity(&mut self, value: i64)
        ensures
            final(self)@ == (DeclarationView { product_quantity: value, ..old(self)@ }),
    {
        self.product_quantity = value;
    }

    pub fn set_product_weight(&mut self, value: u64)
        ensures
            final(self)@ == (DeclarationView { product_weight: value, ..old(self)@ }),
    {
        self.product_weight = value;
    }

    pub fn set_created_at(&mut self, value: Timestamp)
        ensures
            final(self)@ == (DeclarationView { created_at: value, ..old(self)@ }),
    {
        self.created_at = value;
    }

    pub fn set_updated_at(&mut self, value: Timestamp)
        ensures
            final(self)@ == (DeclarationView { updated_at: value, ..old(self)@ }),
    {
        self.updated_at = value;
    }

    pub fn set_product_name(&mut self, value: &str)
        ensures
            final(self)@ == (DeclarationView { product_name: value@, ..old(self)@ }),
    {
        self.product_name = value.to_owned();
    }

    pub fn set_product_code(&mut self, value: &str)
        ensures
            final(self)@ == (DeclarationView { product_code: value@, ..old(self)@ }),
    {
        self.product_code = value.to_owned();
    }

    pub fn set_product_description(&mut self, value: &str)
        ensures
            final(self)@ == (DeclarationView { product_description: value@, ..old(self)@ }),
    {
        self.product_description = value.to_owned();
    }

    pub fn set_transport_type(&mut self, value: &str)
        ensures
            final(self)@ == (DeclarationView { transport_type: value@, ..old(self)@ }),
    {
        self.transport_type = value.to_owned();
    }

    pub fn set_transport_name(&mut self, value: &str)
        ensures
            final(self)@ == (DeclarationView { transport_name: value@, ..old(self)@ }),
    {
        self.transport_name = value.to_owned();
    }

    pub fn set_sender_name(&mut self, value: &str)
        ensures
            final(self)@ == (DeclarationView { sender_name: value@, ..old(self)@ }),
    {
        self.sender_name = value.to_owned();
    }

    pub fn set_receiver_name(&mut self, value: &str)
        ensures
            final(self)@ == (DeclarationView { receiver_name: value@, ..old(self)@ }),
    {
        self.receiver_name = value.to_owned();
    }

    pub fn set_destination(&mut self, value: &str)
        ensures
            final(self)@ == (DeclarationView { destination: value@, ..old(self)@ }),
    {
        self.destination = value.to_owned();
    }

    pub fn set_departure(&mut self, value: &str)
        ensures
            final(self)@ == (DeclarationView { departure: value@, ..old(self)@ }),
    {
        self.departure = value.to_owned();
    }
}

/// The five states, as values.
#[derive(Clone, Copy, PartialEq, Eq, Structural, Debug)]
pub enum Stage {
    Draft,
    Pending,
    Inspecting,
    Approved,
    Rejected,
}

impl Stage {
    /// The name under which the state is written down.
    pub open spec fn label(self) -> Seq<char> {
        match self {
            Stage::Draft => "draft"@,
            Stage::Pending => "pending"@,
            Stage::Inspecting => "inspecting"@,
            Stage::Approved => "approved"@,
            Stage::Rejected => "rejected"@,
        }
    }

    /// The name under which the state is written down.
    pub fn name(&self) -> (r: &'static str)
        ensures
            r@ == self.label(),
    {
        match self {
            Stage::Draft => "draft",
            Stage::Pending => "pending",
            Stage::Inspecting => "inspecting",
            Stage::Approved => "approved",
            Stage::Rejected => "rejected",
        }
    }
}

/// The state that a name stands for, if it is the name of one.
pub open spec fn stage_named(name: Seq<char>) -> Option<Stage> {
    if name == Stage::Draft.label() {
        Some(Stage::Draft)
    } else if name == Stage::Pending.label() {
        Some(Stage::Pending)
    } else if name == Stage::Inspecting.label() {
        Some(Stage::Inspecting)
    } else if name == Stage::Approved.label() {
        Some(Stage::Approved)
    } else if name == Stage::Rejected.label() {
        Some(Stage::Rejected)
    } else {
        None
    }
}

/// Every state is the one that its own name stands for.
pub proof fn stage_named_own_label(stage: Stage)
    ensures
        stage_named(stage.label()) == Some(stage),
{
    reveal_strlit("draft");
    reveal_strlit("pending");
    reveal_strlit("inspecting");
    reveal_strlit("approved");
    reveal_strlit("rejected");
    assert("draft"@.len() == 5);
    assert("pending"@.len() == 7);
    assert("inspecting"@.len() == 10);
    assert("approved"@.len() == 8);
    assert("rejected"@.len() == 8);
    assert("approved"@[0] == 'a');
    assert("rejected"@[0] == 'r');
}

/// Whether two texts are the same.
fn same_text(a: &str, b: &str) -> (r: bool)
    ensures
        r == (a@ == b@),
{
    a.to_owned() == b.to_owned()
}

impl Stage {
    /// The state that a name stands for, if it is the name of one.
    pub fn from_name(name: &str) -> (r: Option<Stage>)
        ensures
            r == stage_named(name@),
    {
        if same_text(name, Stage::Draft.name()) {
            Some(Stage::Draft)
        } else if same_text(name, Stage::Pending.name()) {
            Some(Stage::Pending)
        } else if same_text(name, Stage::Inspecting.name()) {
            Some(Stage::Inspecting)
        } else if same_text(name, Stage::Approved.name()) {
            Some(Stage::Approved)
        } else if same_text(name, Stage::Rejected.name()) {
            Some(Stage::Rejected)
        } else {
            None
        }
    }
}

/// A declaration in whatever state: what a collection of declarations of
/// mixed states holds.
#[derive(PartialEq, Debug)]
pub enum DeclarationGeneric {
    Draft(Declaration<Draft>),
    Pending(Declaration<Pending>),
    Inspecting(Declaration<Inspecting>),
    Approved(Declaration<Approved>),
    Rejected(Declaration<Rejected>),
}

impl DeclarationGeneric {
    /// The state the declaration is in.
    pub open spec fn stage(self) -> Stage {
        match self {
            DeclarationGeneric::Draft(_) => Stage::Draft,
            DeclarationGeneric::Pending(_) => Stage::Pending,
            DeclarationGeneric::Inspecting(_) => Stage::Inspecting,
            DeclarationGeneric::Approved(_) => Stage::Approved,
            DeclarationGeneric::Rejected(_) => Stage::Rejected,
        }
    }

    /// What the declaration says.
    pub open spec fn content(self) -> DeclarationView {
        match self {
            DeclarationGeneric::Draft(d) => d@,
            DeclarationGeneric::Pending(d) => d@,
            DeclarationGeneric::Inspecting(d) => d@,
            DeclarationGeneric::Approved(d) => d@,
            DeclarationGeneric::Rejected(d) => d@,
        }
    }

    /// The state the declaration is in.
    pub fn current_stage(&self) -> (r: Stage)
        ensures
            r == self.stage(),
    {
        match self {
            DeclarationGeneric::Draft(_) => Stage::Draft,
            DeclarationGeneric::Pending(_) => Stage::Pending,
            DeclarationGeneric::Inspecting(_) => Stage::Inspecting,
            DeclarationGeneric::Approved(_) => Stage::Approved,
            DeclarationGeneric::Rejected(_) => Stage::Rejected,
        }
    }

    /// The identifier of the declaration.
    pub fn id(&self) -> (r: u128)
        ensures
            r == self.content().id,
    {
        match self {
            DeclarationGeneric::Draft(d) => d.id(),
            DeclarationGeneric::Pending(d) => d.id(),
            DeclarationGeneric::Inspecting(d) => d.id(),
            DeclarationGeneric::Approved(d) => d.id(),
            DeclarationGeneric::Rejected(d) => d.id(),
        }
    }

}

/// What a declaration of whatever state says, and the state it is in.
pub ghost struct GenericView {
    pub stage: Stage,
    pub content: DeclarationView,
}

impl View for DeclarationGeneric {
    type V = GenericView;

    open spec fn view(&self) -> GenericView {
        GenericView { stage: self.stage(), content: self.content() }
    }
}

impl Clone for DeclarationGeneric {
    fn clone(&self) -> (r: Self)
        ensures
            r@ == self@,
    {
        match self {
            DeclarationGeneric::Draft(d) => DeclarationGeneric::Draft(d.clone()),
            DeclarationGeneric::Pending(d) => DeclarationGeneric::Pending(d.clone()),
            DeclarationGeneric::Inspecting(d) => DeclarationGeneric::Inspecting(d.clone()),
            DeclarationGeneric::Approved(d) => DeclarationGeneric::Approved(d.clone()),
            DeclarationGeneric::Rejected(d) => DeclarationGeneric::Rejected(d.clone()),
        }
    }
}

/// What an archive of declarations of mixed states says: each identifier
/// with the state and content of the declaration kept under it.
pub open spec fn shelf(archive: Map<u128, DeclarationGeneric>) -> Map<u128, GenericView> {
    archive.map_values(|g: DeclarationGeneric| g@)
}

impl Default for DeclarationGeneric {
    /// A blank draft.
    fn default() -> (r: Self)
        ensures
            r.stage() == Stage::Draft,
            r.content() == DeclarationView::blank(),
    {
        DeclarationGeneric::Draft(Declaration::<Draft>::default())
    }
}

/// Reading a declaration of unknown state as one of the state `T`.
pub trait GenericDowncast<'a, T: 'a> {
    /// The declaration, if `T` is the state it is in; nothing otherwise.
    spec fn downcast_spec(&self) -> Option<T>;

    /// The declaration, if `T` is the state it is in; nothing otherwise.
    fn downcast(&'a self) -> (r: Option<&'a T>)
        ensures
            r is Some <==> self.downcast_spec() is Some,
            r is Some ==> *r->0 == self.downcast_spec()->0,
    ;
}

impl GenericDowncast<'_, Declaration<Draft>> for DeclarationGeneric {
    open spec fn downcast_spec(&self) -> Option<Declaration<Draft>> {
        match self {
            Self::Draft(decl) => Some(*decl),
            _ => None,
        }
    }

    fn downcast(&self) -> (r: Option<&Declaration<Draft>>) {
        match self {
            Self::Draft(decl) => Some(decl),
            _ => None,
        }
    }
}

impl GenericDowncast<'_, Declaration<Pending>> for DeclarationGeneric {
    open spec fn downcast_spec(&self) -> Option<Declaration<Pending>> {
        match self {
            Self::Pending(decl) => Some(*decl),
            _ => None,
        }
    }

    fn downcast(&self) -> (r: Option<&Declaration<Pending>>) {
        match self {
            Self::Pending(decl) => Some(decl),
            _ => None,
        }
    }
}

impl GenericDowncast<'_, Declaration<Inspecting>> for DeclarationGeneric {
    open spec fn downcast_spec(&self) -> Option<Declaration<Inspecting>> {
        match self {
            Self::Inspecting(decl) => Some(*decl),
            _ => None,
        }
    }

    fn downcast(&self) -> (r: Option<&Declaration<Inspecting>>) {
        match self {
            Self::Inspecting(decl) => Some(decl),
            _ => None,
        }
    }
}

impl GenericDowncast<'_, Declaration<Approved>> for DeclarationGeneric {
    open spec fn downcast_spec(&self) -> Option<Declaration<Approved>> {
        match self {
            Self::Approved(decl) => Some(*decl),
            _ => None,
        }
    }

    fn downcast(&self) -> (r: Option<&Declaration<Approved>>) {
        match self {
            Self::Approved(decl) => Some(decl),
            _ => None,
        }
    }
}

impl GenericDowncast<'_, Declaration<Rejected>> for DeclarationGeneric {
    open spec fn downcast_spec(&self) -> Option<Declaration<Rejected>> {
        match self {
            Self::Rejected(decl) => Some(*decl),
            _ => None,
        }
    }

    fn downcast(&self) -> (r: Option<&Declaration<Rejected>>) {
        match self {
            Self::Rejected(decl) => Some(decl),
            _ => None,
        }
    }
}

/// A declaration of unknown state reads as a declaration of the state it
/// is in, with its content, and as no other: of the five readings exactly
/// one answers.
pub proof fn downcast_answers_own_state_only(g: DeclarationGeneric)
    ensures
        GenericDowncast::<Declaration<Draft>>::downcast_spec(&g) is Some <==> g.stage()
            == Stage::Draft,
        GenericDowncast::<Declaration<Pending>>::downcast_spec(&g) is Some <==> g.stage()
            == Stage::Pending,
        GenericDowncast::<Declaration<Inspecting>>::downcast_spec(&g) is Some <==> g.stage()
            == Stage::Inspecting,
        GenericDowncast::<Declaration<Approved>>::downcast_spec(&g) is Some <==> g.stage()
            == Stage::Approved,
        GenericDowncast::<Declaration<Rejected>>::downcast_spec(&g) is Some <==> g.stage()
            == Stage::Rejected,
        GenericDowncast::<Declaration<Draft>>::downcast_spec(&g) is Some
            ==> GenericDowncast::<Declaration<Draft>>::downcast_spec(&g)->0@ == g.content(),
        GenericDowncast::<Declaration<Pending>>::downcast_spec(&g) is Some
            ==> GenericDowncast::<Declaration<Pending>>::downcast_spec(&g)->0@ == g.content(),
        GenericDowncast::<Declaration<Inspecting>>::downcast_spec(&g) is Some
            ==> GenericDowncast::<Declaration<Inspecting>>::downcast_spec(&g)->0@ == g.content(),
        GenericDowncast::<Declaration<Approved>>::downcast_spec(&g) is Some
            ==> GenericDowncast::<Declaration<Approved>>::downcast_spec(&g)->0@ == g.content(),
        GenericDowncast::<Declaration<Rejected>>::downcast_spec(&g) is Some
            ==> GenericDowncast::<Declaration<Rejected>>::downcast_spec(&g)->0@ == g.content(),
{
}

/// What a tax assessment says.
pub ghost struct TaxView {
    pub id: u128,
    pub declaration_id: u128,
    pub inspector_id: u128,
    pub receiver_id: u128,
    pub created_at: Timestamp,
    pub incorrect_fields: usize,
    pub price: u128,
}

/// The outcome of holding a corrected declaration against the one submitted:
/// how many fields were wrong, and what that costs the signer.
#[derive(PartialEq, Debug)]
pub struct Tax {
    id: u128,
    declaration_id: u128,
    inspector_id: u128,
    receiver_id: u128,
    created_at: Timestamp,
    incorrect_fields: usize,
    price: u128,
}

impl View for Tax {
    type V = TaxView;

    closed spec fn view(&self) -> TaxView {
        TaxView {
            id: self.id,
            declaration_id: self.declaration_id,
            inspector_id: self.inspector_id,
            receiver_id: self.receiver_id,
            created_at: self.created_at,
            incorrect_fields: self.incorrect_fields,
            price: self.price,
        }
    }
}

impl Clone for Tax {
    fn clone(&self) -> (r: Self)
        ensures
            r@ == self@,
    {
        Tax {
            id: self.id,
            declaration_id: self.declaration_id,
            inspector_id: self.inspector_id,
            receiver_id: self.receiver_id,
            created_at: self.created_at,
            incorrect_fields: self.incorrect_fields,
            price: self.price,
        }
    }
}

impl Tax {
    /// An assessment of nothing: four fresh random identifiers, for itself,
    /// the declaration, the inspector and the payer, the current time, no
    /// wrong field and no price.
    pub fn new() -> (r: Self)
        ensures
            is_random_id(r@.id),
            is_random_id(r@.declaration_id),
            is_random_id(r@.inspector_id),
            is_random_id(r@.receiver_id),
            r@.incorrect_fields == 0,
            r@.price == 0,
    {
        Tax {
            id: fresh_id(),
            declaration_id: fresh_id(),
            inspector_id: fresh_id(),
            receiver_id: fresh_id(),
            created_at: now(),
            incorrect_fields: 0,
            price: 0,
        }
    }

    pub fn id(&self) -> (r: u128)
        ensures
            r == self@.id,
    {
        self.id
    }

    pub fn declaration_id(&self) -> (r: u128)
        ensures
            r == self@.declaration_id,
    {
        self.declaration_id
    }

    pub fn inspector_id(&self) -> (r: u128)
        ensures
            r == self@.inspector_id,
    {
        self.inspector_id
    }

    pub fn receiver_id(&self) -> (r: u128)
        ensures
            r == self@.receiver_id,
    {
        self.receiver_id
    }

    pub fn created_at(&self) -> (r: Timestamp)
        ensures
            r == self@.created_at,
    {
        self.created_at
    }

    pub fn incorrect_fields(&self) -> (r: usize)
        ensures
            r == self@.incorrect_fields,
    {
        self.incorrect_fields
    }

    pub fn price(&self) -> (r: u128)
        ensures
            r == self@.price,
    {
        self.price
    }

    pub fn set_id(&mut self, value: u128)
        ensures
            final(self)@ == (TaxView { id: value, ..old(self)@ }),
    {
        self.id = value;
    }

    pub fn set_declaration_id(&mut self, value: u128)
        ensures
            final(self)@ == (TaxView { declaration_id: value, ..old(self)@ }),
    {
        self.declaration_id = value;
    }

    pub fn set_inspector_id(&mut self, value: u128)
        ensures
            final(self)@ == (TaxView { inspector_id: value, ..old(self)@ }),
    {
        self.inspector_id = value;
    }

    pub fn set_receiver_id(&mut self, value: u128)
        ensures
            final(self)@ == (TaxView { receiver_id: value, ..old(self)@ }),
    {
        self.receiver_id = value;
    }

    pub fn set_created_at(&mut self, value: Timestamp)
        ensures
            final(self)@ == (TaxView { created_at: value, ..old(self)@ }),
    {
        self.created_at = value;
    }

    pub fn set_incorrect_fields(&mut self, value: usize)
        ensures
            final(self)@ == (TaxView { incorrect_fields: value, ..old(self)@ }),
    {
        self.incorrect_fields = value;
    }

    pub fn set_price(&mut self, value: u128)
        ensures
            final(self)@ == (TaxView { price: value, ..old(self)@ }),
    {
        self.price = value;
    }
}

/// What a billing says.
pub ghost struct BillingView {
    pub id: u128,
    pub declaration_id: u128,
    pub sender_id: u128,
    pub receiver_id: u128,
    pub created_at: Timestamp,
    pub price: u64,
}

impl BillingView {
    /// The billing nobody has written yet.
    pub open spec fn blank() -> BillingView {
        BillingView {
            id: 0,
            declaration_id: 0,
            sender_id: 0,
            receiver_id: 0,
            created_at: Timestamp::epoch(),
            price: 0,
        }
    }
}

/// What a representative charges a client for a service.
#[derive(PartialEq, Debug)]
pub struct Billing {
    id: u128,
    declaration_id: u128,
    sender_id: u128,
    receiver_id: u128,
    created_at: Timestamp,
    price: u64,
}

impl View for Billing {
    type V = BillingView;

    closed spec fn view(&self) -> BillingView {
        BillingView {
            id: self.id,
            declaration_id: self.declaration_id,
            sender_id: self.sender_id,
            receiver_id: self.receiver_id,
            created_at: self.created_at,
            price: self.price,
        }
    }
}

impl Clone for Billing {
    fn clone(&self) -> (r: Self)
        ensures
            r@ == self@,
    {
        Billing {
            id: self.id,
            declaration_id: self.declaration_id,
            sender_id: self.sender_id,
            receiver_id: self.receiver_id,
            created_at: self.created_at,
            price: self.price,
        }
    }
}

impl Default for Billing {
    fn default() -> (r: Self)
        ensures
            r@ == BillingView::blank(),
    {
        Billing {
            id: 0,
            declaration_id: 0,
            sender_id: 0,
            receiver_id: 0,
            created_at: Timestamp { secs: 0, nanos: 0 },
            price: 0,
        }
    }
}

impl Billing {
    /// A blank billing under a fresh random identifier.
    pub fn new() -> (r: Self)
        ensures
            is_random_id(r@.id),
            r@ == (BillingView { id: r@.id, ..BillingView::blank() }),
    {
        let mut r = Billing::default();
        r.id = fresh_id();
        r
    }

    pub fn id(&self) -> (r: u128)
        ensures
            r == self@.id,
    {
        self.id
    }

    pub fn declaration_id(&self) -> (r: u128)
        ensures
            r == self@.declaration_id,
    {
        self.declaration_id
    }

    pub fn sender_id(&self) -> (r: u128)
        ensures
            r == self@.sender_id,
    {
        self.sender_id
    }

    pub fn receiver_id(&self) -> (r: u128)
        ensures
            r == self@.receiver_id,
    {
        self.receiver_id
    }

    pub fn created_at(&self) -> (r: Timestamp)
        ensures
            r == self@.created_at,
    {
        self.created_at
    }

    pub fn price(&self) -> (r: u64)
        ensures
            r == self@.price,
    {
        self.price
    }

    pub fn set_id(&mut self, value: u128)
        ensures
            final(self)@ == (BillingView { id: value, ..old(self)@ }),
    {
        self.id = value;
    }

    pub fn set_declaration_id(&mut self, value: u128)
        ensures
            final(self)@ == (BillingView { declaration_id: value, ..old(self)@ }),
    {
        self.declaration_id = value;
    }

    pub fn set_sender_id(&mut self, value: u128)
        ensures
            final(self)@ == (BillingView { sender_id: value, ..old(self)@ }),
    {
        self.sender_id = value;
    }

    pub fn set_receiver_id(&mut self, value: u128)
        ensures
            final(self)@ == (BillingView { receiver_id: value, ..old(self)@ }),
    {
        self.receiver_id = value;
    }

    pub fn set_created_at(&mut self, value: Timestamp)
        ensures
            final(self)@ == (BillingView { created_at: value, ..old(self)@ }),
    {
        self.created_at = value;
    }

    pub fn set_price(&mut self, value: u64)
        ensures
            final(self)@ == (BillingView { price: value, ..old(self)@ }),
    {
        self.price = value;
    }
}

/// A paper that passes between the parts of the system.
pub enum Document {
    Declaration(Declaration),
    Billing(Billing),
    Tax(Tax),
}

} // verus!
