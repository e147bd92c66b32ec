//! Those who write declarations and send them off.
use vstd::prelude::*;
use crate::errors::declaration::DeclarationError;
use crate::errors::processor::ProcessorError;
use crate::errors::AnyError;
use crate::models::customs::CustomsView;
use crate::models::declaration::{DeclarationGeneric, GenericView, Stage};
use crate::models::processor::{dispatched, unconnected, Processor};

pub mod client;
pub mod declarant;
pub mod representative;

verus! {

/// Whether an error is the refusal of a declaration with this identifier
/// that is in `actual` and not in the state that was needed.
pub open spec fn is_incorrect_state(e: AnyError, id: u128, actual: Stage) -> bool {
    match e {
        AnyError::Declaration(DeclarationError::IncorrectState(i, state)) => i == id && state@
            == actual.label(),
        _ => false,
    }
}

/// The outcome of sending off the declaration kept under `id`, by the
/// archive before and after, the offices before and after, and the result.
///
/// A complete draft goes to one connected office and is kept from then on as
/// pending, under its own identifier. Anything else is refused and changes
/// nothing: no declaration under `id`, one that is no draft, a draft that
/// is not complete, no office connected.
pub open spec fn docs_sent(
    before: Map<u128, GenericView>,
    after: Map<u128, GenericView>,
    offices_before: Map<u128, CustomsView>,
    offices_after: Map<u128, CustomsView>,
    id: u128,
    r: Result<(), AnyError>,
) -> bool {
    if !before.contains_key(id) {
        &&& r == Err::<(), AnyError>(
            AnyError::Declaration(DeclarationError::DeclarationNotFound(id)),
        )
        &&& after == before
        &&& offices_after == offices_before
    } else if before[id].stage != Stage::Draft {
        &&& r is Err
        &&& is_incorrect_state(r->Err_0, id, before[id].stage)
        &&& after == before
        &&& offices_after == offices_before
    } else if !before[id].content.is_filled() {
        &&& r == Err::<(), AnyError>(
            AnyError::Declaration(
                DeclarationError::DeclarationNotComplete(before[id].content.id),
            ),
        )
        &&& after == before
        &&& offices_after == offices_before
    } else if unconnected(offices_before) {
        &&& r == Err::<(), AnyError>(AnyError::Processor(ProcessorError::NoCustomsConnected))
        &&& after == before
        &&& offices_after == offices_before
    } else {
        &&& r is Ok
        &&& after == before.insert(
            before[id].content.id,
            GenericView { stage: Stage::Pending, content: before[id].content },
        )
        &&& exists|k: u128|
            offices_before.contains_key(k) && offices_after == #[trigger] dispatched(
                offices_before,
                k,
                before[id].content,
            )
    }
}

/// One who keeps declarations of every state and sends drafts off.
pub trait Participant {
    /// What is kept, by identifier.
    spec fn archive(&self) -> Map<u128, GenericView>;

    /// Keeps a copy of the declaration under its identifier, whatever its
    /// state, and gives back what was kept there before. This never fails.
    fn update_declaration(&mut self, declaration: &DeclarationGeneric) -> (r: Result<
        Option<DeclarationGeneric>,
        AnyError,
    >)
        ensures
            final(self).archive() == old(self).archive().insert(
                declaration@.content.id,
                declaration@,
            ),
            r is Ok,
            r->Ok_0 is Some <==> old(self).archive().contains_key(declaration@.content.id),
            r->Ok_0 is Some ==> r->Ok_0->0@ == old(self).archive()[declaration@.content.id],
    ;

    /// The declaration kept under this identifier, if there is one.
    fn get_declaration(&self, id: u128) -> (r: Option<&DeclarationGeneric>)
        ensures
            r is Some <==> self.archive().contains_key(id),
            r is Some ==> r->0@ == self.archive()[id],
    ;

    /// Sends off the draft kept under this identifier: validates it, hands
    /// it to the processor, and keeps it from then on as pending.
    fn send_docs(&mut self, proc: &mut Processor, id: u128) -> (r: Result<(), AnyError>)
        ensures
            docs_sent(old(self).archive(), final(self).archive(), old(proc)@, final(proc)@, id, r),
    ;
}

} // verus!
