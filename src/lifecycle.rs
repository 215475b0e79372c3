//! Properties of the invoice lifecycle, stated over the store's view.

use vstd::prelude::*;
use crate::invoice::{InvoiceStatus, InvoiceView, status_text, with_paid};
use crate::service::{CallbackOutcome, callback_outcome};
use crate::store::{
    after_mark_paid, has_id, is_first_match, lemma_first_match_exists,
    lemma_first_match_unique, mark_paid_accepted,
};

verus! {

/// An invoice that was added is found by a later request to mark its id
/// paid. When no earlier invoice shares its id, it is exactly that invoice
/// that becomes paid.
pub proof fn lemma_added_invoice_is_found(s: Seq<InvoiceView>, inv: InvoiceView)
    ensures
        mark_paid_accepted(s.push(inv), inv.id, status_text(InvoiceStatus::Paid)),
        callback_outcome(s.push(inv), inv.id, status_text(InvoiceStatus::Paid))
            == CallbackOutcome::Confirmed,
        !has_id(s, inv.id) ==> after_mark_paid(s.push(inv), inv.id, status_text(InvoiceStatus::Paid))
            == s.push(with_paid(inv)),
{
    let t = s.push(inv);
    assert(t[s.len() as int].id == inv.id);
    if !has_id(s, inv.id) {
        assert forall|j: int| 0 <= j < s.len() implies #[trigger] t[j].id != inv.id by {
            assert(t[j] == s[j]);
        }
        assert(is_first_match(t, inv.id, s.len() as int));
        lemma_first_match_unique(t, inv.id, s.len() as int);
        assert(t.update(s.len() as int, with_paid(inv)) =~= s.push(with_paid(inv)));
    }
}

/// Adding an invoice and applying any payment request never remove an
/// identifier from the store, so an added invoice stays findable.
pub proof fn lemma_ids_persist(
    s: Seq<InvoiceView>,
    id: Seq<char>,
    inv: InvoiceView,
    other_id: Seq<char>,
    requested: Seq<char>,
)
    requires
        has_id(s, id),
    ensures
        has_id(s.push(inv), id),
        has_id(after_mark_paid(s, other_id, requested), id),
{
    let i = choose|i: int| 0 <= i < s.len() && #[trigger] s[i].id == id;
    assert(s.push(inv)[i] == s[i]);
    if mark_paid_accepted(s, other_id, requested) {
        lemma_first_match_exists(s, other_id);
        let t = after_mark_paid(s, other_id, requested);
        assert(t[i].id == s[i].id);
    }
}

/// A payment request changes a status only to paid, and a paid invoice
/// stays paid. Identifiers, addresses, amounts and the number of invoices
/// are kept.
pub proof fn lemma_status_only_moves_to_paid(s: Seq<InvoiceView>, id: Seq<char>, requested: Seq<char>)
    ensures
        after_mark_paid(s, id, requested).len() == s.len(),
        forall|k: int|
            0 <= k < s.len() ==> {
                let n = #[trigger] after_mark_paid(s, id, requested)[k];
                &&& n.id == s[k].id
                &&& n.address == s[k].address
                &&& n.amount_sats == s[k].amount_sats
                &&& (n.status == s[k].status || n.status == InvoiceStatus::Paid)
                &&& (s[k].status == InvoiceStatus::Paid ==> n.status == InvoiceStatus::Paid)
            },
{
    if mark_paid_accepted(s, id, requested) {
        lemma_first_match_exists(s, id);
    }
}

/// A payment request whose status is not `paid` changes no invoice and is
/// rejected.
pub proof fn lemma_non_paid_request_is_inert(s: Seq<InvoiceView>, id: Seq<char>, requested: Seq<char>)
    requires
        requested != status_text(InvoiceStatus::Paid),
    ensures
        after_mark_paid(s, id, requested) == s,
        callback_outcome(s, id, requested) == CallbackOutcome::Rejected,
{
}

/// A payment request for an identifier that no invoice carries leaves the
/// store unchanged and is rejected.
pub proof fn lemma_unknown_id_is_inert(s: Seq<InvoiceView>, id: Seq<char>, requested: Seq<char>)
    requires
        !has_id(s, id),
    ensures
        after_mark_paid(s, id, requested) == s,
        callback_outcome(s, id, requested) == CallbackOutcome::Rejected,
{
}

} // verus!
