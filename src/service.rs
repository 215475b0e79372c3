//! The two operations of the invoice service: issuing an invoice and
//! applying a payment notification.

use vstd::prelude::*;
use crate::invoice::{Invoice, InvoiceView, PaymentCallback, issued_invoice};
use crate::store::{InvoiceStore, after_mark_paid, mark_paid_accepted};

verus! {

/// What a payment notification led to.
#[derive(Clone, Copy, Debug, PartialEq, Eq, Structural)]
pub enum CallbackOutcome {
    /// An invoice was found and marked paid.
    Confirmed,
    /// No invoice with that id, or a status other than `paid`.
    Rejected,
}

/// The outcome owed for a notification with `id` and `requested` status
/// against the invoices `s`.
pub open spec fn callback_outcome(s: Seq<InvoiceView>, id: Seq<char>, requested: Seq<char>) -> CallbackOutcome {
    if mark_paid_accepted(s, id, requested) {
        CallbackOutcome::Confirmed
    } else {
        CallbackOutcome::Rejected
    }
}

impl CallbackOutcome {
    /// The HTTP status code for this outcome: success or client error.
    pub fn status_code(&self) -> (r: u16)
        ensures
            r == (match self {
                CallbackOutcome::Confirmed => 200u16,
                CallbackOutcome::Rejected => 400u16,
            }),
    {
        match self {
            CallbackOutcome::Confirmed => 200,
            CallbackOutcome::Rejected => 400,
        }
    }

    /// The human-readable text reported for this outcome.
    pub fn message(&self) -> (r: &'static str)
        ensures
            r@ == (match self {
                CallbackOutcome::Confirmed => "payment confirmed, status updated"@,
                CallbackOutcome::Rejected => "payment verification failed or invalid status"@,
            }),
    {
        match self {
            CallbackOutcome::Confirmed => "payment confirmed, status updated",
            CallbackOutcome::Rejected => "payment verification failed or invalid status",
        }
    }
}

/// Issues a pending invoice for the fixed amount and address, records it
/// in the store and returns it. Always succeeds.
pub fn generate_invoice(store: &mut InvoiceStore) -> (r: Invoice)
    ensures
        r@ == issued_invoice(),
        final(store)@ == old(store)@.push(issued_invoice()),
{
    let invoice = Invoice::issue();
    store.add(invoice.duplicate());
    invoice
}

/// Applies a payment notification to the store: the first invoice with the
/// notification's id is marked paid when its status is `paid`.
pub fn payment_callback(store: &mut InvoiceStore, callback: &PaymentCallback) -> (r: CallbackOutcome)
    ensures
        r == callback_outcome(old(store)@, callback.invoice_id@, callback.status@),
        final(store)@ == after_mark_paid(old(store)@, callback.invoice_id@, callback.status@),
{
    if store.apply(callback) {
        CallbackOutcome::Confirmed
    } else {
        CallbackOutcome::Rejected
    }
}

} // verus!
