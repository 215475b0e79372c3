//! The invoice record, its status and the payment notification.

use vstd::prelude::*;

verus! {

/// Identifier given to every issued invoice.
pub const INVOICE_ID: &'static str = "invoice123";

/// Address every issued invoice asks to be paid to.
pub const PAYMENT_ADDRESS: &'static str = "bitcoincash:qr3jejs0qn6wnssw8659duv7c3nnx92f6sfsvam05w";

/// Smallest units (satoshis) in one whole coin.
pub const SATS_PER_COIN: u64 = 100_000_000;

/// Amount every issued invoice asks for, in satoshis: 0.005 of a coin.
pub const INVOICE_AMOUNT_SATS: u64 = 500_000;

/// Where an invoice stands in its lifecycle.
#[derive(Clone, Copy, Debug, PartialEq, Eq, Structural)]
pub enum InvoiceStatus {
    Pending,
    Paid,
}

/// The wire name of a status.
pub open spec fn status_text(s: InvoiceStatus) -> Seq<char> {
    match s {
        InvoiceStatus::Pending => "pending"@,
        InvoiceStatus::Paid => "paid"@,
    }
}

impl InvoiceStatus {
    /// The wire name of this status: `pending` or `paid`.
    pub fn as_str(&self) -> (r: &'static str)
        ensures
            r@ == status_text(*self),
    {
        match self {
            InvoiceStatus::Pending => "pending",
            InvoiceStatus::Paid => "paid",
        }
    }
}

/// A request for payment of an amount to an address, tracked by status.
#[derive(Debug)]
pub struct Invoice {
    pub invoice_id: String,
    pub payment_address: String,
    pub amount_sats: u64,
    pub status: InvoiceStatus,
}

/// The mathematical content of an invoice.
pub struct InvoiceView {
    pub id: Seq<char>,
    pub address: Seq<char>,
    pub amount_sats: u64,
    pub status: InvoiceStatus,
}

impl View for Invoice {
    type V = InvoiceView;

    open spec fn view(&self) -> InvoiceView {
        InvoiceView {
            id: self.invoice_id@,
            address: self.payment_address@,
            amount_sats: self.amount_sats,
            status: self.status,
        }
    }
}

/// The same invoice with its status set to paid.
pub open spec fn with_paid(v: InvoiceView) -> InvoiceView {
    InvoiceView { id: v.id, address: v.address, amount_sats: v.amount_sats, status: InvoiceStatus::Paid }
}

/// The invoice that the service issues: fixed id, address and amount, pending.
pub open spec fn issued_invoice() -> InvoiceView {
    InvoiceView {
        id: INVOICE_ID@,
        address: PAYMENT_ADDRESS@,
        amount_sats: INVOICE_AMOUNT_SATS,
        status: InvoiceStatus::Pending,
    }
}

impl Invoice {
    /// A fresh pending invoice for the fixed amount and address.
    pub fn issue() -> (r: Invoice)
        ensures
            r@ == issued_invoice(),
    {
        Invoice {
            invoice_id: INVOICE_ID.to_owned(),
            payment_address: PAYMENT_ADDRESS.to_owned(),
            amount_sats: INVOICE_AMOUNT_SATS,
            status: InvoiceStatus::Pending,
        }
    }

    /// A copy of this invoice, field by field.
    pub fn duplicate(&self) -> (r: Invoice)
        ensures
            r@ == self@,
    {
        Invoice {
            invoice_id: self.invoice_id.clone(),
            payment_address: self.payment_address.clone(),
            amount_sats: self.amount_sats,
            status: self.status,
        }
    }
}

/// A notification that an invoice has been paid. The transaction id is
/// carried but not used.
#[derive(Debug)]
pub struct PaymentCallback {
    pub invoice_id: String,
    pub status: String,
    pub txid: String,
}

/// Whether a requested status is the one that confirms payment.
pub fn is_paid_request(requested: &String) -> (r: bool)
    ensures
        r == (requested@ == status_text(InvoiceStatus::Paid)),
{
    let paid = InvoiceStatus::Paid.as_str().to_owned();
    *requested == paid
}

} // verus!
