//! The ordered, append-only collection of invoices.

use vstd::prelude::*;
use crate::invoice::{
    Invoice, InvoiceStatus, InvoiceView, PaymentCallback, is_paid_request, status_text, with_paid,
};

verus! {

/// Whether some invoice in `s` carries the identifier `id`.
pub open spec fn has_id(s: Seq<InvoiceView>, id: Seq<char>) -> bool {
    exists|i: int| 0 <= i < s.len() && #[trigger] s[i].id == id
}

/// Whether `k` is the position of the first invoice in `s` with identifier `id`.
pub open spec fn is_first_match(s: Seq<InvoiceView>, id: Seq<char>, k: int) -> bool {
    &&& 0 <= k < s.len()
    &&& s[k].id == id
    &&& forall|j: int| 0 <= j < k ==> #[trigger] s[j].id != id
}

/// The position of the first invoice in `s` with identifier `id`, or the
/// length of `s` when there is none.
pub open spec fn first_match(s: Seq<InvoiceView>, id: Seq<char>) -> int
    decreases s.len(),
{
    if s.len() == 0 {
        0
    } else if s[0].id == id {
        0
    } else {
        1 + first_match(s.drop_first(), id)
    }
}

/// Whether a payment request for `id` with status `requested` is accepted.
pub open spec fn mark_paid_accepted(s: Seq<InvoiceView>, id: Seq<char>, requested: Seq<char>) -> bool {
    requested == status_text(InvoiceStatus::Paid) && has_id(s, id)
}

/// The invoices after a payment request for `id` with status `requested`:
/// the first invoice with that id is marked paid when the request is
/// accepted, and nothing changes otherwise.
pub open spec fn after_mark_paid(s: Seq<InvoiceView>, id: Seq<char>, requested: Seq<char>) -> Seq<InvoiceView> {
    if mark_paid_accepted(s, id, requested) {
        let k = first_match(s, id);
        s.update(k, with_paid(s[k]))
    } else {
        s
    }
}

/// When `s` holds `id`, `first_match` is the first position holding it.
pub proof fn lemma_first_match_exists(s: Seq<InvoiceView>, id: Seq<char>)
    requires
        has_id(s, id),
    ensures
        is_first_match(s, id, first_match(s, id)),
    decreases s.len(),
{
    if s[0].id != id {
        let rest = s.drop_first();
        let i = choose|i: int| 0 <= i < s.len() && #[trigger] s[i].id == id;
        assert(rest[i - 1] == s[i]);
        lemma_first_match_exists(rest, id);
        let k = first_match(rest, id);
        assert(rest[k] == s[k + 1]);
        assert forall|j: int| 0 <= j < k + 1 implies #[trigger] s[j].id != id by {
            if j > 0 {
                assert(rest[j - 1] == s[j]);
            }
        }
    }
}

/// The first position holding an id is the one `first_match` gives.
pub proof fn lemma_first_match_unique(s: Seq<InvoiceView>, id: Seq<char>, k: int)
    requires
        is_first_match(s, id, k),
    ensures
        first_match(s, id) == k,
{
    assert(s[k].id == id);
    lemma_first_match_exists(s, id);
    let m = first_match(s, id);
    if m < k {
        assert(s[m].id != id);
    } else if k < m {
        assert(s[k].id != id);
    }
}

/// Invoices held in the order they were added. Identifiers need not be
/// unique; lookups take the earliest.
pub struct InvoiceStore {
    invoices: Vec<Invoice>,
}

impl View for InvoiceStore {
    type V = Seq<InvoiceView>;

    closed spec fn view(&self) -> Seq<InvoiceView> {
        self.invoices@.map_values(|inv: Invoice| inv@)
    }
}

impl InvoiceStore {
    /// An empty store.
    pub fn new() -> (r: InvoiceStore)
        ensures
            r@ == Seq::<InvoiceView>::empty(),
    {
        let r = InvoiceStore { invoices: Vec::new() };
        assert(r@ =~= Seq::<InvoiceView>::empty());
        r
    }

    /// Number of invoices held.
    pub fn len(&self) -> (r: usize)
        ensures
            r == self@.len(),
    {
        self.invoices.len()
    }

    /// The invoice at position `i` in order of addition.
    pub fn get(&self, i: usize) -> (r: &Invoice)
        requires
            i < self@.len(),
        ensures
            r@ == self@[i as int],
    {
        &self.invoices[i]
    }

    /// Appends an invoice; no uniqueness check is made.
    pub fn add(&mut self, invoice: Invoice)
        ensures
            final(self)@ == old(self)@.push(invoice@),
    {
        self.invoices.push(invoice);
        assert(self@ =~= old(self)@.push(invoice@));
    }

    /// The position of the first invoice with `invoice_id`, if any.
    pub fn position(&self, invoice_id: &String) -> (r: Option<usize>)
        ensures
            match r {
                Some(k) => has_id(self@, invoice_id@) && k == first_match(self@, invoice_id@),
                None => !has_id(self@, invoice_id@),
            },
    {
        let mut i: usize = 0;
        while i < self.invoices.len()
            invariant
                i <= self@.len(),
                forall|j: int| 0 <= j < i ==> #[trigger] self@[j].id != invoice_id@,
            decreases self@.len() - i,
        {
            if self.invoices[i].invoice_id == *invoice_id {
                proof {
                    assert(is_first_match(self@, invoice_id@, i as int));
                    lemma_first_match_unique(self@, invoice_id@, i as int);
                }
                return Some(i);
            }
            i += 1;
        }
        None
    }

    /// Marks the first invoice with `invoice_id` paid when `requested_status`
    /// is `paid`. Returns whether an invoice was updated; a missing id and a
    /// status other than `paid` both leave the store as it was.
    pub fn mark_paid(&mut self, invoice_id: &String, requested_status: &String) -> (r: bool)
        ensures
            r == mark_paid_accepted(old(self)@, invoice_id@, requested_status@),
            final(self)@ == after_mark_paid(old(self)@, invoice_id@, requested_status@),
    {
        if !is_paid_request(requested_status) {
            return false;
        }
        match self.position(invoice_id) {
            Some(k) => {
                let ghost before = self@;
                proof {
                    lemma_first_match_exists(before, invoice_id@);
                }
                self.invoices[k].status = InvoiceStatus::Paid;
                assert(self@ =~= before.update(k as int, with_paid(before[k as int])));
                true
            },
            None => false,
        }
    }

    /// Applies a payment notification: delegates to `mark_paid` with the
    /// notification's id and status.
    pub fn apply(&mut self, callback: &PaymentCallback) -> (r: bool)
        ensures
            r == mark_paid_accepted(old(self)@, callback.invoice_id@, callback.status@),
            final(self)@ == after_mark_paid(old(self)@, callback.invoice_id@, callback.status@),
    {
        self.mark_paid(&callback.invoice_id, &callback.status)
    }
}

} // verus!
