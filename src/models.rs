//! Records of the payment-approval console: payment requests as the document
//! store holds them, the access grants written on approval, and the tabs of
//! the console.

use vstd::prelude::*;
use crate::text::same_text;

verus! {

/// A request to unlock a paid plan, as listed by the console.
#[derive(Debug)]
pub struct PaymentRequest {
    pub user_id: String,
    pub email: String,
    pub amount: String,
    pub plan: String,
    /// `pending`, `approved` or `denied`.
    pub status: String,
    pub txn_id: String,
    pub device: String,
    /// Path of the stored document; not part of the stored fields.
    pub doc_path: String,
}

impl Clone for PaymentRequest {
    fn clone(&self) -> (r: Self)
        ensures
            r == *self,
    {
        PaymentRequest {
            user_id: self.user_id.clone(),
            email: self.email.clone(),
            amount: self.amount.clone(),
            plan: self.plan.clone(),
            status: self.status.clone(),
            txn_id: self.txn_id.clone(),
            device: self.device.clone(),
            doc_path: self.doc_path.clone(),
        }
    }
}

/// A stored document of the payments collection.
#[derive(Debug)]
pub struct FirestoreDocument {
    pub name: String,
    pub fields: PaymentFields,
}

/// The typed fields of a stored payment document.
#[allow(non_snake_case)]
#[derive(Debug)]
pub struct PaymentFields {
    pub userId: StringValue,
    pub userEmail: StringValue,
    pub amount: StringValue,
    pub plan: StringValue,
    pub status: StringValue,
    pub txnId: StringValue,
    pub device: StringValue,
}

/// A text field of a stored document.
#[allow(non_snake_case)]
#[derive(Debug)]
pub struct StringValue {
    pub stringValue: String,
}

/// The document that grants a user access to downloads.
#[derive(Debug)]
pub struct AccessGrant {
    pub fields: AccessFields,
}

/// The typed fields of an access grant.
#[allow(non_snake_case)]
#[derive(Debug)]
pub struct AccessFields {
    pub canDownload: BooleanValue,
    pub plan: StringValue,
    pub grantedAt: StringValue,
}

/// A boolean field of a stored document.
#[allow(non_snake_case)]
#[derive(Debug)]
pub struct BooleanValue {
    pub booleanValue: bool,
}

/// A user's access as listed by the console.
#[derive(Debug)]
pub struct UserAccessRecord {
    pub user_id: String,
    pub plan: String,
    pub granted_at: String,
    pub can_download: bool,
}

/// Every payment request, whatever its status.
#[derive(Debug)]
pub struct TransactionHistory {
    pub requests: Vec<PaymentRequest>,
}

/// The tabs of the console.
#[derive(Clone, Copy, Debug, PartialEq, Eq)]
pub enum DashboardTab {
    Pending,
    ApprovedUsers,
    FullHistory,
    Statistics,
}

/// The requests of `requests` whose status is `status`, in their order.
pub open spec fn with_status(requests: Seq<PaymentRequest>, status: Seq<char>) -> Seq<
    PaymentRequest,
>
    decreases requests.len(),
{
    if requests.len() == 0 {
        Seq::empty()
    } else {
        let earlier = with_status(requests.drop_last(), status);
        if requests.last().status@ == status {
            earlier.push(requests.last())
        } else {
            earlier
        }
    }
}

/// The requests whose status is `status`, in the order given.
pub fn select_with_status(requests: &Vec<PaymentRequest>, status: &str) -> (r: Vec<
    PaymentRequest,
>)
    ensures
        r@ == with_status(requests@, status@),
{
    let mut selected: Vec<PaymentRequest> = Vec::new();
    let mut i: usize = 0;
    while i < requests.len()
        invariant
            i <= requests@.len(),
            selected@ == with_status(requests@.subrange(0, i as int), status@),
        decreases requests@.len() - i,
    {
        assert(requests@.subrange(0, i + 1).drop_last() == requests@.subrange(0, i as int));
        if same_text(requests[i].status.as_str(), status) {
            selected.push(requests[i].clone());
        }
        i = i + 1;
    }
    assert(requests@.subrange(0, requests@.len() as int) == requests@);
    selected
}

/// How many requests have status `status`.
pub fn count_with_status(requests: &Vec<PaymentRequest>, status: &str) -> (r: usize)
    ensures
        r == with_status(requests@, status@).len(),
{
    let mut count: usize = 0;
    let mut i: usize = 0;
    while i < requests.len()
        invariant
            i <= requests@.len(),
            count == with_status(requests@.subrange(0, i as int), status@).len(),
            count <= i,
        decreases requests@.len() - i,
    {
        assert(requests@.subrange(0, i + 1).drop_last() == requests@.subrange(0, i as int));
        if same_text(requests[i].status.as_str(), status) {
            count = count + 1;
        }
        i = i + 1;
    }
    assert(requests@.subrange(0, requests@.len() as int) == requests@);
    count
}

} // verus!
