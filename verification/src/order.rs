//! The order domain model: what a marketplace listing is, and which
//! listings a caller asked to see.

use vstd::prelude::*;

verus! {

/// Whether a listing offers to buy or to sell the base asset.
#[derive(Clone, Copy, Debug, PartialEq, Eq, Structural)]
pub enum OrderKind {
    Buy,
    Sell,
}

/// Lifecycle state of a listing, as published by the broker.
#[derive(Clone, Copy, Debug, PartialEq, Eq, Structural)]
pub enum Status {
    Active,
    Canceled,
    CanceledByAdmin,
    CompletedByAdmin,
    Dispute,
    Expired,
    FiatSent,
    SettledHoldInvoice,
    Pending,
    Success,
    WaitingBuyerInvoice,
    WaitingPayment,
}

/// The display name of a kind.
pub open spec fn kind_label_spec(k: OrderKind) -> Seq<char> {
    match k {
        OrderKind::Buy => "Buy"@,
        OrderKind::Sell => "Sell"@,
    }
}

impl OrderKind {
    /// The kind's display name.
    pub fn label(&self) -> (r: String)
        ensures
            r@ == kind_label_spec(*self),
    {
        match self {
            OrderKind::Buy => "Buy".to_owned(),
            OrderKind::Sell => "Sell".to_owned(),
        }
    }
}

/// The display name of a status.
pub open spec fn status_label_spec(s: Status) -> Seq<char> {
    match s {
        Status::Active => "Active"@,
        Status::Canceled => "Canceled"@,
        Status::CanceledByAdmin => "CanceledByAdmin"@,
        Status::CompletedByAdmin => "CompletedByAdmin"@,
        Status::Dispute => "Dispute"@,
        Status::Expired => "Expired"@,
        Status::FiatSent => "FiatSent"@,
        Status::SettledHoldInvoice => "SettledHoldInvoice"@,
        Status::Pending => "Pending"@,
        Status::Success => "Success"@,
        Status::WaitingBuyerInvoice => "WaitingBuyerInvoice"@,
        Status::WaitingPayment => "WaitingPayment"@,
    }
}

impl Status {
    /// The status's display name.
    pub fn label(&self) -> (r: String)
        ensures
            r@ == status_label_spec(*self),
    {
        match self {
            Status::Active => "Active".to_owned(),
            Status::Canceled => "Canceled".to_owned(),
            Status::CanceledByAdmin => "CanceledByAdmin".to_owned(),
            Status::CompletedByAdmin => "CompletedByAdmin".to_owned(),
            Status::Dispute => "Dispute".to_owned(),
            Status::Expired => "Expired".to_owned(),
            Status::FiatSent => "FiatSent".to_owned(),
            Status::SettledHoldInvoice => "SettledHoldInvoice".to_owned(),
            Status::Pending => "Pending".to_owned(),
            Status::Success => "Success".to_owned(),
            Status::WaitingBuyerInvoice => "WaitingBuyerInvoice".to_owned(),
            Status::WaitingPayment => "WaitingPayment".to_owned(),
        }
    }
}

/// One marketplace listing, decoded from a relay event payload.
///
/// The identity `id` is unique across the whole marketplace, not merely per
/// relay, which is what makes cross-relay deduplication meaningful.
#[derive(Debug)]
pub struct Order {
    pub id: i64,
    pub kind: OrderKind,
    pub status: Status,
    /// Amount of the base asset, in its smallest unit.
    pub amount: i64,
    /// ISO-style fiat currency code, e.g. `"USD"`.
    pub fiat_code: String,
    pub fiat_amount: i64,
    pub payment_method: String,
    /// Creation time as a unix timestamp.
    pub created_at: i64,
}

impl Clone for Order {
    /// A clone is equal to the original, field by field.
    fn clone(&self) -> (r: Self)
        ensures
            r == *self,
    {
        Order {
            id: self.id,
            kind: self.kind,
            status: self.status,
            amount: self.amount,
            fiat_code: self.fiat_code.clone(),
            fiat_amount: self.fiat_amount,
            payment_method: self.payment_method.clone(),
            created_at: self.created_at,
        }
    }
}

/// The caller's criteria: a conjunction of optional predicates applied to
/// each decoded order.
#[derive(Debug)]
pub struct Criteria {
    pub status: Option<Status>,
    pub currency: Option<String>,
    pub kind: Option<OrderKind>,
}

} // verus!
