//! The rows of the two tables and the values they are made of.

use vstd::prelude::*;

verus! {

/// Who invoked an operation: a 256-bit token issued by the host, held as
/// its high and low halves. Nothing is read from it but whether two are the
/// same.
#[derive(Clone, Copy, Debug, PartialEq, Eq, Hash, Structural)]
pub struct Identity {
    pub hi: u128,
    pub lo: u128,
}

impl Identity {
    /// The identity with the given high and low halves.
    pub fn from_halves(hi: u128, lo: u128) -> (id: Identity)
        ensures
            id == (Identity { hi, lo }),
    {
        Identity { hi, lo }
    }
}

/// A point in time, in microseconds since the Unix epoch.
#[derive(Clone, Copy, Debug, PartialEq, Eq, Hash, Structural)]
pub struct Timestamp {
    pub micros_since_unix_epoch: i64,
}

impl Timestamp {
    /// The time `micros` microseconds after the Unix epoch.
    pub fn from_micros_since_unix_epoch(micros: i64) -> (at: Timestamp)
        ensures
            at == (Timestamp { micros_since_unix_epoch: micros }),
    {
        Timestamp { micros_since_unix_epoch: micros }
    }
}

/// Where a request stands in its lifecycle.
#[derive(Clone, Copy, Debug, PartialEq, Eq, Hash, Structural)]
pub enum RequestStatus {
    Pending,
    InProgress,
    Completed,
    Cancelled,
}

impl RequestStatus {
    /// Whether the owner can no longer move the request: it is completed
    /// or cancelled.
    pub open spec fn terminal(self) -> bool {
        self == RequestStatus::Completed || self == RequestStatus::Cancelled
    }

    /// Whether the status is terminal.
    pub fn is_terminal(&self) -> (yes: bool)
        ensures
            yes == self.terminal(),
    {
        match self {
            RequestStatus::Completed | RequestStatus::Cancelled => true,
            RequestStatus::Pending | RequestStatus::InProgress => false,
        }
    }
}

/// One request to convert USDC into kwacha.
#[derive(Debug)]
pub struct ExchangeRequest {
    /// Assigned by the table on insertion; never changes.
    pub request_id: u64,
    /// The caller that created the request.
    pub user_identity: Identity,
    pub user_wallet_address: String,
    pub phone_number: String,
    pub full_name: String,
    /// In hundredths of a USDC.
    pub usdc_amount: i64,
    /// In hundredths of a kwacha; computed once, on creation.
    pub kwacha_amount: i64,
    pub status: RequestStatus,
    pub created_at: Timestamp,
    pub notes: String,
}

/// What an `ExchangeRequest` holds, with text as sequences of characters.
pub struct RequestView {
    pub request_id: u64,
    pub user_identity: Identity,
    pub user_wallet_address: Seq<char>,
    pub phone_number: Seq<char>,
    pub full_name: Seq<char>,
    pub usdc_amount: int,
    pub kwacha_amount: int,
    pub status: RequestStatus,
    pub created_at: Timestamp,
    pub notes: Seq<char>,
}

impl View for ExchangeRequest {
    type V = RequestView;

    open spec fn view(&self) -> RequestView {
        RequestView {
            request_id: self.request_id,
            user_identity: self.user_identity,
            user_wallet_address: self.user_wallet_address@,
            phone_number: self.phone_number@,
            full_name: self.full_name@,
            usdc_amount: self.usdc_amount as int,
            kwacha_amount: self.kwacha_amount as int,
            status: self.status,
            created_at: self.created_at,
            notes: self.notes@,
        }
    }
}

impl Clone for ExchangeRequest {
    fn clone(&self) -> (copy: Self)
        ensures
            copy == *self,
    {
        ExchangeRequest {
            request_id: self.request_id,
            user_identity: self.user_identity,
            user_wallet_address: self.user_wallet_address.clone(),
            phone_number: self.phone_number.clone(),
            full_name: self.full_name.clone(),
            usdc_amount: self.usdc_amount,
            kwacha_amount: self.kwacha_amount,
            status: self.status,
            created_at: self.created_at,
            notes: self.notes.clone(),
        }
    }
}

/// One member of the administrator registry.
#[derive(Clone, Copy, Debug, PartialEq, Eq, Hash, Structural)]
pub struct Admin {
    pub identity: Identity,
    /// When the membership was granted.
    pub added_at: Timestamp,
}

} // verus!
