//! The decisions of the five operations, on plain values: what was looked
//! up in the tables goes in, the row to write or the refusal comes out.
//! Nothing here touches a table.

use crate::amount::{kwacha_for, kwacha_spec, round2, round2_spec};
use crate::error::{Privilege, RequestError};
use crate::model::{Admin, ExchangeRequest, Identity, RequestStatus, RequestView, Timestamp};
use crate::notes::{append_note, joined_notes};
use vstd::prelude::*;

verus! {

/// The contents of a row that was looked up, if one was found.
pub open spec fn found_view(found: Option<ExchangeRequest>) -> Option<RequestView> {
    match found {
        Some(row) => Some(row@),
        None => None,
    }
}

/// Whether a decision that yields a row came out as `expected`.
pub open spec fn decided(
    decision: Result<ExchangeRequest, RequestError>,
    expected: Result<RequestView, RequestError>,
) -> bool {
    match expected {
        Ok(view) => decision matches Ok(row) && row@ == view,
        Err(error) => decision matches Err(e) && e == error,
    }
}

/// The row of a new request before the table has given it an identifier:
/// owned by the sender, pending, with the USDC amount rounded to
/// hundredths and the kwacha amount computed from the amount as given.
pub open spec fn drafted_request(
    sender: Identity,
    timestamp: Timestamp,
    user_wallet_address: Seq<char>,
    phone_number: Seq<char>,
    full_name: Seq<char>,
    usdc_micros: int,
    notes: Seq<char>,
) -> RequestView {
    RequestView {
        request_id: 0,
        user_identity: sender,
        user_wallet_address,
        phone_number,
        full_name,
        usdc_amount: round2_spec(usdc_micros),
        kwacha_amount: kwacha_spec(usdc_micros),
        status: RequestStatus::Pending,
        created_at: timestamp,
        notes,
    }
}

/// Whether a request for `usdc_micros` millionths of a USDC is accepted,
/// and the row it becomes.
pub open spec fn draft_outcome(
    sender: Identity,
    timestamp: Timestamp,
    user_wallet_address: Seq<char>,
    phone_number: Seq<char>,
    full_name: Seq<char>,
    usdc_micros: int,
    notes: Seq<char>,
) -> Result<RequestView, RequestError> {
    if usdc_micros <= 0 {
        Err(RequestError::Validation)
    } else {
        Ok(
            drafted_request(
                sender,
                timestamp,
                user_wallet_address,
                phone_number,
                full_name,
                usdc_micros,
                notes,
            ),
        )
    }
}

/// Validates a new request and builds its row. The amount is in millionths
/// of a USDC and must be greater than zero.
pub fn draft_exchange_request(
    sender: Identity,
    timestamp: Timestamp,
    user_wallet_address: String,
    phone_number: String,
    full_name: String,
    usdc_micros: i64,
    notes: String,
) -> (decision: Result<ExchangeRequest, RequestError>)
    ensures
        decided(
            decision,
            draft_outcome(
                sender,
                timestamp,
                user_wallet_address@,
                phone_number@,
                full_name@,
                usdc_micros as int,
                notes@,
            ),
        ),
{
    if usdc_micros <= 0 {
        return Err(RequestError::Validation);
    }
    let kwacha_amount: i64 = kwacha_for(usdc_micros);
    Ok(
        ExchangeRequest {
            request_id: 0,
            user_identity: sender,
            user_wallet_address,
            phone_number,
            full_name,
            usdc_amount: round2(usdc_micros),
            kwacha_amount,
            status: RequestStatus::Pending,
            created_at: timestamp,
            notes,
        },
    )
}

/// A row after a status change: the new status, the note added to the
/// trail, everything else as it was.
pub open spec fn revised(row: RequestView, status: RequestStatus, note: Seq<char>) -> RequestView {
    RequestView { status, notes: joined_notes(row.notes, note), ..row }
}

/// Gives `row` the status `status` and adds `note` to its trail.
pub fn revise(row: ExchangeRequest, status: RequestStatus, note: String) -> (changed:
    ExchangeRequest)
    ensures
        changed@ == revised(row@, status, note@),
{
    let ExchangeRequest {
        request_id,
        user_identity,
        user_wallet_address,
        phone_number,
        full_name,
        usdc_amount,
        kwacha_amount,
        status: _,
        created_at,
        notes,
    } = row;
    ExchangeRequest {
        request_id,
        user_identity,
        user_wallet_address,
        phone_number,
        full_name,
        usdc_amount,
        kwacha_amount,
        status,
        created_at,
        notes: append_note(notes, note),
    }
}

/// An administrator's status change: refused to a caller who is no
/// administrator, then failing on a missing request; otherwise any status
/// may follow any other.
pub open spec fn admin_update_outcome(
    caller_is_admin: bool,
    request_id: u64,
    found: Option<RequestView>,
    new_status: RequestStatus,
    note: Seq<char>,
) -> Result<RequestView, RequestError> {
    if !caller_is_admin {
        Err(RequestError::Authorization(Privilege::UpdateStatus))
    } else {
        match found {
            None => Err(RequestError::NotFound(request_id)),
            Some(row) => Ok(revised(row, new_status, note)),
        }
    }
}

/// Decides an administrator's status change. `found` is what the lookup of
/// `request_id` gave.
pub fn decide_admin_update(
    caller_is_admin: bool,
    request_id: u64,
    found: Option<ExchangeRequest>,
    new_status: RequestStatus,
    notes: String,
) -> (decision: Result<ExchangeRequest, RequestError>)
    ensures
        decided(
            decision,
            admin_update_outcome(caller_is_admin, request_id, found_view(found), new_status, notes@),
        ),
{
    if !caller_is_admin {
        return Err(RequestError::Authorization(Privilege::UpdateStatus));
    }
    match found {
        Some(row) => Ok(revise(row, new_status, notes)),
        None => Err(RequestError::NotFound(request_id)),
    }
}

/// The owner's completion of a request: failing on a missing request,
/// refused to anyone but the owner, closed once the request is completed
/// or cancelled; otherwise the request becomes completed.
pub open spec fn user_completion_outcome(
    sender: Identity,
    request_id: u64,
    found: Option<RequestView>,
    note: Seq<char>,
) -> Result<RequestView, RequestError> {
    match found {
        None => Err(RequestError::NotFound(request_id)),
        Some(row) => if row.user_identity != sender {
            Err(RequestError::Authorization(Privilege::OwnRequest))
        } else if row.status.terminal() {
            Err(RequestError::InvalidState)
        } else {
            Ok(revised(row, RequestStatus::Completed, note))
        },
    }
}

/// Decides the completion of a request by `sender`. `found` is what the
/// lookup of `request_id` gave.
pub fn decide_user_completion(
    sender: Identity,
    request_id: u64,
    found: Option<ExchangeRequest>,
    notes: String,
) -> (decision: Result<ExchangeRequest, RequestError>)
    ensures
        decided(
            decision,
            user_completion_outcome(sender, request_id, found_view(found), notes@),
        ),
{
    match found {
        None => Err(RequestError::NotFound(request_id)),
        Some(row) => {
            if row.user_identity != sender {
                return Err(RequestError::Authorization(Privilege::OwnRequest));
            }
            if row.status.is_terminal() {
                return Err(RequestError::InvalidState);
            }
            Ok(revise(row, RequestStatus::Completed, notes))
        },
    }
}

/// The dashboard is open to administrators only.
pub open spec fn dashboard_outcome(caller_is_admin: bool) -> Result<(), RequestError> {
    if caller_is_admin {
        Ok(())
    } else {
        Err(RequestError::Authorization(Privilege::AdminDashboard))
    }
}

/// Decides whether the caller may open the dashboard.
pub fn decide_dashboard_access(caller_is_admin: bool) -> (decision: Result<(), RequestError>)
    ensures
        decision == dashboard_outcome(caller_is_admin),
{
    if caller_is_admin {
        Ok(())
    } else {
        Err(RequestError::Authorization(Privilege::AdminDashboard))
    }
}

/// Adding an administrator: while the registry is empty anyone may add the
/// first one; afterwards only an administrator may. Adding one who is
/// already there succeeds and writes nothing.
pub open spec fn admin_grant_outcome(
    admin_count: nat,
    caller_is_admin: bool,
    already_admin: bool,
    identity: Identity,
    timestamp: Timestamp,
) -> Result<Option<Admin>, RequestError> {
    if admin_count > 0 && !caller_is_admin {
        Err(RequestError::Authorization(Privilege::AddAdmin))
    } else if already_admin {
        Ok(None)
    } else {
        Ok(Some(Admin { identity, added_at: timestamp }))
    }
}

/// Decides the addition of `identity` to the registry: the row to insert,
/// or none where there is nothing to write.
pub fn decide_admin_grant(
    admin_count: u64,
    caller_is_admin: bool,
    already_admin: bool,
    identity: Identity,
    timestamp: Timestamp,
) -> (decision: Result<Option<Admin>, RequestError>)
    ensures
        decision == admin_grant_outcome(
            admin_count as nat,
            caller_is_admin,
            already_admin,
            identity,
            timestamp,
        ),
{
    if admin_count > 0 && !caller_is_admin {
        return Err(RequestError::Authorization(Privilege::AddAdmin));
    }
    if already_admin {
        return Ok(None);
    }
    Ok(Some(Admin { identity, added_at: timestamp }))
}

} // verus!
