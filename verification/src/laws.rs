//! What holds of the operations on every well-formed state of the tables.

use crate::amount::{
    round_half_away, EXCHANGE_RATE_KWACHA_PER_USDC, MICROS_PER_HUNDREDTH, MICROS_PER_UNIT,
};
use crate::error::{InsertFault, Privilege, RequestError};
use crate::ledger::LedgerView;
use crate::model::{Admin, Identity, RequestStatus, RequestView, Timestamp};
use crate::notes::note_separator;
use crate::operations::{
    admin_grant_decision, admin_grant_effect, admin_update_decision, admin_update_effect, answer,
    create_effect, create_outcome, listing_outcome, user_completion_decision,
    user_completion_effect,
};
use crate::rules::revised;
use vstd::prelude::*;

verus! {

/// A request for a positive amount is created, as long as the table has an
/// identifier left: the new row stands under the next identifier, which
/// was not in use; it belongs to the sender, is pending, and holds the
/// amount times the rate, rounded to hundredths. No other row and no
/// administrator changes.
pub proof fn positive_amount_creates_pending_request(
    tables: LedgerView,
    sender: Identity,
    timestamp: Timestamp,
    user_wallet_address: Seq<char>,
    phone_number: Seq<char>,
    full_name: Seq<char>,
    usdc_micros: int,
    notes: Seq<char>,
)
    requires
        tables.wf(),
        usdc_micros > 0,
        tables.next_request_id < u64::MAX,
    ensures
        create_outcome(tables, usdc_micros) == Ok::<(), RequestError>(()),
        ({
            let after = create_effect(
                tables,
                sender,
                timestamp,
                user_wallet_address,
                phone_number,
                full_name,
                usdc_micros,
                notes,
            );
            let id = tables.next_request_id;
            let created = after.requests[id];
            &&& !tables.requests.contains_key(id)
            &&& after.requests.dom() == tables.requests.dom().insert(id)
            &&& after.request_count() == tables.request_count() + 1
            &&& created.request_id == id
            &&& created.user_identity == sender
            &&& created.status == RequestStatus::Pending
            &&& created.kwacha_amount == round_half_away(
                usdc_micros * EXCHANGE_RATE_KWACHA_PER_USDC,
                MICROS_PER_UNIT as int,
            )
            &&& created.usdc_amount == round_half_away(usdc_micros, MICROS_PER_HUNDREDTH as int)
            &&& created.created_at == timestamp
            &&& created.user_wallet_address == user_wallet_address
            &&& created.phone_number == phone_number
            &&& created.full_name == full_name
            &&& created.notes == notes
            &&& forall|other: u64|
                tables.requests.contains_key(other) ==> after.requests[other]
                    == tables.requests[other]
            &&& after.admins == tables.admins
            &&& after.next_request_id == id + 1
        }),
{
}

/// A request for an amount that is not positive is refused as invalid, and
/// nothing is inserted.
pub proof fn non_positive_amount_is_refused(
    tables: LedgerView,
    sender: Identity,
    timestamp: Timestamp,
    user_wallet_address: Seq<char>,
    phone_number: Seq<char>,
    full_name: Seq<char>,
    usdc_micros: int,
    notes: Seq<char>,
)
    requires
        usdc_micros <= 0,
    ensures
        create_outcome(tables, usdc_micros) == Err::<(), RequestError>(RequestError::Validation),
        create_effect(
            tables,
            sender,
            timestamp,
            user_wallet_address,
            phone_number,
            full_name,
            usdc_micros,
            notes,
        ) == tables,
{
}

/// While the registry is empty, any caller may add the first
/// administrator.
pub proof fn anyone_adds_the_first_admin(
    tables: LedgerView,
    sender: Identity,
    timestamp: Timestamp,
    identity: Identity,
)
    requires
        tables.wf(),
        tables.admin_count() == 0,
    ensures
        answer(admin_grant_decision(tables, sender, timestamp, identity)) == Ok::<
            (),
            RequestError,
        >(()),
        admin_grant_effect(tables, sender, timestamp, identity).admins == Map::<
            Identity,
            Admin,
        >::empty().insert(identity, Admin { identity, added_at: timestamp }),
{
}

/// Once the registry has a member, a caller who is none is refused and the
/// registry stays as it is.
pub proof fn only_admins_add_admins(
    tables: LedgerView,
    sender: Identity,
    timestamp: Timestamp,
    identity: Identity,
)
    requires
        tables.wf(),
        tables.admin_count() > 0,
        !tables.is_admin(sender),
    ensures
        answer(admin_grant_decision(tables, sender, timestamp, identity)) == Err::<
            (),
            RequestError,
        >(RequestError::Authorization(Privilege::AddAdmin)),
        admin_grant_effect(tables, sender, timestamp, identity) == tables,
{
}

/// Adding an identity that is already an administrator changes nothing,
/// whoever asks; asked by an administrator it succeeds.
pub proof fn adding_an_admin_again_changes_nothing(
    tables: LedgerView,
    sender: Identity,
    timestamp: Timestamp,
    identity: Identity,
)
    requires
        tables.wf(),
        tables.is_admin(identity),
    ensures
        admin_grant_effect(tables, sender, timestamp, identity) == tables,
        tables.is_admin(sender) ==> answer(
            admin_grant_decision(tables, sender, timestamp, identity),
        ) == Ok::<(), RequestError>(()),
{
}

/// Adding an administrator is idempotent: after one successful addition of
/// an identity, a second one leaves the registry unchanged in size and in
/// content.
pub proof fn add_admin_is_idempotent(
    tables: LedgerView,
    first_sender: Identity,
    first_time: Timestamp,
    second_sender: Identity,
    second_time: Timestamp,
    identity: Identity,
)
    requires
        tables.wf(),
        answer(admin_grant_decision(tables, first_sender, first_time, identity)) is Ok,
    ensures
        ({
            let once = admin_grant_effect(tables, first_sender, first_time, identity);
            let twice = admin_grant_effect(once, second_sender, second_time, identity);
            &&& once.wf()
            &&& once.is_admin(identity)
            &&& twice == once
            &&& twice.admins == once.admins
            &&& twice.admin_count() == once.admin_count()
            &&& once.is_admin(second_sender) ==> answer(
                admin_grant_decision(once, second_sender, second_time, identity),
            ) == Ok::<(), RequestError>(())
        }),
{
}

/// A caller who is no administrator can neither change a request's status
/// nor open the dashboard: both are refused, and the tables stay as they
/// are.
pub proof fn non_admin_is_refused(
    tables: LedgerView,
    sender: Identity,
    request_id: u64,
    new_status: RequestStatus,
    notes: Seq<char>,
)
    requires
        !tables.is_admin(sender),
    ensures
        answer(admin_update_decision(tables, sender, request_id, new_status, notes)) == Err::<
            (),
            RequestError,
        >(RequestError::Authorization(Privilege::UpdateStatus)),
        admin_update_effect(tables, sender, request_id, new_status, notes) == tables,
        listing_outcome(tables, sender) == Err::<(), RequestError>(
            RequestError::Authorization(Privilege::AdminDashboard),
        ),
{
}

/// An administrator may give an existing request any status, whatever its
/// status was: the row gets the new status and the note, and nothing else
/// in the tables changes.
pub proof fn admin_sets_any_status(
    tables: LedgerView,
    sender: Identity,
    request_id: u64,
    new_status: RequestStatus,
    notes: Seq<char>,
)
    requires
        tables.wf(),
        tables.is_admin(sender),
        tables.requests.contains_key(request_id),
    ensures
        answer(admin_update_decision(tables, sender, request_id, new_status, notes)) == Ok::<
            (),
            RequestError,
        >(()),
        ({
            let after = admin_update_effect(tables, sender, request_id, new_status, notes);
            &&& after.requests == tables.requests.insert(
                request_id,
                revised(tables.requests[request_id], new_status, notes),
            )
            &&& after.requests[request_id].status == new_status
            &&& after.requests.dom() == tables.requests.dom()
            &&& after.admins == tables.admins
            &&& after.next_request_id == tables.next_request_id
        }),
{
}

/// A status change or a completion that names no existing request fails as
/// not found, for an administrator and for any caller.
pub proof fn missing_request_is_not_found(
    tables: LedgerView,
    sender: Identity,
    request_id: u64,
    new_status: RequestStatus,
    notes: Seq<char>,
)
    requires
        !tables.requests.contains_key(request_id),
    ensures
        tables.is_admin(sender) ==> answer(
            admin_update_decision(tables, sender, request_id, new_status, notes),
        ) == Err::<(), RequestError>(RequestError::NotFound(request_id)),
        answer(user_completion_decision(tables, sender, request_id, notes)) == Err::<
            (),
            RequestError,
        >(RequestError::NotFound(request_id)),
        admin_update_effect(tables, sender, request_id, new_status, notes) == tables,
        user_completion_effect(tables, sender, request_id, notes) == tables,
{
}

/// The owner completes a request that is pending or in progress: it
/// becomes completed, the note joins its trail, and nothing else changes.
pub proof fn owner_completes_open_request(
    tables: LedgerView,
    sender: Identity,
    request_id: u64,
    notes: Seq<char>,
)
    requires
        tables.wf(),
        tables.requests.contains_key(request_id),
        tables.requests[request_id].user_identity == sender,
        !tables.requests[request_id].status.terminal(),
    ensures
        answer(user_completion_decision(tables, sender, request_id, notes)) == Ok::<
            (),
            RequestError,
        >(()),
        ({
            let after = user_completion_effect(tables, sender, request_id, notes);
            &&& after.requests == tables.requests.insert(
                request_id,
                revised(tables.requests[request_id], RequestStatus::Completed, notes),
            )
            &&& after.requests[request_id].status == RequestStatus::Completed
            &&& after.admins == tables.admins
            &&& after.next_request_id == tables.next_request_id
        }),
{
}

/// Once a request is completed or cancelled, its owner can no longer
/// complete it: the attempt fails as an invalid state and changes nothing.
pub proof fn terminal_request_is_closed_to_owner(
    tables: LedgerView,
    sender: Identity,
    request_id: u64,
    notes: Seq<char>,
)
    requires
        tables.requests.contains_key(request_id),
        tables.requests[request_id].user_identity == sender,
        tables.requests[request_id].status.terminal(),
    ensures
        answer(user_completion_decision(tables, sender, request_id, notes)) == Err::<
            (),
            RequestError,
        >(RequestError::InvalidState),
        user_completion_effect(tables, sender, request_id, notes) == tables,
{
}

/// A request that its owner has completed cannot be completed by them a
/// second time.
pub proof fn completion_happens_once(
    tables: LedgerView,
    sender: Identity,
    request_id: u64,
    first_notes: Seq<char>,
    second_notes: Seq<char>,
)
    requires
        tables.wf(),
        answer(user_completion_decision(tables, sender, request_id, first_notes)) is Ok,
    ensures
        ({
            let once = user_completion_effect(tables, sender, request_id, first_notes);
            &&& answer(user_completion_decision(once, sender, request_id, second_notes)) == Err::<
                (),
                RequestError,
            >(RequestError::InvalidState)
            &&& user_completion_effect(once, sender, request_id, second_notes) == once
        }),
{
}

/// Only the owner completes a request: any other identity is refused, be
/// it an administrator or not, and the tables stay as they are.
pub proof fn only_the_owner_completes(
    tables: LedgerView,
    sender: Identity,
    request_id: u64,
    notes: Seq<char>,
)
    requires
        tables.requests.contains_key(request_id),
        tables.requests[request_id].user_identity != sender,
    ensures
        answer(user_completion_decision(tables, sender, request_id, notes)) == Err::<
            (),
            RequestError,
        >(RequestError::Authorization(Privilege::OwnRequest)),
        user_completion_effect(tables, sender, request_id, notes) == tables,
{
}

/// Two status changes in a row, each with a non-empty note, on a request
/// whose trail was empty leave the first note, the separator and the
/// second note.
pub proof fn successive_notes_are_joined(
    row: RequestView,
    first_status: RequestStatus,
    first_note: Seq<char>,
    second_status: RequestStatus,
    second_note: Seq<char>,
)
    requires
        row.notes.len() == 0,
        first_note.len() > 0,
        second_note.len() > 0,
    ensures
        revised(revised(row, first_status, first_note), second_status, second_note).notes
            == first_note + note_separator() + second_note,
{
}

/// A status change rewrites nothing but the status and the trail, and the
/// trail only grows: the identifier, the owner, the contact fields, both
/// amounts and the time of creation stay, and the old trail begins the
/// new one.
pub proof fn revision_keeps_creation_data(row: RequestView, status: RequestStatus, note: Seq<char>)
    ensures
        ({
            let changed = revised(row, status, note);
            &&& changed.request_id == row.request_id
            &&& changed.user_identity == row.user_identity
            &&& changed.user_wallet_address == row.user_wallet_address
            &&& changed.phone_number == row.phone_number
            &&& changed.full_name == row.full_name
            &&& changed.usdc_amount == row.usdc_amount
            &&& changed.kwacha_amount == row.kwacha_amount
            &&& changed.created_at == row.created_at
            &&& changed.status == status
            &&& row.notes.is_prefix_of(changed.notes)
            &&& note.len() == 0 ==> changed.notes == row.notes
        }),
{
}

/// Every operation is all or nothing: where it fails, the tables are what
/// they were.
pub proof fn failure_changes_nothing(
    tables: LedgerView,
    sender: Identity,
    timestamp: Timestamp,
    user_wallet_address: Seq<char>,
    phone_number: Seq<char>,
    full_name: Seq<char>,
    usdc_micros: int,
    request_id: u64,
    new_status: RequestStatus,
    identity: Identity,
    notes: Seq<char>,
)
    ensures
        create_outcome(tables, usdc_micros) is Err ==> create_effect(
            tables,
            sender,
            timestamp,
            user_wallet_address,
            phone_number,
            full_name,
            usdc_micros,
            notes,
        ) == tables,
        answer(admin_update_decision(tables, sender, request_id, new_status, notes)) is Err
            ==> admin_update_effect(tables, sender, request_id, new_status, notes) == tables,
        answer(user_completion_decision(tables, sender, request_id, notes)) is Err
            ==> user_completion_effect(tables, sender, request_id, notes) == tables,
        answer(admin_grant_decision(tables, sender, timestamp, identity)) is Err
            ==> admin_grant_effect(tables, sender, timestamp, identity) == tables,
{
}

/// A request creation fails for want of an identifier exactly when the
/// amount is positive and the last identifier has been reached.
pub proof fn creation_fails_without_identifier(tables: LedgerView, usdc_micros: int)
    ensures
        create_outcome(tables, usdc_micros) == Err::<(), RequestError>(
            RequestError::Storage(InsertFault::RequestIdsExhausted),
        ) <==> usdc_micros > 0 && tables.next_request_id == u64::MAX,
{
}

/// A later row of a request keeps what was fixed at its creation, and its
/// trail begins with the earlier trail.
pub open spec fn kept(earlier: RequestView, later: RequestView) -> bool {
    &&& later.request_id == earlier.request_id
    &&& later.user_identity == earlier.user_identity
    &&& later.user_wallet_address == earlier.user_wallet_address
    &&& later.phone_number == earlier.phone_number
    &&& later.full_name == earlier.full_name
    &&& later.usdc_amount == earlier.usdc_amount
    &&& later.kwacha_amount == earlier.kwacha_amount
    &&& later.created_at == earlier.created_at
    &&& earlier.notes.is_prefix_of(later.notes)
}

/// A step from `before` to `after` that keeps the tables well-formed,
/// removes no row, keeps every request's creation data and every
/// administrator's row, and never lowers the next identifier.
pub open spec fn sound_step(before: LedgerView, after: LedgerView) -> bool {
    &&& after.wf()
    &&& before.next_request_id <= after.next_request_id
    &&& forall|id: u64| #[trigger]
        before.requests.contains_key(id) ==> after.requests.contains_key(id) && kept(
            before.requests[id],
            after.requests[id],
        )
    &&& forall|who: Identity| #[trigger]
        before.admins.contains_key(who) ==> after.admins.contains_key(who) && after.admins[who]
            == before.admins[who]
}

/// One call of an operation, with its caller and its arguments.
pub enum Call {
    CreateExchangeRequest {
        sender: Identity,
        timestamp: Timestamp,
        user_wallet_address: Seq<char>,
        phone_number: Seq<char>,
        full_name: Seq<char>,
        usdc_micros: int,
        notes: Seq<char>,
    },
    UpdateRequestStatusAdmin {
        sender: Identity,
        request_id: u64,
        new_status: RequestStatus,
        notes: Seq<char>,
    },
    MarkRequestCompletedByUser { sender: Identity, request_id: u64, notes: Seq<char> },
    GetAllRequestsForAdmin { sender: Identity },
    AddAdmin { sender: Identity, timestamp: Timestamp, identity: Identity },
}

/// The tables after one call, whether it succeeded or failed.
pub open spec fn effect_of(tables: LedgerView, call: Call) -> LedgerView {
    match call {
        Call::CreateExchangeRequest {
            sender,
            timestamp,
            user_wallet_address,
            phone_number,
            full_name,
            usdc_micros,
            notes,
        } => create_effect(
            tables,
            sender,
            timestamp,
            user_wallet_address,
            phone_number,
            full_name,
            usdc_micros,
            notes,
        ),
        Call::UpdateRequestStatusAdmin { sender, request_id, new_status, notes } => {
            admin_update_effect(tables, sender, request_id, new_status, notes)
        },
        Call::MarkRequestCompletedByUser { sender, request_id, notes } => {
            user_completion_effect(tables, sender, request_id, notes)
        },
        Call::GetAllRequestsForAdmin { sender } => tables,
        Call::AddAdmin { sender, timestamp, identity } => admin_grant_effect(
            tables,
            sender,
            timestamp,
            identity,
        ),
    }
}

/// The tables after a series of calls, made one after the other.
pub open spec fn after_calls(tables: LedgerView, calls: Seq<Call>) -> LedgerView
    decreases calls.len(),
{
    if calls.len() == 0 {
        tables
    } else {
        effect_of(after_calls(tables, calls.drop_last()), calls.last())
    }
}

/// Every call is a sound step: it takes well-formed tables to well-formed
/// tables, removes no request and no administrator, and leaves what was
/// fixed at the creation of a request as it was.
pub proof fn every_call_is_sound(tables: LedgerView, call: Call)
    requires
        tables.wf(),
    ensures
        sound_step(tables, effect_of(tables, call)),
{
}

/// Sound steps follow one another to a sound step.
pub proof fn sound_steps_chain(first: LedgerView, second: LedgerView, third: LedgerView)
    requires
        sound_step(first, second),
        sound_step(second, third),
    ensures
        sound_step(first, third),
{
}

/// Whatever calls are made, in whatever order and by whomever, the tables
/// stay well-formed, no request and no administrator is ever removed, no
/// request loses what was fixed at its creation, and no trail loses what
/// was written to it.
pub proof fn every_history_is_sound(tables: LedgerView, calls: Seq<Call>)
    requires
        tables.wf(),
    ensures
        sound_step(tables, after_calls(tables, calls)),
    decreases calls.len(),
{
    if calls.len() > 0 {
        let earlier = after_calls(tables, calls.drop_last());
        every_history_is_sound(tables, calls.drop_last());
        every_call_is_sound(earlier, calls.last());
        sound_steps_chain(tables, earlier, effect_of(earlier, calls.last()));
    }
}

} // verus!
