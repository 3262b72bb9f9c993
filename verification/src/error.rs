//! Why an operation failed, and the text shown to the caller.

use vstd::prelude::*;
use vstd::string::*;

verus! {

/// The privilege that a refused caller lacked.
#[derive(Clone, Copy, Debug, PartialEq, Eq, Hash, Structural)]
pub enum Privilege {
    /// Changing a request's status takes an administrator.
    UpdateStatus,
    /// Completing a request takes its owner.
    OwnRequest,
    /// Opening the dashboard takes an administrator.
    AdminDashboard,
    /// Once there is an administrator, adding one takes an administrator.
    AddAdmin,
}

/// Why a table refused an insertion.
#[derive(Clone, Copy, Debug, PartialEq, Eq, Hash, Structural)]
pub enum InsertFault {
    /// The request table has no identifier left to assign.
    RequestIdsExhausted,
    /// The registry already holds the identity.
    AdminAlreadyPresent,
}

/// Why an operation failed. A failed operation has changed nothing.
#[derive(Clone, Copy, Debug, PartialEq, Eq, Hash, Structural)]
pub enum RequestError {
    /// The amount was not greater than zero.
    Validation,
    /// The caller lacks the privilege named.
    Authorization(Privilege),
    /// No request has the identifier given.
    NotFound(u64),
    /// The request is already completed or cancelled.
    InvalidState,
    /// The table refused the insertion.
    Storage(InsertFault),
}

/// The character for a decimal digit.
pub open spec fn digit_char(digit: int) -> char
    recommends
        0 <= digit < 10,
{
    if digit == 0 {
        '0'
    } else if digit == 1 {
        '1'
    } else if digit == 2 {
        '2'
    } else if digit == 3 {
        '3'
    } else if digit == 4 {
        '4'
    } else if digit == 5 {
        '5'
    } else if digit == 6 {
        '6'
    } else if digit == 7 {
        '7'
    } else if digit == 8 {
        '8'
    } else {
        '9'
    }
}

/// A number written in decimal, without leading zeros.
pub open spec fn decimal(n: nat) -> Seq<char>
    decreases n,
{
    if n < 10 {
        seq![digit_char(n as int)]
    } else {
        decimal(n / 10).push(digit_char((n % 10) as int))
    }
}

fn digit_text(digit: u64) -> (text: &'static str)
    requires
        digit < 10,
    ensures
        text@ == seq![digit_char(digit as int)],
{
    proof {
        reveal_strlit("0");
        reveal_strlit("1");
        reveal_strlit("2");
        reveal_strlit("3");
        reveal_strlit("4");
        reveal_strlit("5");
        reveal_strlit("6");
        reveal_strlit("7");
        reveal_strlit("8");
        reveal_strlit("9");
    }
    let text: &'static str = if digit == 0 {
        "0"
    } else if digit == 1 {
        "1"
    } else if digit == 2 {
        "2"
    } else if digit == 3 {
        "3"
    } else if digit == 4 {
        "4"
    } else if digit == 5 {
        "5"
    } else if digit == 6 {
        "6"
    } else if digit == 7 {
        "7"
    } else if digit == 8 {
        "8"
    } else {
        "9"
    };
    text
}

/// Writes `n` in decimal.
pub fn decimal_text(n: u64) -> (text: String)
    ensures
        text@ == decimal(n as nat),
    decreases n,
{
    if n < 10 {
        String::from_str(digit_text(n))
    } else {
        decimal_text(n / 10).concat(digit_text(n % 10))
    }
}

impl Privilege {
    /// The sentence that tells a caller which privilege was missing.
    pub open spec fn message_spec(self) -> Seq<char> {
        match self {
            Privilege::UpdateStatus => "Only admins may update request status."@,
            Privilege::OwnRequest => "You can only modify your own requests."@,
            Privilege::AdminDashboard => "Only admins may access the admin dashboard."@,
            Privilege::AddAdmin => "Only admins may add other admins."@,
        }
    }

    /// The sentence for this privilege.
    pub fn message(&self) -> (text: String)
        ensures
            text@ == self.message_spec(),
    {
        match self {
            Privilege::UpdateStatus => String::from_str("Only admins may update request status."),
            Privilege::OwnRequest => String::from_str("You can only modify your own requests."),
            Privilege::AdminDashboard => String::from_str(
                "Only admins may access the admin dashboard.",
            ),
            Privilege::AddAdmin => String::from_str("Only admins may add other admins."),
        }
    }
}

impl InsertFault {
    /// The sentence that tells a caller what the table refused.
    pub open spec fn message_spec(self) -> Seq<char> {
        match self {
            InsertFault::RequestIdsExhausted =>
                "Failed to create exchange request: no request id is left."@,
            InsertFault::AdminAlreadyPresent =>
                "Failed to add admin: the identity is already an admin."@,
        }
    }

    /// The sentence for this fault.
    pub fn message(&self) -> (text: String)
        ensures
            text@ == self.message_spec(),
    {
        match self {
            InsertFault::RequestIdsExhausted => String::from_str(
                "Failed to create exchange request: no request id is left.",
            ),
            InsertFault::AdminAlreadyPresent => String::from_str(
                "Failed to add admin: the identity is already an admin.",
            ),
        }
    }
}

impl RequestError {
    /// The text shown to the caller of a failed operation.
    pub open spec fn message_spec(self) -> Seq<char> {
        match self {
            RequestError::Validation => "USDC amount must be greater than 0."@,
            RequestError::Authorization(privilege) => privilege.message_spec(),
            RequestError::NotFound(request_id) => "Exchange request "@ + decimal(request_id as nat)
                + " not found."@,
            RequestError::InvalidState => "Request is already finalized."@,
            RequestError::Storage(fault) => fault.message_spec(),
        }
    }

    /// Renders the error for the caller.
    pub fn message(&self) -> (text: String)
        ensures
            text@ == self.message_spec(),
    {
        match self {
            RequestError::Validation => String::from_str("USDC amount must be greater than 0."),
            RequestError::Authorization(privilege) => privilege.message(),
            RequestError::NotFound(request_id) => {
                let number: String = decimal_text(*request_id);
                String::from_str("Exchange request ").concat(number.as_str()).concat(" not found.")
            },
            RequestError::InvalidState => String::from_str("Request is already finalized."),
            RequestError::Storage(fault) => fault.message(),
        }
    }
}

} // verus!
