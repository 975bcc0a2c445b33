use vstd::prelude::*;

verus! {

/// An actor identity: a 32-byte public key held as two 128-bit halves.
#[derive(Clone, Copy, Debug, PartialEq, Eq, Structural)]
pub struct Principal {
    pub hi: u128,
    pub lo: u128,
}

impl Principal {
    pub fn new(hi: u128, lo: u128) -> (r: Principal)
        ensures
            r.hi == hi,
            r.lo == lo,
    {
        Principal { hi, lo }
    }
}

/// The role flags of one principal within one organization.
#[derive(Clone, Copy, Debug, PartialEq, Eq, Structural)]
pub struct User {
    /// May create requests.
    pub member: bool,
    /// May approve or reject requests.
    pub approver: bool,
}

impl User {
    /// The flags of a principal that was never registered: no role at all.
    pub open spec fn none() -> User {
        User { member: false, approver: false }
    }

    pub fn no_role() -> (r: User)
        ensures
            r == User::none(),
    {
        User { member: false, approver: false }
    }
}

/// The organization record.
#[derive(Clone, Copy, Debug, PartialEq, Eq, Structural)]
pub struct Reimburse {
    /// Holder of the treasury vault; the only one who may register members.
    pub authority: Principal,
    /// Number of requests ever created; the key of the next request.
    pub num_of_reqs: u128,
    /// The asset paid out.
    pub token_mint: Principal,
    /// The vault that funds every payout.
    pub treasury_vault: Principal,
}

/// A vault of one fungible asset, owned by one principal.
#[derive(Clone, Copy, Debug, PartialEq, Eq, Structural)]
pub struct TokenVault {
    pub key: Principal,
    pub mint: Principal,
    pub owner: Principal,
}

/// Where a request stands in its lifecycle.
#[derive(Clone, Copy, Debug, PartialEq, Eq, Structural)]
pub enum RequestStatus {
    Pending,
    Rejected,
    Approved,
    Paid,
}

/// One reimbursement request.
#[derive(Clone, Debug)]
pub struct ReimbursementRequest {
    /// The sequence number of the request: the counter's value when it was created.
    pub id: u128,
    pub amount: u64,
    /// Unix seconds, as given by the requester.
    pub date: u64,
    pub category: String,
    pub description: String,
    pub url: String,
    pub processed: bool,
    pub approved: bool,
    pub paid: bool,
    /// The requester, who receives the payout.
    pub member: Principal,
}

impl ReimbursementRequest {
    /// The flags are ordered: paid implies approved, approved implies processed.
    pub open spec fn flags_ordered(&self) -> bool {
        &&& self.paid ==> self.approved
        &&& self.approved ==> self.processed
    }

    pub open spec fn spec_status(&self) -> RequestStatus {
        if self.paid {
            RequestStatus::Paid
        } else if self.approved {
            RequestStatus::Approved
        } else if self.processed {
            RequestStatus::Rejected
        } else {
            RequestStatus::Pending
        }
    }

    /// The lifecycle state that the three flags encode.
    pub fn status(&self) -> (r: RequestStatus)
        ensures
            r == self.spec_status(),
    {
        if self.paid {
            RequestStatus::Paid
        } else if self.approved {
            RequestStatus::Approved
        } else if self.processed {
            RequestStatus::Rejected
        } else {
            RequestStatus::Pending
        }
    }

    /// This request once processed with the given decision.
    pub open spec fn processed_as(self, approved: bool) -> ReimbursementRequest {
        ReimbursementRequest { processed: true, approved: approved, ..self }
    }

    /// This request once paid.
    pub open spec fn marked_paid(self) -> ReimbursementRequest {
        ReimbursementRequest { paid: true, ..self }
    }
}

/// The errors of the workflow itself.
#[derive(Clone, Copy, Debug, PartialEq, Eq, Structural)]
pub enum ErrorCode {
    /// The caller lacks the role that the action needs.
    NotAllowed,
    /// The request has been processed or paid already.
    AlreadyProcessed,
    /// The request has been paid already.
    AlreadyPaid,
    /// The request has not been approved.
    NotApproved,
}

impl ErrorCode {
    /// The message shown for this error.
    pub fn message(&self) -> (r: &'static str) {
        match self {
            ErrorCode::NotAllowed => "Not allowed to do this action",
            ErrorCode::AlreadyProcessed => "Reimbursement request has been processed already",
            ErrorCode::AlreadyPaid => "Reimbursement request has been paid already",
            ErrorCode::NotApproved => "Reimbursement request has not been approved",
        }
    }
}

/// The errors of the record store and of the asset ledger underneath the workflow.
#[derive(Clone, Copy, Debug, PartialEq, Eq, Structural)]
pub enum StoreError {
    /// A vault does not belong to the expected owner or holds another asset,
    /// or the treasury is not the organization's.
    ConstraintMismatch,
    /// A record already exists under the key.
    AccountInUse,
    /// No record exists under the key.
    AccountNotFound,
    /// The asset transfer failed; nothing moved.
    TransferFailed,
}

/// Every way an operation can fail.
#[derive(Clone, Copy, Debug, PartialEq, Eq, Structural)]
pub enum Error {
    Program(ErrorCode),
    Store(StoreError),
}

} // verus!
