use vstd::prelude::*;
use crate::instructions::{new_request, pay_check, process_check};
use crate::organization::Organization;
use crate::state::{Error, ErrorCode, Principal, ReimbursementRequest, Reimburse, TokenVault, User};

verus! {

/// Every transition keeps the flags ordered (paid implies approved implies
/// processed), and a transition taken out of order is refused: an unapproved
/// request cannot be paid, a processed one cannot be processed again.
pub proof fn lemma_transitions_keep_flag_order(
    user: User,
    reimburse: Reimburse,
    treasury_vault: TokenVault,
    token_vault: TokenVault,
    request: ReimbursementRequest,
    approved: bool,
)
    requires
        request.flags_ordered(),
    ensures
        process_check(user, request) is Ok ==> request.processed_as(approved).flags_ordered(),
        pay_check(reimburse, treasury_vault, token_vault, request) is Ok
            ==> request.marked_paid().flags_ordered(),
        !request.approved ==> pay_check(reimburse, treasury_vault, token_vault, request) is Err,
        request.processed ==> process_check(user, request) is Err,
{
}

/// A new request starts pending, with its flags ordered.
pub proof fn lemma_new_request_pending(
    id: u128,
    member: Principal,
    description: String,
    url: String,
    amount: u64,
    date: u64,
    category: String,
)
    ensures
        new_request(id, member, description, url, amount, date, category).flags_ordered(),
        !new_request(id, member, description, url, amount, date, category).processed,
{
}

/// Every request held by a consistent organization has its flags ordered.
pub proof fn lemma_stored_flags_ordered(org: Organization, key: u128)
    requires
        org.wf(),
        org.has_request(key),
    ensures
        org.request_at(key).flags_ordered(),
{
    assert(org.requests@[key as int].flags_ordered());
}

/// Processing succeeds once: whatever the decision of the first call, a
/// second call by the same approver is refused with `AlreadyProcessed`.
pub proof fn lemma_process_once(user: User, request: ReimbursementRequest, first: bool)
    requires
        process_check(user, request) is Ok,
    ensures
        process_check(user, request.processed_as(first)) == Err::<(), Error>(
            Error::Program(ErrorCode::AlreadyProcessed),
        ),
{
}

/// Payment succeeds once: after a payment through the same vaults, a second
/// one is refused with `AlreadyPaid`, so no second transfer is asked for.
pub proof fn lemma_pay_once(
    reimburse: Reimburse,
    treasury_vault: TokenVault,
    token_vault: TokenVault,
    request: ReimbursementRequest,
)
    requires
        pay_check(reimburse, treasury_vault, token_vault, request) is Ok,
    ensures
        pay_check(reimburse, treasury_vault, token_vault, request.marked_paid()) == Err::<
            (),
            Error,
        >(Error::Program(ErrorCode::AlreadyPaid)),
{
}

/// A principal with no entry in the registry holds no role, so it can
/// neither create nor process requests.
pub proof fn lemma_unregistered_has_no_role(org: Organization, p: Principal)
    requires
        !org.registered(p),
    ensures
        org.role_of(p) == User::none(),
{
}

/// A principal that is not an approver cannot process any request, its own
/// included.
pub proof fn lemma_non_approver_cannot_process(user: User, request: ReimbursementRequest)
    requires
        !user.approver,
    ensures
        process_check(user, request) == Err::<(), Error>(Error::Program(ErrorCode::NotAllowed)),
{
}

/// The counter equals the number of requests created, and each of them is
/// stored under its own sequence number: distinct keys, distinct records.
pub proof fn lemma_counter_counts_requests(org: Organization)
    requires
        org.wf(),
    ensures
        org.reimburse.num_of_reqs == org.requests@.len(),
        forall|key: u128| #[trigger]
            org.has_request(key) ==> org.request_at(key).id == key,
        forall|k1: u128, k2: u128|
            #[trigger] org.has_request(k1) && #[trigger] org.has_request(k2) && k1 != k2
                ==> org.request_at(k1).id != org.request_at(k2).id,
{
    assert forall|key: u128| #[trigger] org.has_request(key) implies org.request_at(key).id
        == key by {
        assert(org.requests@[key as int].flags_ordered());
    }
}

} // verus!
