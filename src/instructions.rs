use vstd::prelude::*;
use crate::state::{
    Error, ErrorCode, Principal, ReimbursementRequest, Reimburse, StoreError, TokenVault, User,
};

verus! {

/// What `initialize` reads: the signing authority, the asset and the treasury vault.
#[derive(Clone, Copy, Debug)]
pub struct Initialize {
    pub authority: Principal,
    pub token_mint: Principal,
    pub token_vault: TokenVault,
}

/// What `add_member` reads: the organization, its signer and the principal to register.
#[derive(Clone, Copy, Debug)]
pub struct AddMember {
    pub reimburse: Reimburse,
    pub authority: Principal,
    pub user: Principal,
}

/// What `create_request` reads and changes: the organization, the signer and its roles.
#[derive(Clone, Copy, Debug)]
pub struct CreateRequest {
    pub reimburse: Reimburse,
    pub user_account: User,
    pub user: Principal,
}

/// What `process_request` reads and changes: the signer's roles and the request.
#[derive(Debug)]
pub struct ProcessRequest {
    pub user_account: User,
    pub reimbursement_request: ReimbursementRequest,
}

/// What `pay_request` reads and changes.
#[derive(Debug)]
pub struct PayRequest {
    pub reimburse: Reimburse,
    /// The vault that pays.
    pub treasury_vault: TokenVault,
    /// The vault that receives the payout.
    pub token_vault: TokenVault,
    pub reimbursement_request: ReimbursementRequest,
    /// The signer, who authorizes the transfer.
    pub user: Principal,
}

/// A transfer of `amount` units from one vault to another, authorized by `authority`.
#[derive(Clone, Copy, Debug, PartialEq, Eq, Structural)]
pub struct Transfer {
    pub from: Principal,
    pub to: Principal,
    pub authority: Principal,
    pub amount: u64,
}

/// The outcome of `initialize` on the given accounts.
pub open spec fn initialize_result(ctx: Initialize) -> Result<Reimburse, Error> {
    if ctx.token_vault.mint != ctx.token_mint || ctx.token_vault.owner != ctx.authority {
        Err(Error::Store(StoreError::ConstraintMismatch))
    } else {
        Ok(
            Reimburse {
                authority: ctx.authority,
                num_of_reqs: 0,
                token_mint: ctx.token_mint,
                treasury_vault: ctx.token_vault.key,
            },
        )
    }
}

/// Sets up an organization whose treasury is the given vault, owned by the
/// authority and holding the given asset.
pub fn initialize(ctx: &Initialize) -> (r: Result<Reimburse, Error>)
    ensures
        r == initialize_result(*ctx),
{
    if ctx.token_vault.mint != ctx.token_mint || ctx.token_vault.owner != ctx.authority {
        return Err(Error::Store(StoreError::ConstraintMismatch));
    }
    Ok(
        Reimburse {
            authority: ctx.authority,
            num_of_reqs: 0,
            token_mint: ctx.token_mint,
            treasury_vault: ctx.token_vault.key,
        },
    )
}

/// The outcome of `add_member`: only the organization's authority registers.
pub open spec fn add_member_result(ctx: AddMember, member: bool, approver: bool) -> Result<
    User,
    Error,
> {
    if ctx.authority != ctx.reimburse.authority {
        Err(Error::Program(ErrorCode::NotAllowed))
    } else {
        Ok(User { member, approver })
    }
}

/// Gives `ctx.user` the role flags `member` and `approver`, if the signer is the
/// organization's authority.
pub fn add_member(ctx: &AddMember, member: bool, approver: bool) -> (r: Result<User, Error>)
    ensures
        r == add_member_result(*ctx, member, approver),
{
    if ctx.authority != ctx.reimburse.authority {
        return Err(Error::Program(ErrorCode::NotAllowed));
    }
    Ok(User { member, approver })
}

/// The request that `create_request` makes from its arguments.
pub open spec fn new_request(
    id: u128,
    member: Principal,
    description: String,
    url: String,
    amount: u64,
    date: u64,
    category: String,
) -> ReimbursementRequest {
    ReimbursementRequest {
        id,
        amount,
        date,
        category,
        description,
        url,
        processed: false,
        approved: false,
        paid: false,
        member,
    }
}

/// Creates a request of `ctx.user`, whose key and `id` are the organization's
/// counter before the call, and advances the counter by one. A principal that
/// is not a member gets `NotAllowed` and nothing changes.
pub fn create_request(
    ctx: &mut CreateRequest,
    description: String,
    url: String,
    amount: u64,
    date: u64,
    category: String,
) -> (r: Result<ReimbursementRequest, Error>)
    requires
        old(ctx).reimburse.num_of_reqs < u128::MAX,
    ensures
        !old(ctx).user_account.member ==> r == Err::<ReimbursementRequest, Error>(
            Error::Program(ErrorCode::NotAllowed),
        ) && *final(ctx) == *old(ctx),
        old(ctx).user_account.member ==> r == Ok::<ReimbursementRequest, Error>(
            new_request(
                old(ctx).reimburse.num_of_reqs,
                old(ctx).user,
                description,
                url,
                amount,
                date,
                category,
            ),
        ) && *final(ctx) == (CreateRequest {
            reimburse: Reimburse { num_of_reqs: (old(ctx).reimburse.num_of_reqs + 1) as u128, ..old(ctx).reimburse },
            ..*old(ctx)
        }),
{
    if !ctx.user_account.member {
        return Err(Error::Program(ErrorCode::NotAllowed));
    }
    let id: u128 = ctx.reimburse.num_of_reqs;
    ctx.reimburse.num_of_reqs = id + 1;
    Ok(
        ReimbursementRequest {
            id,
            amount,
            date,
            category,
            description,
            url,
            processed: false,
            approved: false,
            paid: false,
            member: ctx.user,
        },
    )
}

/// Whether a principal with these roles may process this request, and if not, why.
pub open spec fn process_check(user_account: User, request: ReimbursementRequest) -> Result<
    (),
    Error,
> {
    if !user_account.approver {
        Err(Error::Program(ErrorCode::NotAllowed))
    } else if request.processed || request.paid {
        Err(Error::Program(ErrorCode::AlreadyProcessed))
    } else {
        Ok(())
    }
}

/// Approves (`approved == true`) or rejects the request, once. The signer must
/// be an approver; a request that is processed or paid already is refused.
pub fn process_request(ctx: &mut ProcessRequest, approved: bool) -> (r: Result<(), Error>)
    ensures
        r == process_check(old(ctx).user_account, old(ctx).reimbursement_request),
        r is Ok ==> final(ctx).reimbursement_request == old(
            ctx,
        ).reimbursement_request.processed_as(approved),
        r is Err ==> final(ctx).reimbursement_request == old(ctx).reimbursement_request,
        final(ctx).user_account == old(ctx).user_account,
{
    if !ctx.user_account.approver {
        return Err(Error::Program(ErrorCode::NotAllowed));
    }
    if ctx.reimbursement_request.processed || ctx.reimbursement_request.paid {
        return Err(Error::Program(ErrorCode::AlreadyProcessed));
    }
    ctx.reimbursement_request.processed = true;
    ctx.reimbursement_request.approved = approved;
    Ok(())
}

/// Whether the vaults of a payment are the right ones: the treasury is the
/// organization's and the payout goes to the requester, both in its asset.
pub open spec fn vaults_match(
    reimburse: Reimburse,
    treasury_vault: TokenVault,
    token_vault: TokenVault,
    request: ReimbursementRequest,
) -> bool {
    &&& treasury_vault.key == reimburse.treasury_vault
    &&& treasury_vault.mint == reimburse.token_mint
    &&& token_vault.mint == reimburse.token_mint
    &&& token_vault.owner == request.member
}

/// Whether this request may be paid through these vaults, and if not, why.
pub open spec fn pay_check(
    reimburse: Reimburse,
    treasury_vault: TokenVault,
    token_vault: TokenVault,
    request: ReimbursementRequest,
) -> Result<(), Error> {
    if !vaults_match(reimburse, treasury_vault, token_vault, request) {
        Err(Error::Store(StoreError::ConstraintMismatch))
    } else if request.paid {
        Err(Error::Program(ErrorCode::AlreadyPaid))
    } else if !request.approved {
        Err(Error::Program(ErrorCode::NotApproved))
    } else {
        Ok(())
    }
}

impl PayRequest {
    pub open spec fn check(&self) -> Result<(), Error> {
        pay_check(self.reimburse, self.treasury_vault, self.token_vault, self.reimbursement_request)
    }

    /// The transfer that pays the request: its amount, from the treasury to
    /// the requester's vault, authorized by the signer.
    pub open spec fn payout(&self) -> Transfer {
        Transfer {
            from: self.treasury_vault.key,
            to: self.token_vault.key,
            authority: self.user,
            amount: self.reimbursement_request.amount,
        }
    }
}

/// Decides whether the request is paid: on success it is the one transfer to
/// make, after which `settle_payment` records its outcome. Nothing changes here.
pub fn pay_request(ctx: &PayRequest) -> (r: Result<Transfer, Error>)
    ensures
        r is Ok <==> ctx.check() is Ok,
        r is Ok ==> r == Ok::<Transfer, Error>(ctx.payout()),
        ctx.check() matches Err(e) ==> r == Err::<Transfer, Error>(e),
{
    let request = &ctx.reimbursement_request;
    if ctx.treasury_vault.key != ctx.reimburse.treasury_vault
        || ctx.treasury_vault.mint != ctx.reimburse.token_mint
        || ctx.token_vault.mint != ctx.reimburse.token_mint
        || ctx.token_vault.owner != request.member
    {
        return Err(Error::Store(StoreError::ConstraintMismatch));
    }
    if request.paid {
        return Err(Error::Program(ErrorCode::AlreadyPaid));
    }
    if !request.approved {
        return Err(Error::Program(ErrorCode::NotApproved));
    }
    Ok(
        Transfer {
            from: ctx.treasury_vault.key,
            to: ctx.token_vault.key,
            authority: ctx.user,
            amount: request.amount,
        },
    )
}

/// Records the outcome of the transfer that `pay_request` asked for: the
/// request is paid if the payment was allowed and the transfer went through.
/// A refused payment keeps its error; a failed transfer changes nothing.
pub fn settle_payment(ctx: &mut PayRequest, transfer: Result<(), StoreError>) -> (r: Result<
    (),
    Error,
>)
    ensures
        old(ctx).check() is Err ==> r == old(ctx).check(),
        old(ctx).check() is Ok && transfer is Err ==> r == Err::<(), Error>(
            Error::Store(StoreError::TransferFailed),
        ),
        r is Ok <==> old(ctx).check() is Ok && transfer is Ok,
        r is Ok ==> final(ctx).reimbursement_request == old(ctx).reimbursement_request.marked_paid(),
        r is Err ==> final(ctx).reimbursement_request == old(ctx).reimbursement_request,
        final(ctx).reimburse == old(ctx).reimburse,
        final(ctx).treasury_vault == old(ctx).treasury_vault,
        final(ctx).token_vault == old(ctx).token_vault,
        final(ctx).user == old(ctx).user,
{
    match pay_request(ctx) {
        Err(e) => Err(e),
        Ok(_) => {
            match transfer {
                Err(_) => Err(Error::Store(StoreError::TransferFailed)),
                Ok(()) => {
                    ctx.reimbursement_request.paid = true;
                    Ok(())
                },
            }
        },
    }
}

} // verus!
