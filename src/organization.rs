use vstd::prelude::*;
use crate::instructions::{
    add_member, create_request, initialize, initialize_result, new_request,
    pay_check, pay_request, process_check, process_request, settle_payment, AddMember,
    CreateRequest, Initialize, PayRequest, ProcessRequest, Transfer,
};
use crate::state::{
    Error, ErrorCode, Principal, ReimbursementRequest, Reimburse, StoreError, TokenVault, User,
};

verus! {

/// The role flags registered for one principal.
#[derive(Clone, Copy, Debug, PartialEq, Eq, Structural)]
pub struct RoleEntry {
    pub principal: Principal,
    pub user: User,
}

/// One organization with its role registry and its request store. Requests
/// are keyed by their sequence number, which is their position in `requests`.
#[derive(Debug)]
pub struct Organization {
    pub reimburse: Reimburse,
    pub members: Vec<RoleEntry>,
    pub requests: Vec<ReimbursementRequest>,
}

impl Organization {
    /// The registry and the store are consistent: one role entry per
    /// principal, one request per sequence number below the counter, each
    /// holding its own number as `id` and its flags in order.
    pub open spec fn wf(&self) -> bool {
        &&& forall|i: int, j: int|
            0 <= i < j < self.members@.len() ==> self.members@[i].principal
                != self.members@[j].principal
        &&& self.reimburse.num_of_reqs == self.requests@.len()
        &&& forall|i: int|
            0 <= i < self.requests@.len() ==> self.requests@[i].id == i
                && (#[trigger] self.requests@[i]).flags_ordered()
    }

    /// Whether a role entry exists for `p`.
    pub open spec fn registered(&self, p: Principal) -> bool {
        exists|i: int| 0 <= i < self.members@.len() && self.members@[i].principal == p
    }

    /// The roles of `p`: none at all where no entry exists.
    pub open spec fn role_of(&self, p: Principal) -> User {
        if self.registered(p) {
            self.members@[choose|i: int|
                0 <= i < self.members@.len() && self.members@[i].principal == p].user
        } else {
            User::none()
        }
    }

    /// Whether a request exists under `key`.
    pub open spec fn has_request(&self, key: u128) -> bool {
        key < self.requests@.len()
    }

    /// The request stored under `key`.
    pub open spec fn request_at(&self, key: u128) -> ReimbursementRequest {
        self.requests@[key as int]
    }

    /// The two states hold the same records.
    pub open spec fn same_records(&self, other: &Organization) -> bool {
        &&& self.reimburse == other.reimburse
        &&& self.members@ == other.members@
        &&& self.requests@ == other.requests@
    }

    /// Sets up an organization from the accounts that `initialize` reads, with
    /// no members and no requests.
    pub fn new(ctx: &Initialize) -> (r: Result<Organization, Error>)
        ensures
            initialize_result(*ctx) matches Err(e) ==> r == Err::<Organization, Error>(e),
            initialize_result(*ctx) matches Ok(reimburse) ==> r matches Ok(org) && org.wf()
                && org.reimburse == reimburse && org.members@.len() == 0
                && org.requests@.len() == 0,
    {
        match initialize(ctx) {
            Err(e) => Err(e),
            Ok(reimburse) => Ok(Organization { reimburse, members: Vec::new(), requests: Vec::new() }),
        }
    }

    fn find_member(&self, p: Principal) -> (r: Option<usize>)
        ensures
            r matches Some(i) ==> i < self.members@.len() && self.members@[i as int].principal
                == p,
            r is None ==> !self.registered(p),
    {
        let mut i: usize = 0;
        while i < self.members.len()
            invariant
                i <= self.members@.len(),
                forall|j: int| 0 <= j < i ==> self.members@[j].principal != p,
            decreases self.members@.len() - i,
        {
            if self.members[i].principal == p {
                return Some(i);
            }
            i = i + 1;
        }
        None
    }

    /// The roles of `p` in this organization.
    pub fn role(&self, p: Principal) -> (r: User)
        requires
            self.wf(),
        ensures
            r == self.role_of(p),
    {
        match self.find_member(p) {
            Some(i) => {
                proof {
                    let j = choose|j: int|
                        0 <= j < self.members@.len() && self.members@[j].principal == p;
                    assert(0 <= j < self.members@.len() && self.members@[j].principal == p);
                    assert(j == i as int);
                }
                self.members[i].user
            },
            None => User::no_role(),
        }
    }

    /// Registers `user` with the given flags, if `signer` is the organization's
    /// authority and `user` has no entry yet.
    pub fn add_member(
        &mut self,
        signer: Principal,
        user: Principal,
        member: bool,
        approver: bool,
    ) -> (r: Result<(), Error>)
        requires
            old(self).wf(),
        ensures
            final(self).wf(),
            signer != old(self).reimburse.authority ==> r == Err::<(), Error>(
                Error::Program(ErrorCode::NotAllowed),
            ),
            signer == old(self).reimburse.authority && old(self).registered(user) ==> r == Err::<
                (),
                Error,
            >(Error::Store(StoreError::AccountInUse)),
            r is Ok <==> signer == old(self).reimburse.authority && !old(self).registered(user),
            r is Err ==> final(self).same_records(old(self)),
            r is Ok ==> final(self).registered(user) && final(self).role_of(user) == (User {
                member,
                approver,
            }) && (forall|q: Principal|
                q != user ==> final(self).registered(q) == old(self).registered(q)
                    && final(self).role_of(q) == old(self).role_of(q))
                && final(self).reimburse == old(self).reimburse && final(self).requests@ == old(
                self,
            ).requests@,
    {
        let ctx = AddMember { reimburse: self.reimburse, authority: signer, user };
        let roles = match add_member(&ctx, member, approver) {
            Err(e) => {
                return Err(e);
            },
            Ok(roles) => roles,
        };
        if self.find_member(user).is_some() {
            return Err(Error::Store(StoreError::AccountInUse));
        }
        let ghost before = *self;
        self.members.push(RoleEntry { principal: user, user: roles });
        proof {
            let n = before.members@.len() as int;
            assert(self.members@[n].principal == user);
            assert(self.registered(user));
            let j = choose|j: int|
                0 <= j < self.members@.len() && self.members@[j].principal == user;
            assert(0 <= j < self.members@.len() && self.members@[j].principal == user);
            if j < n {
                assert(before.members@[j].principal == user);
            }
            assert(j == n);
            assert forall|q: Principal| q != user implies self.registered(q) == before.registered(q)
                && self.role_of(q) == before.role_of(q) by {
                if before.registered(q) {
                    let k = choose|k: int|
                        0 <= k < before.members@.len() && before.members@[k].principal == q;
                    assert(self.members@[k].principal == q);
                    assert(self.registered(q));
                    let k2 = choose|k2: int|
                        0 <= k2 < self.members@.len() && self.members@[k2].principal == q;
                    assert(0 <= k2 < self.members@.len() && self.members@[k2].principal == q);
                    assert(k2 != n);
                    if k2 != k {
                        assert(before.members@[k2].principal == q);
                        if k2 < k {
                            assert(before.members@[k2].principal != before.members@[k].principal);
                        } else {
                            assert(before.members@[k].principal != before.members@[k2].principal);
                        }
                    }
                } else {
                    if self.registered(q) {
                        let k = choose|k: int|
                            0 <= k < self.members@.len() && self.members@[k].principal == q;
                        assert(0 <= k < self.members@.len() && self.members@[k].principal == q);
                        assert(k != n);
                        assert(before.members@[k].principal == q);
                    }
                }
            }
        }
        Ok(())
    }

    /// Creates a request of `signer`, stored under the counter's value before
    /// the call, and advances the counter. A principal that is not a member
    /// (or has no entry at all) gets `NotAllowed` and nothing is created.
    pub fn create_request(
        &mut self,
        signer: Principal,
        description: String,
        url: String,
        amount: u64,
        date: u64,
        category: String,
    ) -> (r: Result<u128, Error>)
        requires
            old(self).wf(),
        ensures
            final(self).wf(),
            !old(self).role_of(signer).member ==> r == Err::<u128, Error>(
                Error::Program(ErrorCode::NotAllowed),
            ) && final(self).same_records(old(self)),
            old(self).role_of(signer).member ==> r == Ok::<u128, Error>(
                old(self).reimburse.num_of_reqs,
            ) && final(self).reimburse.num_of_reqs == old(self).reimburse.num_of_reqs + 1
                && final(self).requests@ == old(self).requests@.push(
                new_request(
                    old(self).reimburse.num_of_reqs,
                    signer,
                    description,
                    url,
                    amount,
                    date,
                    category,
                ),
            ) && final(self).members@ == old(self).members@ && final(self).reimburse.authority
                == old(self).reimburse.authority && final(self).reimburse.token_mint == old(
                self,
            ).reimburse.token_mint && final(self).reimburse.treasury_vault == old(
                self,
            ).reimburse.treasury_vault,
    {
        let user_account = self.role(signer);
        let mut ctx = CreateRequest { reimburse: self.reimburse, user_account, user: signer };
        let key = self.reimburse.num_of_reqs;
        let n = self.requests.len();
        assert(key == n);
        match create_request(&mut ctx, description, url, amount, date, category) {
            Err(e) => Err(e),
            Ok(request) => {
                self.reimburse = ctx.reimburse;
                let ghost before = self.requests@;
                self.requests.push(request);
                assert forall|i: int| 0 <= i < self.requests@.len() implies self.requests@[i].id
                    == i && (#[trigger] self.requests@[i]).flags_ordered() by {
                    if i < n {
                        assert(self.requests@[i] == before[i]);
                    }
                }
                Ok(key)
            },
        }
    }

    /// Moves the request under `key` out, leaving a blank record in its place.
    fn take_request(&mut self, key: usize) -> (r: ReimbursementRequest)
        requires
            key < old(self).requests@.len(),
        ensures
            r == old(self).requests@[key as int],
            final(self).reimburse == old(self).reimburse,
            final(self).members@ == old(self).members@,
            final(self).requests@.len() == old(self).requests@.len(),
            forall|i: int|
                0 <= i < old(self).requests@.len() && i != key ==> final(self).requests@[i]
                    == old(self).requests@[i],
    {
        let mut blank = ReimbursementRequest {
            id: 0,
            amount: 0,
            date: 0,
            category: String::new(),
            description: String::new(),
            url: String::new(),
            processed: false,
            approved: false,
            paid: false,
            member: self.reimburse.authority,
        };
        self.requests.set_and_swap(key, &mut blank);
        blank
    }

    /// Approves or rejects the request under `key` on behalf of `signer`, who
    /// must be an approver; a request processed or paid already is refused.
    pub fn process_request(&mut self, signer: Principal, key: u128, approved: bool) -> (r: Result<
        (),
        Error,
    >)
        requires
            old(self).wf(),
        ensures
            final(self).wf(),
            !old(self).has_request(key) ==> r == Err::<(), Error>(
                Error::Store(StoreError::AccountNotFound),
            ),
            old(self).has_request(key) ==> r == process_check(
                old(self).role_of(signer),
                old(self).request_at(key),
            ),
            r is Err ==> final(self).same_records(old(self)),
            r is Ok ==> final(self).reimburse == old(self).reimburse && final(self).members@ == old(
                self,
            ).members@ && final(self).requests@ == old(self).requests@.update(
                key as int,
                old(self).request_at(key).processed_as(approved),
            ),
    {
        if key >= self.requests.len() as u128 {
            return Err(Error::Store(StoreError::AccountNotFound));
        }
        let i = key as usize;
        let user_account = self.role(signer);
        let ghost before = *self;
        let request = self.take_request(i);
        let mut ctx = ProcessRequest { user_account, reimbursement_request: request };
        let r = process_request(&mut ctx, approved);
        self.requests.set(i, ctx.reimbursement_request);
        proof {
            if r is Err {
                assert(self.requests@ =~= before.requests@);
            } else {
                assert(self.requests@ =~= before.requests@.update(
                    i as int,
                    before.requests@[i as int].processed_as(approved),
                ));
            }
        }
        r
    }

    /// Decides whether the request under `key` is paid through these vaults,
    /// and if so, the one transfer to make. The records end as they were: the
    /// request is only lent to the payment check.
    pub fn pay_request(
        &mut self,
        signer: Principal,
        key: u128,
        treasury_vault: TokenVault,
        token_vault: TokenVault,
    ) -> (r: Result<Transfer, Error>)
        requires
            old(self).wf(),
        ensures
            final(self).wf(),
            final(self).same_records(old(self)),
            !old(self).has_request(key) ==> r == Err::<Transfer, Error>(
                Error::Store(StoreError::AccountNotFound),
            ),
            old(self).has_request(key) ==> (pay_check(
                old(self).reimburse,
                treasury_vault,
                token_vault,
                old(self).request_at(key),
            ) matches Err(e) ==> r == Err::<Transfer, Error>(e)),
            old(self).has_request(key) ==> (pay_check(
                old(self).reimburse,
                treasury_vault,
                token_vault,
                old(self).request_at(key),
            ) is Ok ==> r == Ok::<Transfer, Error>(
                Transfer {
                    from: treasury_vault.key,
                    to: token_vault.key,
                    authority: signer,
                    amount: old(self).request_at(key).amount,
                },
            )),
    {
        if key >= self.requests.len() as u128 {
            return Err(Error::Store(StoreError::AccountNotFound));
        }
        let i = key as usize;
        let ghost before = *self;
        let request = self.take_request(i);
        let ctx = PayRequest {
            reimburse: self.reimburse,
            treasury_vault,
            token_vault,
            reimbursement_request: request,
            user: signer,
        };
        let r = pay_request(&ctx);
        self.requests.set(i, ctx.reimbursement_request);
        assert(self.requests@ =~= before.requests@);
        r
    }

    /// Records the outcome of the transfer that `pay_request` asked for: the
    /// request under `key` is paid if the payment is allowed and the transfer
    /// went through. A failed transfer changes nothing.
    pub fn settle_payment(
        &mut self,
        signer: Principal,
        key: u128,
        treasury_vault: TokenVault,
        token_vault: TokenVault,
        transfer: Result<(), StoreError>,
    ) -> (r: Result<(), Error>)
        requires
            old(self).wf(),
        ensures
            final(self).wf(),
            !old(self).has_request(key) ==> r == Err::<(), Error>(
                Error::Store(StoreError::AccountNotFound),
            ),
            old(self).has_request(key) ==> (pay_check(
                old(self).reimburse,
                treasury_vault,
                token_vault,
                old(self).request_at(key),
            ) matches Err(e) ==> r == Err::<(), Error>(e)),
            old(self).has_request(key) && pay_check(
                old(self).reimburse,
                treasury_vault,
                token_vault,
                old(self).request_at(key),
            ) is Ok && transfer is Err ==> r == Err::<(), Error>(
                Error::Store(StoreError::TransferFailed),
            ),
            r is Ok <==> old(self).has_request(key) && pay_check(
                old(self).reimburse,
                treasury_vault,
                token_vault,
                old(self).request_at(key),
            ) is Ok && transfer is Ok,
            r is Err ==> final(self).same_records(old(self)),
            r is Ok ==> final(self).reimburse == old(self).reimburse && final(self).members@ == old(
                self,
            ).members@ && final(self).requests@ == old(self).requests@.update(
                key as int,
                old(self).request_at(key).marked_paid(),
            ),
    {
        if key >= self.requests.len() as u128 {
            return Err(Error::Store(StoreError::AccountNotFound));
        }
        let i = key as usize;
        let ghost before = *self;
        let request = self.take_request(i);
        let mut ctx = PayRequest {
            reimburse: self.reimburse,
            treasury_vault,
            token_vault,
            reimbursement_request: request,
            user: signer,
        };
        let r = settle_payment(&mut ctx, transfer);
        self.requests.set(i, ctx.reimbursement_request);
        proof {
            if r is Err {
                assert(self.requests@ =~= before.requests@);
            } else {
                assert(self.requests@ =~= before.requests@.update(
                    i as int,
                    before.requests@[i as int].marked_paid(),
                ));
            }
        }
        r
    }

    /// The number of requests ever created.
    pub fn num_of_reqs(&self) -> (r: u128)
        ensures
            r == self.reimburse.num_of_reqs,
    {
        self.reimburse.num_of_reqs
    }

    /// The request stored under `key`, if any.
    pub fn request(&self, key: u128) -> (r: Option<&ReimbursementRequest>)
        ensures
            self.has_request(key) ==> r == Some(&self.request_at(key)),
            !self.has_request(key) ==> r is None,
    {
        if key >= self.requests.len() as u128 {
            return None;
        }
        Some(&self.requests[key as usize])
    }
}

} // verus!
