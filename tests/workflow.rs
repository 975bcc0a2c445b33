use reimburse::instructions::{
    add_member, create_request, initialize, pay_request, process_request, settle_payment,
    AddMember, CreateRequest, Initialize, PayRequest, ProcessRequest, Transfer,
};
use reimburse::organization::Organization;
use reimburse::state::{
    Error, ErrorCode, Principal, RequestStatus, StoreError, TokenVault, User,
};

fn key(n: u128) -> Principal {
    Principal::new(0, n)
}

const AUTHORITY: u128 = 1;
const MINT: u128 = 2;
const TREASURY: u128 = 3;
const MEMBER: u128 = 4;
const APPROVER: u128 = 5;
const MEMBER_VAULT: u128 = 6;
const STRANGER: u128 = 7;

fn treasury() -> TokenVault {
    TokenVault { key: key(TREASURY), mint: key(MINT), owner: key(AUTHORITY) }
}

fn member_vault() -> TokenVault {
    TokenVault { key: key(MEMBER_VAULT), mint: key(MINT), owner: key(MEMBER) }
}

fn setup() -> Organization {
    let ctx = Initialize { authority: key(AUTHORITY), token_mint: key(MINT), token_vault: treasury() };
    let mut org = Organization::new(&ctx).unwrap();
    org.add_member(key(AUTHORITY), key(MEMBER), true, false).unwrap();
    org.add_member(key(AUTHORITY), key(APPROVER), false, true).unwrap();
    org
}

fn new_request(org: &mut Organization, amount: u64) -> Result<u128, Error> {
    org.create_request(
        key(MEMBER),
        "taxi".to_string(),
        "https://example.com/receipt".to_string(),
        amount,
        1_700_000_000,
        "travel".to_string(),
    )
}

/// Balances of the two vaults, moved by the ledger when the library asks for a transfer.
struct Ledger {
    treasury: u64,
    member: u64,
}

impl Ledger {
    fn apply(&mut self, t: &Transfer) -> Result<(), StoreError> {
        assert_eq!(t.from, key(TREASURY));
        assert_eq!(t.to, key(MEMBER_VAULT));
        if self.treasury < t.amount {
            return Err(StoreError::TransferFailed);
        }
        self.treasury -= t.amount;
        self.member += t.amount;
        Ok(())
    }
}

fn pay(org: &mut Organization, ledger: &mut Ledger, req: u128) -> Result<(), Error> {
    let transfer = org.pay_request(key(MEMBER), req, treasury(), member_vault())?;
    let outcome = ledger.apply(&transfer);
    org.settle_payment(key(MEMBER), req, treasury(), member_vault(), outcome)
}

#[test]
fn full_payment_scenario() {
    let mut org = setup();
    let mut ledger = Ledger { treasury: 1000, member: 0 };
    let req = new_request(&mut org, 100).unwrap();
    assert_eq!(req, 0);
    org.process_request(key(APPROVER), req, true).unwrap();
    pay(&mut org, &mut ledger, req).unwrap();
    assert_eq!(ledger.treasury, 900);
    assert_eq!(ledger.member, 100);
    assert!(org.request(req).unwrap().paid);
    assert_eq!(org.request(req).unwrap().status(), RequestStatus::Paid);

    assert_eq!(pay(&mut org, &mut ledger, req), Err(Error::Program(ErrorCode::AlreadyPaid)));
    assert_eq!(ledger.treasury, 900);
    assert_eq!(ledger.member, 100);
}

#[test]
fn rejected_request_is_not_paid() {
    let mut org = setup();
    let mut ledger = Ledger { treasury: 1000, member: 0 };
    let req = new_request(&mut org, 100).unwrap();
    org.process_request(key(APPROVER), req, false).unwrap();
    assert_eq!(org.request(req).unwrap().status(), RequestStatus::Rejected);
    assert_eq!(pay(&mut org, &mut ledger, req), Err(Error::Program(ErrorCode::NotApproved)));
    assert_eq!(ledger.treasury, 1000);
    assert!(!org.request(req).unwrap().paid);
}

#[test]
fn pending_request_is_not_paid() {
    let mut org = setup();
    let mut ledger = Ledger { treasury: 1000, member: 0 };
    let req = new_request(&mut org, 100).unwrap();
    assert_eq!(pay(&mut org, &mut ledger, req), Err(Error::Program(ErrorCode::NotApproved)));
    assert_eq!(org.request(req).unwrap().status(), RequestStatus::Pending);
}

#[test]
fn second_processing_is_refused() {
    let mut org = setup();
    let req = new_request(&mut org, 100).unwrap();
    org.process_request(key(APPROVER), req, false).unwrap();
    for decision in [true, false] {
        assert_eq!(
            org.process_request(key(APPROVER), req, decision),
            Err(Error::Program(ErrorCode::AlreadyProcessed))
        );
        let r = org.request(req).unwrap();
        assert!(r.processed);
        assert!(!r.approved);
    }
}

#[test]
fn paid_request_cannot_be_processed() {
    let mut org = setup();
    let mut ledger = Ledger { treasury: 1000, member: 0 };
    let req = new_request(&mut org, 10).unwrap();
    org.process_request(key(APPROVER), req, true).unwrap();
    pay(&mut org, &mut ledger, req).unwrap();
    assert_eq!(
        org.process_request(key(APPROVER), req, false),
        Err(Error::Program(ErrorCode::AlreadyProcessed))
    );
    assert!(org.request(req).unwrap().approved);
}

#[test]
fn non_member_cannot_create() {
    let mut org = setup();
    for who in [APPROVER, STRANGER, AUTHORITY] {
        let r = org.create_request(
            key(who),
            "d".to_string(),
            "u".to_string(),
            5,
            0,
            "c".to_string(),
        );
        assert_eq!(r, Err(Error::Program(ErrorCode::NotAllowed)));
    }
    assert_eq!(org.num_of_reqs(), 0);
    assert!(org.request(0).is_none());
}

#[test]
fn non_approver_cannot_process_even_own_request() {
    let mut org = setup();
    let req = new_request(&mut org, 100).unwrap();
    for who in [MEMBER, STRANGER, AUTHORITY] {
        assert_eq!(
            org.process_request(key(who), req, true),
            Err(Error::Program(ErrorCode::NotAllowed))
        );
    }
    assert_eq!(org.request(req).unwrap().status(), RequestStatus::Pending);
}

#[test]
fn counter_counts_created_requests() {
    let mut org = setup();
    for n in 0..5u64 {
        let req = new_request(&mut org, n * 10).unwrap();
        assert_eq!(req, n as u128);
    }
    assert_eq!(org.num_of_reqs(), 5);
    for n in 0..5u128 {
        let r = org.request(n).unwrap();
        assert_eq!(r.id, n);
        assert_eq!(r.amount, (n as u64) * 10);
        assert_eq!(r.member, key(MEMBER));
        assert_eq!(r.description, "taxi");
        assert_eq!(r.url, "https://example.com/receipt");
        assert_eq!(r.category, "travel");
        assert_eq!(r.date, 1_700_000_000);
    }
    assert!(org.request(5).is_none());
}

#[test]
fn only_authority_adds_members() {
    let mut org = setup();
    assert_eq!(
        org.add_member(key(MEMBER), key(STRANGER), true, true),
        Err(Error::Program(ErrorCode::NotAllowed))
    );
    assert_eq!(org.role(key(STRANGER)), User { member: false, approver: false });
    org.add_member(key(AUTHORITY), key(STRANGER), true, true).unwrap();
    assert_eq!(org.role(key(STRANGER)), User { member: true, approver: true });
    assert_eq!(org.role(key(MEMBER)), User { member: true, approver: false });
}

#[test]
fn member_cannot_be_added_twice() {
    let mut org = setup();
    assert_eq!(
        org.add_member(key(AUTHORITY), key(MEMBER), false, true),
        Err(Error::Store(StoreError::AccountInUse))
    );
    assert_eq!(org.role(key(MEMBER)), User { member: true, approver: false });
}

#[test]
fn initialize_checks_treasury() {
    let wrong_mint = TokenVault { key: key(TREASURY), mint: key(99), owner: key(AUTHORITY) };
    let ctx = Initialize { authority: key(AUTHORITY), token_mint: key(MINT), token_vault: wrong_mint };
    assert_eq!(initialize(&ctx), Err(Error::Store(StoreError::ConstraintMismatch)));
    let wrong_owner = TokenVault { key: key(TREASURY), mint: key(MINT), owner: key(MEMBER) };
    let ctx = Initialize { authority: key(AUTHORITY), token_mint: key(MINT), token_vault: wrong_owner };
    assert!(Organization::new(&ctx).is_err());
    let ctx = Initialize { authority: key(AUTHORITY), token_mint: key(MINT), token_vault: treasury() };
    let org = initialize(&ctx).unwrap();
    assert_eq!(org.num_of_reqs, 0);
    assert_eq!(org.authority, key(AUTHORITY));
    assert_eq!(org.token_mint, key(MINT));
    assert_eq!(org.treasury_vault, key(TREASURY));
}

#[test]
fn payment_checks_vaults() {
    let mut org = setup();
    let req = new_request(&mut org, 100).unwrap();
    org.process_request(key(APPROVER), req, true).unwrap();
    let foreign = TokenVault { key: key(42), mint: key(MINT), owner: key(STRANGER) };
    assert_eq!(
        org.pay_request(key(MEMBER), req, treasury(), foreign),
        Err(Error::Store(StoreError::ConstraintMismatch))
    );
    let other_treasury = TokenVault { key: key(43), mint: key(MINT), owner: key(AUTHORITY) };
    assert_eq!(
        org.pay_request(key(MEMBER), req, other_treasury, member_vault()),
        Err(Error::Store(StoreError::ConstraintMismatch))
    );
    assert_eq!(
        org.pay_request(key(STRANGER), req, treasury(), member_vault()),
        Ok(Transfer { from: key(TREASURY), to: key(MEMBER_VAULT), authority: key(STRANGER), amount: 100 })
    );
}

#[test]
fn failed_transfer_leaves_request_unpaid() {
    let mut org = setup();
    let mut ledger = Ledger { treasury: 50, member: 0 };
    let req = new_request(&mut org, 100).unwrap();
    org.process_request(key(APPROVER), req, true).unwrap();
    assert_eq!(pay(&mut org, &mut ledger, req), Err(Error::Store(StoreError::TransferFailed)));
    assert_eq!(org.request(req).unwrap().status(), RequestStatus::Approved);
    ledger.treasury = 500;
    pay(&mut org, &mut ledger, req).unwrap();
    assert_eq!(ledger.treasury, 400);
    assert_eq!(ledger.member, 100);
}

#[test]
fn unknown_request_is_not_found() {
    let mut org = setup();
    assert_eq!(
        org.process_request(key(APPROVER), 3, true),
        Err(Error::Store(StoreError::AccountNotFound))
    );
    assert_eq!(
        org.pay_request(key(MEMBER), 0, treasury(), member_vault()),
        Err(Error::Store(StoreError::AccountNotFound))
    );
}

#[test]
fn instruction_level_transitions() {
    let reimburse = initialize(&Initialize {
        authority: key(AUTHORITY),
        token_mint: key(MINT),
        token_vault: treasury(),
    })
    .unwrap();
    let member = add_member(
        &AddMember { reimburse, authority: key(AUTHORITY), user: key(MEMBER) },
        true,
        false,
    )
    .unwrap();
    assert_eq!(
        add_member(&AddMember { reimburse, authority: key(MEMBER), user: key(MEMBER) }, true, true),
        Err(Error::Program(ErrorCode::NotAllowed))
    );
    let mut ctx = CreateRequest { reimburse, user_account: member, user: key(MEMBER) };
    let request = create_request(
        &mut ctx,
        "hotel".to_string(),
        "u".to_string(),
        300,
        7,
        "lodging".to_string(),
    )
    .unwrap();
    assert_eq!(ctx.reimburse.num_of_reqs, 1);
    assert_eq!(request.id, 0);
    assert_eq!(request.status(), RequestStatus::Pending);

    let mut p = ProcessRequest {
        user_account: User { member: false, approver: true },
        reimbursement_request: request,
    };
    process_request(&mut p, true).unwrap();
    assert_eq!(p.reimbursement_request.status(), RequestStatus::Approved);

    let mut pay = PayRequest {
        reimburse: ctx.reimburse,
        treasury_vault: treasury(),
        token_vault: member_vault(),
        reimbursement_request: p.reimbursement_request,
        user: key(MEMBER),
    };
    let t = pay_request(&pay).unwrap();
    assert_eq!(t.amount, 300);
    settle_payment(&mut pay, Ok(())).unwrap();
    assert!(pay.reimbursement_request.paid);
    assert_eq!(pay_request(&pay), Err(Error::Program(ErrorCode::AlreadyPaid)));
    assert_eq!(settle_payment(&mut pay, Ok(())), Err(Error::Program(ErrorCode::AlreadyPaid)));
}

#[test]
fn error_messages() {
    assert_eq!(ErrorCode::NotAllowed.message(), "Not allowed to do this action");
    assert_eq!(ErrorCode::AlreadyPaid.message(), "Reimbursement request has been paid already");
}
