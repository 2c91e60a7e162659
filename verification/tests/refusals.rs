use concordium_std::ParseError;
use paylog::access::{authorize, Role};
use paylog::error::ContractError;
use paylog::identity::{AccountAddress, Address, ContractAddress};
use paylog::ledger::{Milestone, Phase, State, Timestamp};
use paylog::lifecycle::init;
use paylog::messages::{
    AttestedEvent, ConfirmParam, InitParams, MilestoneView, ReleaseRequestedEvent, RequestParam,
    ViewParam,
};
use paylog::query::view_milestone;
use paylog::transition::{confirm_payment, request_release, Staged};

fn account(tag: u8) -> AccountAddress {
    AccountAddress([tag; 32])
}

fn client() -> Address {
    Address::Account(account(1))
}

fn oracle() -> Address {
    Address::Account(account(3))
}

fn config(amounts: Vec<u128>) -> InitParams {
    InitParams {
        project_id: String::from("p-7"),
        client: account(1),
        freelancer: account(2),
        oracle: account(3),
        amounts,
        plt_decimals: 2,
    }
}

fn registry() -> State {
    init(Ok(config(vec![500, 0, u128::MAX]))).unwrap()
}

fn moment(millis: u64) -> Timestamp {
    Timestamp { millis }
}

fn request(id: u32, fill: u8) -> Result<RequestParam, ParseError> {
    Ok(RequestParam { milestone_id: id, work_hash: [fill; 32] })
}

fn confirm(id: u32, paid: u128, fill: u8) -> Result<ConfirmParam, ParseError> {
    Ok(ConfirmParam { milestone_id: id, paid_amount_minor: paid, plt_tx_hash: [fill; 32] })
}

fn with_request(mut state: State, id: u32, fill: u8, millis: u64) -> State {
    let staged = request_release(&state, &oracle(), moment(millis), request(id, fill)).unwrap();
    staged.commit(&mut state, true).unwrap();
    state
}

fn with_payment(mut state: State, id: u32, paid: u128, fill: u8, millis: u64) -> State {
    let staged =
        confirm_payment(&state, &client(), moment(millis), confirm(id, paid, fill)).unwrap();
    staged.commit(&mut state, true).unwrap();
    state
}

#[test]
fn init_refuses_an_empty_amount_list() {
    assert_eq!(init(Ok(config(vec![]))), Err(ContractError::ParseError));
}

#[test]
fn init_refuses_undecodable_input() {
    assert_eq!(init(Err(ParseError::default())), Err(ContractError::ParseError));
}

#[test]
fn init_accepts_a_single_amount_and_equal_identities() {
    let mut p = config(vec![7]);
    p.freelancer = p.client;
    p.oracle = p.client;
    let state = init(Ok(p)).unwrap();
    assert_eq!(state.milestones, vec![Milestone::new(7)]);
    assert_eq!(state.client, state.oracle);
    assert_eq!(state.plt_decimals, 2);
    assert_eq!(state.project_id, "p-7");
}

#[test]
fn new_milestone_holds_only_its_amount() {
    let m = Milestone::new(42);
    assert_eq!(
        m,
        Milestone {
            amount_minor: 42,
            requested: false,
            released: false,
            work_hash: None,
            plt_tx_hash: None,
            requested_at_ms: None,
            attested_at_ms: None,
        }
    );
    assert_eq!(m.current_phase(), Phase::NotRequested);
}

#[test]
fn phase_follows_the_flags() {
    let mut m = Milestone::new(1);
    m.requested = true;
    assert_eq!(m.current_phase(), Phase::Requested);
    m.released = true;
    assert_eq!(m.current_phase(), Phase::Released);
}

#[test]
fn parse_error_becomes_the_ledgers_parse_error() {
    assert_eq!(ContractError::from(ParseError::default()), ContractError::ParseError);
}

#[test]
fn accounts_are_equal_only_if_every_byte_agrees() {
    let a = account(9);
    let mut first = [9u8; 32];
    first[0] = 8;
    let mut last = [9u8; 32];
    last[31] = 10;
    let mut middle = [9u8; 32];
    middle[17] = 0;
    assert!(a == AccountAddress([9u8; 32]));
    assert!(a != AccountAddress(first));
    assert!(a != AccountAddress(last));
    assert!(a != AccountAddress(middle));
}

#[test]
fn authorize_passes_only_the_holder_of_the_role() {
    let state = registry();
    assert_eq!(authorize(&state, &oracle(), Role::Oracle), Ok(()));
    assert_eq!(authorize(&state, &client(), Role::Client), Ok(()));
    assert_eq!(authorize(&state, &client(), Role::Oracle), Err(ContractError::Unauthorized));
    assert_eq!(authorize(&state, &oracle(), Role::Client), Err(ContractError::Unauthorized));
    let freelancer = Address::Account(account(2));
    assert_eq!(authorize(&state, &freelancer, Role::Oracle), Err(ContractError::Unauthorized));
    assert_eq!(authorize(&state, &freelancer, Role::Client), Err(ContractError::Unauthorized));
}

#[test]
fn authorize_refuses_every_contract() {
    let state = registry();
    let contract = Address::Contract(ContractAddress { index: 0, subindex: 0 });
    assert_eq!(authorize(&state, &contract, Role::Oracle), Err(ContractError::Unauthorized));
    assert_eq!(authorize(&state, &contract, Role::Client), Err(ContractError::Unauthorized));
}

#[test]
fn request_from_anyone_but_the_oracle_is_unauthorized() {
    let state = registry();
    let strangers = [
        client(),
        Address::Account(account(2)),
        Address::Account(account(0)),
        Address::Contract(ContractAddress { index: 3, subindex: 3 }),
    ];
    for sender in strangers.iter() {
        let r = request_release(&state, sender, moment(1), request(0, 1));
        assert_eq!(r, Err(ContractError::Unauthorized));
    }
    assert_eq!(state, registry());
}

#[test]
fn confirmation_from_anyone_but_the_client_is_unauthorized() {
    let state = with_request(registry(), 0, 1, 10);
    let strangers = [
        oracle(),
        Address::Account(account(2)),
        Address::Contract(ContractAddress { index: 1, subindex: 0 }),
    ];
    for sender in strangers.iter() {
        let r = confirm_payment(&state, sender, moment(11), confirm(0, 500, 2));
        assert_eq!(r, Err(ContractError::Unauthorized));
    }
    assert_eq!(state, with_request(registry(), 0, 1, 10));
}

#[test]
fn authorization_is_checked_before_the_input() {
    let state = registry();
    let r = request_release(&state, &client(), moment(1), Err(ParseError::default()));
    assert_eq!(r, Err(ContractError::Unauthorized));
    let r = confirm_payment(&state, &oracle(), moment(1), Err(ParseError::default()));
    assert_eq!(r, Err(ContractError::Unauthorized));
    let r = request_release(&state, &client(), moment(1), request(99, 1));
    assert_eq!(r, Err(ContractError::Unauthorized));
}

#[test]
fn undecodable_input_is_a_parse_error() {
    let state = registry();
    let r = request_release(&state, &oracle(), moment(1), Err(ParseError::default()));
    assert_eq!(r, Err(ContractError::ParseError));
    let r = confirm_payment(&state, &client(), moment(1), Err(ParseError::default()));
    assert_eq!(r, Err(ContractError::ParseError));
    assert_eq!(view_milestone(&state, Err(ParseError::default())), Err(ContractError::ParseError));
}

#[test]
fn ids_from_the_milestone_count_up_are_invalid() {
    let state = registry();
    for id in [3u32, 4, u32::MAX] {
        let r = request_release(&state, &oracle(), moment(1), request(id, 1));
        assert_eq!(r, Err(ContractError::InvalidMilestone));
        let r = confirm_payment(&state, &client(), moment(1), confirm(id, 500, 1));
        assert_eq!(r, Err(ContractError::InvalidMilestone));
    }
    let last = request_release(&state, &oracle(), moment(1), request(2, 1));
    assert!(last.is_ok());
}

#[test]
fn confirmation_before_request_is_not_requested() {
    let state = registry();
    let r = confirm_payment(&state, &client(), moment(1), confirm(0, 500, 1));
    assert_eq!(r, Err(ContractError::NotRequested));
    let r = confirm_payment(&state, &client(), moment(1), confirm(1, 0, 1));
    assert_eq!(r, Err(ContractError::NotRequested));
    let r = confirm_payment(&state, &client(), moment(1), confirm(2, u128::MAX, 1));
    assert_eq!(r, Err(ContractError::NotRequested));
    assert_eq!(state, registry());
}

#[test]
fn amount_is_looked_at_before_the_request() {
    let state = registry();
    for paid in [0u128, 1, 499, 501, u128::MAX] {
        let r = confirm_payment(&state, &client(), moment(1), confirm(0, paid, 1));
        assert_eq!(r, Err(ContractError::AmountMismatch));
    }
    assert_eq!(state, registry());
    assert!(!state.milestones[0].released);
    assert_eq!(state.milestones[0].plt_tx_hash, None);
    // Who calls and which milestone is meant still come first.
    let r = confirm_payment(&state, &oracle(), moment(1), confirm(0, 1, 1));
    assert_eq!(r, Err(ContractError::Unauthorized));
    let r = confirm_payment(&state, &client(), moment(1), confirm(3, 1, 1));
    assert_eq!(r, Err(ContractError::InvalidMilestone));
}

#[test]
fn released_milestone_is_looked_at_before_the_amount() {
    let state = with_payment(with_request(registry(), 0, 1, 10), 0, 500, 2, 20);
    let r = confirm_payment(&state, &client(), moment(30), confirm(0, 499, 3));
    assert_eq!(r, Err(ContractError::AlreadyReleased));
}

#[test]
fn amount_must_match_exactly() {
    let state = with_request(registry(), 0, 1, 10);
    for paid in [0u128, 499, 501, u128::MAX] {
        let r = confirm_payment(&state, &client(), moment(11), confirm(0, paid, 2));
        assert_eq!(r, Err(ContractError::AmountMismatch));
    }
    assert!(confirm_payment(&state, &client(), moment(11), confirm(0, 500, 2)).is_ok());
}

#[test]
fn zero_and_largest_amounts_can_be_confirmed() {
    let state = with_request(with_request(registry(), 1, 1, 10), 2, 2, 10);
    let zero = confirm_payment(&state, &client(), moment(11), confirm(1, 0, 3)).unwrap();
    assert_eq!(zero.event.amount_minor, 0);
    let max = confirm_payment(&state, &client(), moment(11), confirm(2, u128::MAX, 4)).unwrap();
    assert_eq!(max.event.amount_minor, u128::MAX);
    assert_eq!(max.event.work_hash, [2u8; 32]);
    assert_eq!(max.milestone.amount_minor, u128::MAX);
}

#[test]
fn requested_milestone_without_digest_is_an_internal_violation() {
    let mut state = registry();
    state.milestones[0].requested = true;
    state.milestones[0].requested_at_ms = Some(moment(5));
    let before = state.clone();
    let r = confirm_payment(&state, &client(), moment(6), confirm(0, 500, 1));
    assert_eq!(r, Err(ContractError::InternalInvariantViolation));
    assert_eq!(state, before);
    // The amount is still looked at first.
    let r = confirm_payment(&state, &client(), moment(6), confirm(0, 1, 1));
    assert_eq!(r, Err(ContractError::AmountMismatch));
}

#[test]
fn log_failure_drops_the_request() {
    let mut state = registry();
    let staged = request_release(&state, &oracle(), moment(1), request(1, 7)).unwrap();
    assert_eq!(staged.commit(&mut state, false), Err(ContractError::LogError));
    assert_eq!(state, registry());
    // The request can be made again once the log works.
    let staged = request_release(&state, &oracle(), moment(2), request(1, 7)).unwrap();
    assert_eq!(staged.commit(&mut state, true), Ok(()));
    assert_eq!(state.milestones[1].requested_at_ms, Some(moment(2)));
}

#[test]
fn log_failure_drops_the_confirmation() {
    let mut state = with_request(registry(), 0, 1, 10);
    let staged = confirm_payment(&state, &client(), moment(11), confirm(0, 500, 2)).unwrap();
    assert_eq!(staged.commit(&mut state, false), Err(ContractError::LogError));
    assert_eq!(state, with_request(registry(), 0, 1, 10));
    assert!(!state.milestones[0].released);
}

#[test]
fn commit_writes_only_the_staged_milestone() {
    let mut state = registry();
    let staged = request_release(&state, &oracle(), moment(1), request(1, 7)).unwrap();
    let expected = staged.milestone;
    staged.commit(&mut state, true).unwrap();
    let blank = registry();
    assert_eq!(state.milestones[0], blank.milestones[0]);
    assert_eq!(state.milestones[1], expected);
    assert_eq!(state.milestones[2], blank.milestones[2]);
    assert_eq!(state.milestones.len(), 3);
    assert_eq!(state.project_id, blank.project_id);
    assert_eq!(state.client, blank.client);
    assert_eq!(state.freelancer, blank.freelancer);
    assert_eq!(state.oracle, blank.oracle);
    assert_eq!(state.plt_decimals, blank.plt_decimals);
}

#[test]
fn commit_refuses_an_id_that_names_no_milestone() {
    let mut state = registry();
    let mut m = Milestone::new(1);
    m.requested = true;
    let stray = Staged { milestone_id: 3, milestone: m, event: () };
    assert_eq!(stray.commit(&mut state, true), Err(ContractError::InvalidMilestone));
    assert_eq!(state, registry());
    let stray = Staged { milestone_id: 3, milestone: m, event: () };
    assert_eq!(stray.commit(&mut state, false), Err(ContractError::LogError));
    assert_eq!(state, registry());
}

#[test]
fn staged_request_holds_milestone_and_event() {
    let state = registry();
    let staged = request_release(&state, &oracle(), moment(77), request(2, 9)).unwrap();
    let mut expected = Milestone::new(u128::MAX);
    expected.requested = true;
    expected.work_hash = Some([9u8; 32]);
    expected.requested_at_ms = Some(moment(77));
    assert_eq!(
        staged,
        Staged {
            milestone_id: 2,
            milestone: expected,
            event: ReleaseRequestedEvent {
                project_id: String::from("p-7"),
                milestone_id: 2,
                work_hash: [9u8; 32],
                requested_at_ms: moment(77),
            },
        }
    );
}

#[test]
fn staged_confirmation_holds_milestone_and_event() {
    let state = with_request(registry(), 0, 9, 77);
    let staged = confirm_payment(&state, &client(), moment(78), confirm(0, 500, 4)).unwrap();
    assert_eq!(
        staged,
        Staged {
            milestone_id: 0,
            milestone: Milestone {
                amount_minor: 500,
                requested: true,
                released: true,
                work_hash: Some([9u8; 32]),
                plt_tx_hash: Some([4u8; 32]),
                requested_at_ms: Some(moment(77)),
                attested_at_ms: Some(moment(78)),
            },
            event: AttestedEvent {
                project_id: String::from("p-7"),
                milestone_id: 0,
                work_hash: [9u8; 32],
                plt_tx_hash: [4u8; 32],
                amount_minor: 500,
                block_time_ms: moment(78),
            },
        }
    );
}

#[test]
fn view_shows_the_milestone_as_it_stands() {
    let state = with_payment(with_request(registry(), 0, 9, 77), 0, 500, 4, 78);
    assert_eq!(
        view_milestone(&state, Ok(ViewParam { milestone_id: 0 })),
        Ok(Some(MilestoneView {
            amount_minor: 500,
            requested: true,
            released: true,
            work_hash: Some([9u8; 32]),
            plt_tx_hash: Some([4u8; 32]),
            requested_at_ms: Some(moment(77)),
            attested_at_ms: Some(moment(78)),
        }))
    );
    assert_eq!(
        view_milestone(&state, Ok(ViewParam { milestone_id: 2 })),
        Ok(Some(MilestoneView {
            amount_minor: u128::MAX,
            requested: false,
            released: false,
            work_hash: None,
            plt_tx_hash: None,
            requested_at_ms: None,
            attested_at_ms: None,
        }))
    );
}

#[test]
fn view_out_of_range_is_empty_and_no_error() {
    let state = registry();
    for id in [3u32, 4, 1_000, u32::MAX] {
        assert_eq!(view_milestone(&state, Ok(ViewParam { milestone_id: id })), Ok(None));
    }
}

#[test]
fn view_changes_nothing() {
    let state = with_request(registry(), 1, 1, 1);
    let before = state.clone();
    let _ = view_milestone(&state, Ok(ViewParam { milestone_id: 1 }));
    let _ = view_milestone(&state, Ok(ViewParam { milestone_id: 9 }));
    assert_eq!(state, before);
}
