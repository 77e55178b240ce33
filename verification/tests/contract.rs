use admin_share::contract::{admins_list, donate, execute, greet, instantiate, leave, query};
use admin_share::error::ContractError;
use admin_share::msg::{AdminsListResp, ExecuteMsg, InstantiateMsg, QueryMsg, QueryResp};
use admin_share::payment::{Coin, MessageInfo};
use admin_share::state::ContractState;

fn strs(addrs: &[&str]) -> Vec<String> {
    addrs.iter().map(|a| a.to_string()).collect()
}

fn verdicts(addrs: &[&str]) -> Vec<Option<String>> {
    addrs.iter().map(|a| Some(a.to_string())).collect()
}

fn info(sender: &str, funds: Vec<Coin>) -> MessageInfo {
    MessageInfo { sender: sender.to_string(), funds }
}

fn coin(amount: u128, denom: &str) -> Coin {
    Coin { denom: denom.to_string(), amount }
}

fn init(admins: &[&str], denom: &str) -> ContractState {
    let mut state = ContractState::uninitialized();
    instantiate(
        &mut state,
        InstantiateMsg { admins: strs(admins), donation_denom: denom.to_string() },
        &verdicts(admins),
    )
    .unwrap();
    state
}

fn admins_of(state: &ContractState) -> Vec<String> {
    match query(state, QueryMsg::AdminsList {}) {
        QueryResp::AdminsList(resp) => resp.admins,
        _ => panic!("wrong response variant"),
    }
}

#[test]
fn instantiation() {
    let state = init(&[], "uscrt");
    let resp = match query(&state, QueryMsg::AdminsList {}) {
        QueryResp::AdminsList(resp) => resp,
        _ => panic!("wrong response variant"),
    };
    assert_eq!(resp, AdminsListResp { admins: vec![] });

    let state = init(&["admin1", "admin2"], "uscrt");
    let resp = match query(&state, QueryMsg::AdminsList {}) {
        QueryResp::AdminsList(resp) => resp,
        _ => panic!("wrong response variant"),
    };
    assert_eq!(resp, AdminsListResp { admins: strs(&["admin1", "admin2"]) });
}

#[test]
fn unauthorized() {
    let mut state = init(&[], "uscrt");
    let err = execute(
        &mut state,
        info("owner", vec![]),
        ExecuteMsg::AddMembers { admins: strs(&["user"]) },
        &verdicts(&["user"]),
    )
    .unwrap_err();
    assert_eq!(ContractError::Unauthorized { sender: "owner".to_string() }, err);
    assert_eq!(admins_of(&state), strs(&[]));
}

#[test]
fn add_members() {
    let mut state = init(&["owner"], "uscrt");
    execute(
        &mut state,
        info("owner", vec![]),
        ExecuteMsg::AddMembers { admins: strs(&["admin1", "admin2"]) },
        &verdicts(&["admin1", "admin2"]),
    )
    .unwrap();
    assert_eq!(admins_of(&state), strs(&["owner", "admin1", "admin2"]));
}

#[test]
fn donations() {
    let mut state = init(&["admin1", "admin2"], "eth");
    let resp = execute(
        &mut state,
        info("user", vec![coin(5, "eth")]),
        ExecuteMsg::Donate {},
        &verdicts(&[]),
    )
    .unwrap();

    // Two transfers, one per member in registry order, of 2 "eth" each.
    assert_eq!(resp.messages.len(), 2);
    assert_eq!(resp.messages[0].to_address, "admin1".to_string());
    assert_eq!(resp.messages[0].amount, vec![coin(2, "eth")]);
    assert_eq!(resp.messages[1].to_address, "admin2".to_string());
    assert_eq!(resp.messages[1].amount, vec![coin(2, "eth")]);

    // The whole payment of 5 leaves the donor; 2 go to each admin and the
    // remaining 1 stays on the contract's balance.
    let distributed: u128 = resp.messages.iter().map(|m| m.amount[0].amount).sum();
    assert_eq!(distributed, 4);
    assert_eq!(5 - distributed, 1);

    assert_eq!(resp.attributes.len(), 3);
    assert_eq!(resp.attributes[0].key, "action".to_string());
    assert_eq!(resp.attributes[0].value, "donate".to_string());
    assert_eq!(resp.attributes[1].key, "amount".to_string());
    assert_eq!(resp.attributes[1].value, "5".to_string());
    assert_eq!(resp.attributes[2].key, "per_admin".to_string());
    assert_eq!(resp.attributes[2].value, "2".to_string());

    // Donating never changes the member list.
    assert_eq!(admins_of(&state), strs(&["admin1", "admin2"]));
}

#[test]
fn greet_answers_fixed_message() {
    assert_eq!(greet().message, "Hello World".to_string());
    match query(&ContractState::uninitialized(), QueryMsg::Greet {}) {
        QueryResp::Greet(resp) => assert_eq!(resp.message, "Hello World".to_string()),
        _ => panic!("wrong response variant"),
    }
}

#[test]
fn instantiate_rejects_invalid_address() {
    let mut state = ContractState::uninitialized();
    let mut bad = verdicts(&["good"]);
    bad.push(None);
    let err = instantiate(
        &mut state,
        InstantiateMsg { admins: strs(&["good", "b@d"]), donation_denom: "eth".to_string() },
        &bad,
    )
    .unwrap_err();
    assert_eq!(err, ContractError::InvalidAddress);
    // The failed call writes nothing.
    assert_eq!(state, ContractState::uninitialized());
}

#[test]
fn add_members_rejects_invalid_address() {
    let mut state = init(&["owner"], "eth");
    let mut bad = verdicts(&["fine"]);
    bad.push(None);
    let err = admin_share::contract::add_members(&mut state, info("owner", vec![]), &bad)
        .unwrap_err();
    assert_eq!(err, ContractError::InvalidAddress);
    assert_eq!(admins_of(&state), strs(&["owner"]));
}

#[test]
fn add_members_by_non_member_changes_nothing() {
    let mut state = init(&["owner", "admin1", "admin2"], "uscrt");
    let err = execute(
        &mut state,
        info("user", vec![]),
        ExecuteMsg::AddMembers { admins: strs(&["user"]) },
        &verdicts(&["user"]),
    )
    .unwrap_err();
    assert_eq!(err, ContractError::Unauthorized { sender: "user".to_string() });
    assert_eq!(admins_of(&state), strs(&["owner", "admin1", "admin2"]));
}

#[test]
fn add_members_keeps_duplicates() {
    // No dedup: adding an existing address again doubles its entry (and
    // with it, its donation share).
    let mut state = init(&["owner"], "eth");
    admin_share::contract::add_members(&mut state, info("owner", vec![]), &verdicts(&["owner"]))
        .unwrap();
    assert_eq!(admins_of(&state), strs(&["owner", "owner"]));
}

#[test]
fn leave_removes_every_occurrence() {
    let mut state = init(&["a", "b", "a"], "eth");
    leave(&mut state, info("a", vec![])).unwrap();
    assert_eq!(admins_of(&state), strs(&["b"]));
}

#[test]
fn leave_of_non_member_changes_nothing() {
    let mut state = init(&["a", "b"], "eth");
    leave(&mut state, info("stranger", vec![])).unwrap();
    assert_eq!(admins_of(&state), strs(&["a", "b"]));
}

#[test]
fn leave_twice_equals_leave_once() {
    let mut state = init(&["a", "b", "a"], "eth");
    leave(&mut state, info("a", vec![])).unwrap();
    let after_once = admins_of(&state);
    leave(&mut state, info("a", vec![])).unwrap();
    assert_eq!(admins_of(&state), after_once);
}

#[test]
fn donate_rejects_wrong_denomination() {
    let mut state = init(&["a", "b"], "eth");
    let err = execute(
        &mut state,
        info("user", vec![coin(5, "btc")]),
        ExecuteMsg::Donate {},
        &verdicts(&[]),
    )
    .unwrap_err();
    assert_eq!(err, ContractError::WrongDenomOrNoPayment);
}

#[test]
fn donate_rejects_missing_payment() {
    let state = init(&["a", "b"], "eth");
    let err = donate(&state, &info("user", vec![])).unwrap_err();
    assert_eq!(err, ContractError::WrongDenomOrNoPayment);
}

#[test]
fn donate_rejects_zero_amount() {
    let state = init(&["a", "b"], "eth");
    let err = donate(&state, &info("user", vec![coin(0, "eth")])).unwrap_err();
    assert_eq!(err, ContractError::WrongDenomOrNoPayment);
}

#[test]
fn donate_rejects_multiple_coins() {
    let state = init(&["a", "b"], "eth");
    let err = donate(&state, &info("user", vec![coin(2, "eth"), coin(3, "eth")])).unwrap_err();
    assert_eq!(err, ContractError::WrongDenomOrNoPayment);
}

#[test]
fn donate_rejects_empty_registry() {
    let state = init(&[], "eth");
    let err = donate(&state, &info("user", vec![coin(5, "eth")])).unwrap_err();
    assert_eq!(err, ContractError::EmptyRegistry);
}

#[test]
fn donate_divisible_leaves_no_rest() {
    let state = init(&["a", "b", "c"], "eth");
    let resp = donate(&state, &info("user", vec![coin(6, "eth")])).unwrap();
    let distributed: u128 = resp.messages.iter().map(|m| m.amount[0].amount).sum();
    assert_eq!(distributed, 6);
    for m in &resp.messages {
        assert_eq!(m.amount, vec![coin(2, "eth")]);
    }
}

#[test]
fn donate_indivisible_retains_remainder() {
    let state = init(&["a", "b", "c"], "eth");
    let resp = donate(&state, &info("user", vec![coin(7, "eth")])).unwrap();
    let distributed: u128 = resp.messages.iter().map(|m| m.amount[0].amount).sum();
    assert_eq!(distributed, 6);
    assert_eq!(7 - distributed, 1);
    assert_eq!(resp.attributes[2].value, "2".to_string());
}

#[test]
fn calls_before_initialization_fail() {
    let mut state = ContractState::uninitialized();
    let err = execute(
        &mut state,
        info("user", vec![]),
        ExecuteMsg::AddMembers { admins: strs(&["a"]) },
        &verdicts(&["a"]),
    )
    .unwrap_err();
    assert_eq!(err, ContractError::Uninitialized);
    let err = leave(&mut state, info("user", vec![])).unwrap_err();
    assert_eq!(err, ContractError::Uninitialized);
    let err = donate(&state, &info("user", vec![coin(5, "eth")])).unwrap_err();
    assert_eq!(err, ContractError::Uninitialized);
    // The admins query alone answers before initialization: with the empty
    // list.
    assert_eq!(admins_list(&state).admins, strs(&[]));
}
