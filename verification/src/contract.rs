use vstd::prelude::*;
use crate::error::ContractError;
use crate::msg::{AdminsListResp, ExecuteMsg, GreetResp, InstantiateMsg, QueryMsg, QueryResp};
use crate::numfmt::dec_of;
use crate::numfmt::u128_to_string;
use crate::payment::{exact_payment, payment_amount, coins, Coin, MessageInfo};
use crate::registry::{
    all_valid, collect_validated, contains_string, remove_all, remove_member, valid_values,
};
use crate::response::{attr_is, sends_to, Attribute, BankSend, Response};
use crate::state::ContractState;

verus! {

/// The response carries no transfers and no attributes.
pub open spec fn empty_response(resp: Response) -> bool {
    resp.messages@.len() == 0 && resp.attributes@.len() == 0
}

/// What initialization leaves behind: with every address validated, both
/// slots are written — the member list in the order given, no dedup — and
/// the response is empty; with any address malformed, the call fails and
/// the state is untouched.
pub open spec fn instantiate_post(
    pre: ContractState,
    post: ContractState,
    verdicts: Seq<Option<Seq<char>>>,
    denom: Seq<char>,
    r: Result<Response, ContractError>,
) -> bool {
    if all_valid(verdicts) {
        &&& r matches Ok(resp) && empty_response(resp)
        &&& post.admins_model() == Some(valid_values(verdicts))
        &&& post.denom_model() == Some(denom)
    } else {
        &&& r matches Err(ContractError::InvalidAddress)
        &&& post == pre
    }
}

/// What adding members does: a caller outside the member list is refused;
/// a malformed address rejects the whole batch; otherwise the validated
/// addresses are appended in order, with no dedup against the existing
/// members or within the batch. Every failure leaves the state untouched.
pub open spec fn add_members_post(
    pre: ContractState,
    post: ContractState,
    sender: Seq<char>,
    verdicts: Seq<Option<Seq<char>>>,
    r: Result<Response, ContractError>,
) -> bool {
    match pre.admins_model() {
        None => r matches Err(ContractError::Uninitialized) && post == pre,
        Some(curr) => {
            if !curr.contains(sender) {
                &&& r matches Err(ContractError::Unauthorized { sender: s }) && s@ == sender
                &&& post == pre
            } else if all_valid(verdicts) {
                &&& r matches Ok(resp) && empty_response(resp)
                &&& post.admins_model() == Some(curr + valid_values(verdicts))
                &&& post.denom_model() == pre.denom_model()
            } else {
                &&& r matches Err(ContractError::InvalidAddress)
                &&& post == pre
            }
        },
    }
}

/// What leaving does: every occurrence of the caller goes, the rest keep
/// their order, and the call succeeds whether or not the caller was a
/// member at all — self-removal needs no authorization.
pub open spec fn leave_post(
    pre: ContractState,
    post: ContractState,
    sender: Seq<char>,
    r: Result<Response, ContractError>,
) -> bool {
    match pre.admins_model() {
        None => r matches Err(ContractError::Uninitialized) && post == pre,
        Some(curr) => {
            &&& r matches Ok(resp) && empty_response(resp)
            &&& post.admins_model() == Some(remove_all(curr, sender))
            &&& post.denom_model() == pre.denom_model()
        },
    }
}

/// The response of a successful donation: one transfer of `per` to each
/// member, in registry order, and the three attributes that off-contract
/// observers index.
pub open spec fn donation_response(
    resp: Response,
    admins: Seq<Seq<char>>,
    denom: Seq<char>,
    total: u128,
    per: u128,
) -> bool {
    &&& resp.messages@.len() == admins.len()
    &&& forall|i: int|
        0 <= i < admins.len() ==> sends_to(#[trigger] resp.messages@[i], admins[i], denom, per)
    &&& resp.attributes@.len() == 3
    &&& attr_is(resp.attributes@[0], "action"@, "donate"@)
    &&& attr_is(resp.attributes@[1], "amount"@, dec_of(total as int))
    &&& attr_is(resp.attributes@[2], "per_admin"@, dec_of(per as int))
}

/// What donating does: the payment must be exactly one nonzero coin of the
/// stored denomination, the registry must not be empty, and then each
/// member receives the floor of an even share. The remainder is neither
/// distributed nor refunded: it stays on the contract's own balance. The
/// state itself never changes.
pub open spec fn donate_post(
    state: ContractState,
    funds: Seq<Coin>,
    r: Result<Response, ContractError>,
) -> bool {
    if !state.is_initialized() {
        r matches Err(ContractError::Uninitialized)
    } else {
        let denom = state.denom_model()->Some_0;
        let admins = state.admins_model()->Some_0;
        if !exact_payment(funds, denom) {
            r matches Err(ContractError::WrongDenomOrNoPayment)
        } else if admins.len() == 0 {
            r matches Err(ContractError::EmptyRegistry)
        } else {
            let total = payment_amount(funds);
            let per = (total as int / admins.len() as int) as u128;
            r matches Ok(resp) && donation_response(resp, admins, denom, total, per)
        }
    }
}

/// The admins query answers with the current member list, and with the
/// empty list if the contract was never initialized.
pub open spec fn admins_list_post(state: ContractState, resp: AdminsListResp) -> bool {
    resp.admins.deep_view() == match state.admins_model() {
        Some(curr) => curr,
        None => Seq::<Seq<char>>::empty(),
    }
}

/// Writes the initial member list and the donation denomination.
///
/// `validated` holds the external validator's verdict on each entry of
/// `msg.admins`, in order: the host validates the raw strings, this
/// function decides. The host dispatches initialization once, on a fresh
/// state; both slots are overwritten unconditionally.
pub fn instantiate(
    state: &mut ContractState,
    msg: InstantiateMsg,
    validated: &Vec<Option<String>>,
) -> (r: Result<Response, ContractError>)
    requires
        validated@.len() == msg.admins@.len(),
    ensures
        instantiate_post(
            *old(state),
            *final(state),
            validated.deep_view(),
            msg.donation_denom@,
            r,
        ),
{
    let admins = match collect_validated(validated) {
        Ok(a) => a,
        Err(e) => {
            return Err(e);
        },
    };
    state.admins = Some(admins);
    state.donation_denom = Some(msg.donation_denom);
    Ok(Response::new())
}

/// Routes a command to the operation that executes it. `validated` holds
/// the validator's verdicts on the raw addresses of an `AddMembers`
/// command and is ignored by the other commands.
pub fn execute(
    state: &mut ContractState,
    info: MessageInfo,
    msg: ExecuteMsg,
    validated: &Vec<Option<String>>,
) -> (r: Result<Response, ContractError>)
    requires
        msg matches ExecuteMsg::AddMembers { admins } ==> validated@.len() == admins@.len(),
    ensures
        msg is AddMembers ==> add_members_post(
            *old(state),
            *final(state),
            info.sender@,
            validated.deep_view(),
            r,
        ),
        msg is Leave ==> leave_post(*old(state), *final(state), info.sender@, r),
        msg is Donate ==> donate_post(*old(state), info.funds@, r) && *final(state) == *old(
            state,
        ),
{
    match msg {
        ExecuteMsg::AddMembers { admins: _ } => add_members(state, info, validated),
        ExecuteMsg::Leave {} => leave(state, info),
        ExecuteMsg::Donate {} => donate(&*state, &info),
    }
}

/// Appends the validated batch to the member list, provided the caller is
/// a member itself. `validated` holds the validator's verdicts as in
/// `instantiate`.
pub fn add_members(
    state: &mut ContractState,
    info: MessageInfo,
    validated: &Vec<Option<String>>,
) -> (r: Result<Response, ContractError>)
    ensures
        add_members_post(*old(state), *final(state), info.sender@, validated.deep_view(), r),
{
    let curr = match &state.admins {
        Some(a) => a,
        None => {
            return Err(ContractError::Uninitialized);
        },
    };
    if !contains_string(curr, &info.sender) {
        return Err(ContractError::Unauthorized { sender: info.sender });
    }
    let ghost curr_model = curr.deep_view();
    let mut next = clone_members(curr);
    let mut incoming = match collect_validated(validated) {
        Ok(a) => a,
        Err(e) => {
            return Err(e);
        },
    };
    let ghost incoming_model = incoming.deep_view();
    next.append(&mut incoming);
    proof {
        assert(next.deep_view() =~= curr_model + incoming_model);
    }
    state.admins = Some(next);
    Ok(Response::new())
}

/// Removes every occurrence of the caller from the member list. Succeeds
/// without any authorization check; leaving is the one mutation every
/// caller may perform on itself, and removing a non-member is a no-op.
pub fn leave(state: &mut ContractState, info: MessageInfo) -> (r: Result<
    Response,
    ContractError,
>)
    ensures
        leave_post(*old(state), *final(state), info.sender@, r),
{
    let kept = match &state.admins {
        Some(curr) => remove_member(curr, &info.sender),
        None => {
            return Err(ContractError::Uninitialized);
        },
    };
    state.admins = Some(kept);
    Ok(Response::new())
}

/// Splits the attached payment evenly among the current members: one
/// transfer of `total / n` to each of the `n` members, the remainder left
/// on the contract's balance, and the action recorded in attributes.
pub fn donate(state: &ContractState, info: &MessageInfo) -> (r: Result<Response, ContractError>)
    ensures
        donate_post(*state, info.funds@, r),
{
    let denom = match &state.donation_denom {
        Some(d) => d,
        None => {
            return Err(ContractError::Uninitialized);
        },
    };
    let admins = match &state.admins {
        Some(a) => a,
        None => {
            return Err(ContractError::Uninitialized);
        },
    };
    let total = match crate::payment::must_pay(&info.funds, denom.as_str()) {
        Some(t) => t,
        None => {
            return Err(ContractError::WrongDenomOrNoPayment);
        },
    };
    if admins.len() == 0 {
        return Err(ContractError::EmptyRegistry);
    }
    let per: u128 = total / (admins.len() as u128);
    let ghost admins_model = admins.deep_view();
    let ghost denom_model = denom@;
    let mut messages: Vec<BankSend> = Vec::new();
    let mut i: usize = 0;
    while i < admins.len()
        invariant
            i <= admins.len(),
            admins_model == admins.deep_view(),
            denom_model == denom@,
            messages@.len() == i,
            forall|j: int|
                0 <= j < i ==> sends_to(#[trigger] messages@[j], admins_model[j], denom_model, per),
        decreases admins.len() - i,
    {
        messages.push(BankSend { to_address: admins[i].clone(), amount: coins(per, denom) });
        i += 1;
    }
    let mut attributes: Vec<Attribute> = Vec::new();
    attributes.push(Attribute { key: "action".to_owned(), value: "donate".to_owned() });
    attributes.push(Attribute { key: "amount".to_owned(), value: u128_to_string(total) });
    attributes.push(Attribute { key: "per_admin".to_owned(), value: u128_to_string(per) });
    Ok(Response { messages, attributes })
}

/// Routes a question to the answer it asks for; queries never mutate the
/// state.
pub fn query(state: &ContractState, msg: QueryMsg) -> (r: QueryResp)
    ensures
        msg is Greet ==> (r matches QueryResp::Greet(g) && g.message@ == "Hello World"@),
        msg is AdminsList ==> (r matches QueryResp::AdminsList(a) && admins_list_post(*state, a)),
{
    match msg {
        QueryMsg::Greet {} => QueryResp::Greet(greet()),
        QueryMsg::AdminsList {} => QueryResp::AdminsList(admins_list(state)),
    }
}

/// The fixed greeting; it touches no state.
pub fn greet() -> (resp: GreetResp)
    ensures
        resp.message@ == "Hello World"@,
{
    GreetResp { message: "Hello World".to_owned() }
}

/// Answers with the current member list, and with the empty list if the
/// contract was never initialized.
pub fn admins_list(state: &ContractState) -> (resp: AdminsListResp)
    ensures
        admins_list_post(*state, resp),
{
    let admins = match &state.admins {
        Some(a) => clone_members(a),
        None => Vec::new(),
    };
    proof {
        if state.admins is None {
            assert(admins.deep_view() =~= Seq::<Seq<char>>::empty());
        }
    }
    AdminsListResp { admins }
}

/// A copy of the member list with the same addresses.
fn clone_members(list: &Vec<String>) -> (c: Vec<String>)
    ensures
        c.deep_view() == list.deep_view(),
{
    let c = list.clone();
    proof {
        assert forall|i: int| 0 <= i < list@.len() implies c@[i] == list@[i] by {
            assert(cloned::<String>(list@[i], c@[i]));
        }
        assert(c@ =~= list@);
    }
    c
}

} // verus!
