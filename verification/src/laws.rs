use vstd::prelude::*;
use vstd::arithmetic::div_mod::{lemma_fundamental_div_mod, lemma_mod_bound};
use crate::contract::{
    add_members_post, admins_list_post, donate_post, instantiate_post, leave_post,
};
use crate::error::ContractError;
use crate::msg::AdminsListResp;
use crate::payment::{exact_payment, payment_amount, Coin};
use crate::registry::{all_valid, remove_all, valid_values};
use crate::response::{sends_to, Response};
use crate::state::ContractState;

verus! {

/// Right after initialization with every address valid, the admins query
/// answers exactly the validated list, in its original order.
pub proof fn lemma_admins_list_after_instantiate(
    pre: ContractState,
    post: ContractState,
    verdicts: Seq<Option<Seq<char>>>,
    denom: Seq<char>,
    r: Result<Response, ContractError>,
    resp: AdminsListResp,
)
    requires
        all_valid(verdicts),
        instantiate_post(pre, post, verdicts, denom, r),
        admins_list_post(post, resp),
    ensures
        r is Ok,
        resp.admins.deep_view() == valid_values(verdicts),
        resp.admins.deep_view().len() == verdicts.len(),
{
}

/// Removing every occurrence of an address is idempotent on the list:
/// removing it a second time changes nothing.
pub proof fn lemma_remove_all_idempotent(admins: Seq<Seq<char>>, who: Seq<char>)
    ensures
        remove_all(remove_all(admins, who), who) == remove_all(admins, who),
    decreases admins.len(),
{
    if admins.len() == 0 {
    } else {
        lemma_remove_all_idempotent(admins.drop_last(), who);
        let rest = remove_all(admins.drop_last(), who);
        if admins.last() != who {
            assert(rest.push(admins.last()).drop_last() =~= rest);
            assert(rest.push(admins.last()).last() == admins.last());
        }
    }
}

/// Leaving is idempotent: a second leave by the same caller finds nothing
/// left to remove, so the member list after two calls equals the member
/// list after one.
pub proof fn lemma_leave_idempotent(
    s0: ContractState,
    s1: ContractState,
    s2: ContractState,
    sender: Seq<char>,
    r1: Result<Response, ContractError>,
    r2: Result<Response, ContractError>,
)
    requires
        s0.admins_model() is Some,
        leave_post(s0, s1, sender, r1),
        leave_post(s1, s2, sender, r2),
    ensures
        s2.admins_model() == s1.admins_model(),
{
    lemma_remove_all_idempotent(s0.admins_model()->Some_0, sender);
}

/// Adding members as a non-member always fails as unauthorized, naming the
/// caller, and leaves the whole state unchanged.
pub proof fn lemma_add_members_unauthorized(
    pre: ContractState,
    post: ContractState,
    sender: Seq<char>,
    verdicts: Seq<Option<Seq<char>>>,
    r: Result<Response, ContractError>,
)
    requires
        pre.admins_model() matches Some(curr) && !curr.contains(sender),
        add_members_post(pre, post, sender, verdicts, r),
    ensures
        r matches Err(ContractError::Unauthorized { sender: s }) && s@ == sender,
        post == pre,
{
}

/// Adding members as a member appends the validated batch at the end: the
/// prior members keep their places and order, and the count grows by
/// exactly the batch size.
pub proof fn lemma_add_members_appends(
    pre: ContractState,
    post: ContractState,
    sender: Seq<char>,
    verdicts: Seq<Option<Seq<char>>>,
    r: Result<Response, ContractError>,
)
    requires
        pre.admins_model() matches Some(curr) && curr.contains(sender),
        all_valid(verdicts),
        add_members_post(pre, post, sender, verdicts, r),
    ensures
        r is Ok,
        post.admins_model() is Some,
        post.admins_model()->Some_0 == pre.admins_model()->Some_0 + valid_values(verdicts),
        post.admins_model()->Some_0.len() == pre.admins_model()->Some_0.len() + verdicts.len(),
        forall|i: int|
            0 <= i < pre.admins_model()->Some_0.len() ==> post.admins_model()->Some_0[i]
                == pre.admins_model()->Some_0[i],
{
}

/// A donation divisible by the member count is distributed without rest:
/// the `n` equal shares of `total / n` add up to the whole payment, so
/// nothing stays on the contract's balance.
pub proof fn lemma_donation_divisible(
    state: ContractState,
    funds: Seq<Coin>,
    r: Result<Response, ContractError>,
)
    requires
        state.is_initialized(),
        exact_payment(funds, state.denom_model()->Some_0),
        state.admins_model()->Some_0.len() > 0,
        payment_amount(funds) as int % (state.admins_model()->Some_0.len() as int) == 0,
        donate_post(state, funds, r),
    ensures
        ({
            let admins = state.admins_model()->Some_0;
            let n = admins.len() as int;
            let total = payment_amount(funds) as int;
            let per = total / n;
            &&& r matches Ok(resp) && resp.messages@.len() == n
            &&& forall|i: int|
                0 <= i < n ==> sends_to(
                    #[trigger] (r->Ok_0).messages@[i],
                    admins[i],
                    state.denom_model()->Some_0,
                    per as u128,
                )
            &&& n * per == total
        }),
{
    let n = state.admins_model()->Some_0.len() as int;
    let total = payment_amount(funds) as int;
    lemma_fundamental_div_mod(total, n);
}

/// A donation not divisible by the member count distributes the floor of
/// the even share to each member; the contract retains exactly
/// `total % n`, which is less than one further share.
pub proof fn lemma_donation_remainder(
    state: ContractState,
    funds: Seq<Coin>,
    r: Result<Response, ContractError>,
)
    requires
        state.is_initialized(),
        exact_payment(funds, state.denom_model()->Some_0),
        state.admins_model()->Some_0.len() > 0,
        donate_post(state, funds, r),
    ensures
        ({
            let admins = state.admins_model()->Some_0;
            let n = admins.len() as int;
            let total = payment_amount(funds) as int;
            let per = total / n;
            &&& r matches Ok(resp) && resp.messages@.len() == n
            &&& forall|i: int|
                0 <= i < n ==> sends_to(
                    #[trigger] (r->Ok_0).messages@[i],
                    admins[i],
                    state.denom_model()->Some_0,
                    per as u128,
                )
            &&& 0 <= total % n < n
            &&& n * per + total % n == total
        }),
{
    let n = state.admins_model()->Some_0.len() as int;
    let total = payment_amount(funds) as int;
    lemma_fundamental_div_mod(total, n);
    lemma_mod_bound(total, n);
}

/// A donation with no coins, several coins, a zero amount or another
/// denomination fails, and issues no transfers: the failing call carries
/// no response at all.
pub proof fn lemma_donation_rejected(
    state: ContractState,
    funds: Seq<Coin>,
    r: Result<Response, ContractError>,
)
    requires
        state.is_initialized(),
        !exact_payment(funds, state.denom_model()->Some_0),
        donate_post(state, funds, r),
    ensures
        r matches Err(ContractError::WrongDenomOrNoPayment),
{
}

} // verus!
