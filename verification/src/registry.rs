use vstd::prelude::*;
use crate::error::ContractError;

verus! {

/// Every verdict of the external address validator carries an address.
pub open spec fn all_valid(verdicts: Seq<Option<Seq<char>>>) -> bool {
    forall|i: int| 0 <= i < verdicts.len() ==> verdicts[i] is Some
}

/// The validated addresses, in the order the verdicts came.
pub open spec fn valid_values(verdicts: Seq<Option<Seq<char>>>) -> Seq<Seq<char>>
    recommends
        all_valid(verdicts),
{
    Seq::new(verdicts.len(), |i: int| verdicts[i]->Some_0)
}

/// `admins` with every occurrence of `who` removed, the rest in their
/// original order.
pub open spec fn remove_all(admins: Seq<Seq<char>>, who: Seq<char>) -> Seq<Seq<char>>
    decreases admins.len(),
{
    if admins.len() == 0 {
        Seq::empty()
    } else {
        let rest = remove_all(admins.drop_last(), who);
        if admins.last() == who {
            rest
        } else {
            rest.push(admins.last())
        }
    }
}

/// Turns the validator's verdicts into the list of validated addresses, or
/// reports a malformed entry. The whole batch is rejected as soon as one
/// verdict is empty.
pub fn collect_validated(verdicts: &Vec<Option<String>>) -> (r: Result<
    Vec<String>,
    ContractError,
>)
    ensures
        r is Ok <==> all_valid(verdicts.deep_view()),
        r matches Ok(v) ==> v.deep_view() == valid_values(verdicts.deep_view()),
        r is Err ==> r matches Err(ContractError::InvalidAddress),
{
    let ghost model = verdicts.deep_view();
    let mut out: Vec<String> = Vec::new();
    let mut i: usize = 0;
    while i < verdicts.len()
        invariant
            i <= verdicts.len(),
            model == verdicts.deep_view(),
            forall|j: int| 0 <= j < i ==> model[j] is Some,
            out.deep_view() == valid_values(model.take(i as int)),
        decreases verdicts.len() - i,
    {
        let ghost prev = out.deep_view();
        match &verdicts[i] {
            Some(addr) => {
                out.push(addr.clone());
                proof {
                    assert(out.deep_view() =~= prev.push(model[i as int]->Some_0));
                    assert(out.deep_view() =~= valid_values(model.take(i as int + 1)));
                }
            },
            None => {
                proof {
                    assert(!all_valid(model));
                }
                return Err(ContractError::InvalidAddress);
            },
        }
        i += 1;
    }
    proof {
        assert(model.take(i as int) =~= model);
    }
    Ok(out)
}

/// Whether the member list holds the given address.
pub fn contains_string(list: &Vec<String>, addr: &String) -> (r: bool)
    ensures
        r == list.deep_view().contains(addr@),
{
    let mut i: usize = 0;
    while i < list.len()
        invariant
            i <= list.len(),
            forall|j: int| 0 <= j < i ==> list.deep_view()[j] != addr@,
        decreases list.len() - i,
    {
        if list[i].eq(addr) {
            proof {
                assert(list.deep_view()[i as int] == addr@);
            }
            return true;
        }
        i += 1;
    }
    proof {
        assert(forall|j: int| 0 <= j < list.deep_view().len() ==> list.deep_view()[j] != addr@);
    }
    false
}

/// The member list with every occurrence of `who` removed.
pub fn remove_member(list: &Vec<String>, who: &String) -> (kept: Vec<String>)
    ensures
        kept.deep_view() == remove_all(list.deep_view(), who@),
{
    let ghost model = list.deep_view();
    let mut kept: Vec<String> = Vec::new();
    let mut i: usize = 0;
    while i < list.len()
        invariant
            i <= list.len(),
            model == list.deep_view(),
            kept.deep_view() == remove_all(model.take(i as int), who@),
        decreases list.len() - i,
    {
        let ghost prev = kept.deep_view();
        proof {
            assert(model.take(i as int + 1).drop_last() =~= model.take(i as int));
            assert(model.take(i as int + 1).last() == model[i as int]);
        }
        if !list[i].eq(who) {
            kept.push(list[i].clone());
            proof {
                assert(kept.deep_view() =~= prev.push(model[i as int]));
            }
        }
        i += 1;
    }
    proof {
        assert(model.take(i as int) =~= model);
    }
    kept
}

} // verus!
