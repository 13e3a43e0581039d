use vstd::prelude::*;

use crate::address::Address;
use crate::error::ErrorCode;

verus! {

/// The largest number of operators a domain may hold.
pub const MAX_OPERATORS: usize = 5;

/// An operator list is a set: within the bound, no key twice.
pub open spec fn operators_wf(operators: Seq<Address>) -> bool {
    &&& operators.len() <= MAX_OPERATORS
    &&& operators.no_duplicates()
}

/// Why a key cannot be added to the list, or `None` where it can. A full
/// list is reported before a key that is there already.
pub open spec fn add_failure(operators: Seq<Address>, operator: Address) -> Option<ErrorCode> {
    if operators.len() >= MAX_OPERATORS {
        Some(ErrorCode::MaxOperatorsReached)
    } else if operators.contains(operator) {
        Some(ErrorCode::OperatorAlreadyExists)
    } else {
        None
    }
}

/// The first place of `key` in the list, if it has one.
pub fn position(operators: &Vec<Address>, key: &Address) -> (r: Option<usize>)
    ensures
        match r {
            Some(i) => i < operators@.len() && operators@[i as int] == *key && forall|j: int|
                0 <= j < i ==> operators@[j] != *key,
            None => !operators@.contains(*key),
        },
{
    let mut i: usize = 0;
    while i < operators.len()
        invariant
            i <= operators.len(),
            forall|j: int| 0 <= j < i ==> operators@[j] != *key,
        decreases operators.len() - i,
    {
        if operators[i] == *key {
            return Some(i);
        }
        i += 1;
    }
    None
}

/// Whether `key` is in the list.
pub fn contains(operators: &Vec<Address>, key: &Address) -> (r: bool)
    ensures
        r == operators@.contains(*key),
{
    position(operators, key).is_some()
}

/// Adds `operator` at the end of the list, unless the list is full or holds
/// the key already; then the list stays as it was.
pub fn add(operators: &mut Vec<Address>, operator: Address) -> (r: Result<(), ErrorCode>)
    ensures
        match r {
            Ok(()) => add_failure(old(operators)@, operator) is None && final(operators)@ == old(operators)@.push(operator),
            Err(e) => add_failure(old(operators)@, operator) == Some(e) && final(operators)@
                == old(operators)@,
        },
        operators_wf(old(operators)@) ==> operators_wf(final(operators)@),
{
    if operators.len() >= MAX_OPERATORS {
        return Err(ErrorCode::MaxOperatorsReached);
    }
    if contains(operators, &operator) {
        return Err(ErrorCode::OperatorAlreadyExists);
    }
    operators.push(operator);
    proof {
        let before = old(operators)@;
        let after = operators@;
        if before.no_duplicates() {
            assert forall|i: int, j: int|
                0 <= i < after.len() && 0 <= j < after.len() && i != j implies after[i]
                != after[j] by {
                if i < before.len() {
                    assert(before[i] == after[i]);
                }
                if j < before.len() {
                    assert(before[j] == after[j]);
                }
            }
        }
    }
    Ok(())
}

/// Takes `operator` out of the list, the others keeping their order; a key
/// that is not there is `OperatorNotFound`, and the list stays as it was.
pub fn remove(operators: &mut Vec<Address>, operator: &Address) -> (r: Result<(), ErrorCode>)
    ensures
        match r {
            Ok(()) => exists|i: int|
                0 <= i < old(operators)@.len() && old(operators)@[i] == *operator && (forall|
                    j: int,
                |
                    0 <= j < i ==> old(operators)@[j] != *operator) && final(operators)@ == old(operators)@.remove(i),
            Err(e) => e == ErrorCode::OperatorNotFound && !old(operators)@.contains(*operator)
                && final(operators)@ == old(operators)@,
        },
        operators_wf(old(operators)@) ==> operators_wf(final(operators)@) && (r is Ok ==> !final(operators)@.contains(*operator)),
{
    match position(operators, operator) {
        Some(index) => {
            operators.remove(index);
            proof {
                let before = old(operators)@;
                let after = operators@;
                assert(after == before.remove(index as int));
                if before.no_duplicates() {
                    assert forall|i: int, j: int|
                        0 <= i < after.len() && 0 <= j < after.len() && i != j implies after[i]
                        != after[j] by {
                        let bi = if i < index {
                            i
                        } else {
                            i + 1
                        };
                        let bj = if j < index {
                            j
                        } else {
                            j + 1
                        };
                        assert(after[i] == before[bi]);
                        assert(after[j] == before[bj]);
                    }
                    assert forall|i: int| 0 <= i < after.len() implies after[i] != *operator by {
                        let bi = if i < index {
                            i
                        } else {
                            i + 1
                        };
                        assert(after[i] == before[bi]);
                    }
                }
            }
            Ok(())
        },
        None => Err(ErrorCode::OperatorNotFound),
    }
}

} // verus!
