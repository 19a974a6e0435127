//! The loans entered during a session, in the order they were added.
use vstd::prelude::*;

use crate::input::{err_view, LoanInput};

verus! {

/// One loan of the session's history.
pub struct LoanHistory {
    pub loan_input: LoanInput,
}

pub open spec fn no_loans_message() -> Seq<char> {
    "No loans found"@
}

/// The ids of the loans, in the order of the history, for a user to choose
/// the one to edit; an error when there is none.
pub fn loan_ids(history: &Vec<LoanHistory>) -> (r: Result<Vec<usize>, String>)
    ensures
        history@.len() == 0 ==> err_view(r) == Err::<Vec<usize>, Seq<char>>(no_loans_message()),
        history@.len() > 0 ==> (r matches Ok(ids) && ids@.len() == history@.len()
            && forall|i: int| 0 <= i < history@.len() ==> #[trigger] ids@[i] == history@[i].loan_input.id),
{
    if history.len() == 0 {
        return Err("No loans found".to_owned());
    }
    let mut ids: Vec<usize> = Vec::new();
    let mut i: usize = 0;
    while i < history.len()
        invariant
            i <= history@.len(),
            ids@.len() == i,
            forall|j: int| 0 <= j < i ==> #[trigger] ids@[j] == history@[j].loan_input.id,
        decreases history@.len() - i,
    {
        ids.push(history[i].loan_input.id);
        i = i + 1;
    }
    Ok(ids)
}

/// Puts `loan_input` in place of the loan at `index`; the other loans stay.
pub fn replace_loan(history: &mut Vec<LoanHistory>, index: usize, loan_input: LoanInput)
    requires
        index < old(history)@.len(),
    ensures
        final(history)@.len() == old(history)@.len(),
        final(history)@[index as int].loan_input == loan_input,
        forall|j: int| 0 <= j < old(history)@.len() && j != index ==> #[trigger] final(history)@[j] == old(history)@[j],
{
    history.set(index, LoanHistory { loan_input });
}

} // verus!
