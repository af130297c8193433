//! Bookkeeping of a batch run over many symbols (the timing batch job).
use vstd::prelude::*;
use crate::text::{decimal, decimal_string};

verus! {

/// How many symbols of a batch were analyzed and stored, and how many failed.
#[derive(Clone, Copy, Debug)]
pub struct BatchTally {
    pub processed: u64,
    pub errors: u64,
}

impl BatchTally {
    /// A tally before any symbol.
    pub fn new() -> (tally: Self)
        ensures
            tally.processed == 0,
            tally.errors == 0,
    {
        BatchTally { processed: 0, errors: 0 }
    }

    /// Records the outcome of one symbol: stored, or failed at analysis or
    /// storage.
    pub fn record(&mut self, stored: bool)
        requires
            old(self).processed + old(self).errors < u64::MAX,
        ensures
            stored ==> final(self).processed == old(self).processed + 1 && final(self).errors
                == old(self).errors,
            !stored ==> final(self).errors == old(self).errors + 1 && final(self).processed
                == old(self).processed,
    {
        if stored {
            self.processed = self.processed + 1;
        } else {
            self.errors = self.errors + 1;
        }
    }

    /// The message of the batch response: `Processed {n} symbols`.
    pub fn summary_message(&self) -> (message: String)
        ensures
            message@ == "Processed "@ + decimal(self.processed as nat) + " symbols"@,
    {
        let mut message = String::from_str("Processed ");
        let digits = decimal_string(self.processed);
        message.append(digits.as_str());
        message.append(" symbols");
        message
    }
}

/// The outcomes of a batch, in order: each symbol was stored or failed.
pub open spec fn stored_count(outcomes: Seq<bool>) -> nat
    decreases outcomes.len(),
{
    if outcomes.len() == 0 {
        0
    } else {
        stored_count(outcomes.drop_last()) + if outcomes.last() {
            1nat
        } else {
            0nat
        }
    }
}

/// Tallies the outcomes of a batch; every symbol is counted once, as
/// processed or as an error.
pub fn tally_outcomes(outcomes: &Vec<bool>) -> (tally: BatchTally)
    ensures
        tally.processed == stored_count(outcomes@),
        tally.processed + tally.errors == outcomes@.len(),
{
    let mut tally = BatchTally::new();
    let mut i: usize = 0;
    while i < outcomes.len()
        invariant
            0 <= i <= outcomes@.len(),
            tally.processed == stored_count(outcomes@.take(i as int)),
            tally.processed + tally.errors == i,
        decreases outcomes.len() - i,
    {
        assert(outcomes@.take(i + 1).drop_last() =~= outcomes@.take(i as int));
        tally.record(outcomes[i]);
        i = i + 1;
    }
    assert(outcomes@.take(outcomes.len() as int) =~= outcomes@);
    tally
}

} // verus!
