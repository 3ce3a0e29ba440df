pub mod classify;
pub mod config;
pub mod enumerate;
pub mod error;
pub mod failpoint;
pub mod results;
pub mod table;
pub mod workload;

use vstd::prelude::*;

verus! {

/// Outcome classification of one (table, workload, injection) trial.
#[derive(Clone, Copy, Debug, PartialEq, Eq, Structural)]
pub enum Effectiveness {
    /// The write-time safeguard reported the corruption.
    Success,
    /// The statement sequence failed for an unrelated reason.
    OtherError,
    /// The corruption went unnoticed at write time and the structural
    /// re-check caught it afterwards.
    Failure,
    /// Neither the write path nor the re-check observed any effect.
    Consistent,
}

/// The corruption kinds the target process can inject, in the order a run
/// exercises them.  Injections are assumed not to corrupt table identity,
/// so dropping the table still clears what they wrote.
pub open spec fn spec_injections() -> Seq<Seq<char>> {
    seq!["extraIndex"@, "missingIndex"@, "corruptIndexKey"@, "corruptIndexValue"@]
}

/// The canonical injection names no two of which are alike.
pub proof fn lemma_injections_distinct()
    ensures
        forall|k1: int, k2: int|
            0 <= k1 < k2 < spec_injections().len() ==> spec_injections()[k1]
                != spec_injections()[k2],
{
    reveal_strlit("extraIndex");
    reveal_strlit("missingIndex");
    reveal_strlit("corruptIndexKey");
    reveal_strlit("corruptIndexValue");
    assert(spec_injections()[0].len() == 10);
    assert(spec_injections()[1].len() == 12);
    assert(spec_injections()[2].len() == 15);
    assert(spec_injections()[3].len() == 17);
}

/// The corruption kinds, as the driver consumes them.
pub fn available_injections() -> (r: Vec<&'static str>)
    ensures
        r@.len() == spec_injections().len(),
        forall|k: int| 0 <= k < r@.len() ==> r@[k]@ == spec_injections()[k],
{
    let mut v: Vec<&'static str> = Vec::new();
    v.push("extraIndex");
    v.push("missingIndex");
    v.push("corruptIndexKey");
    v.push("corruptIndexValue");
    v
}

} // verus!
