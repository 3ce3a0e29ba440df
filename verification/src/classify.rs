use crate::Effectiveness;
use vstd::prelude::*;

verus! {

/// ASCII case folding of one character; anything but an ASCII capital is
/// left alone.
pub open spec fn spec_lower_char(c: char) -> char {
    if c == 'A' {
        'a'
    } else if c == 'B' {
        'b'
    } else if c == 'C' {
        'c'
    } else if c == 'D' {
        'd'
    } else if c == 'E' {
        'e'
    } else if c == 'F' {
        'f'
    } else if c == 'G' {
        'g'
    } else if c == 'H' {
        'h'
    } else if c == 'I' {
        'i'
    } else if c == 'J' {
        'j'
    } else if c == 'K' {
        'k'
    } else if c == 'L' {
        'l'
    } else if c == 'M' {
        'm'
    } else if c == 'N' {
        'n'
    } else if c == 'O' {
        'o'
    } else if c == 'P' {
        'p'
    } else if c == 'Q' {
        'q'
    } else if c == 'R' {
        'r'
    } else if c == 'S' {
        's'
    } else if c == 'T' {
        't'
    } else if c == 'U' {
        'u'
    } else if c == 'V' {
        'v'
    } else if c == 'W' {
        'w'
    } else if c == 'X' {
        'x'
    } else if c == 'Y' {
        'y'
    } else if c == 'Z' {
        'z'
    } else {
        c
    }
}

/// ASCII case folding of a text.
pub open spec fn spec_lower(s: Seq<char>) -> Seq<char> {
    s.map_values(|c: char| spec_lower_char(c))
}

fn lower_char(c: char) -> (r: char)
    ensures
        r == spec_lower_char(c),
{
    match c {
        'A' => 'a',
        'B' => 'b',
        'C' => 'c',
        'D' => 'd',
        'E' => 'e',
        'F' => 'f',
        'G' => 'g',
        'H' => 'h',
        'I' => 'i',
        'J' => 'j',
        'K' => 'k',
        'L' => 'l',
        'M' => 'm',
        'N' => 'n',
        'O' => 'o',
        'P' => 'p',
        'Q' => 'q',
        'R' => 'r',
        'S' => 's',
        'T' => 't',
        'U' => 'u',
        'V' => 'v',
        'W' => 'w',
        'X' => 'x',
        'Y' => 'y',
        'Z' => 'z',
        _ => c,
    }
}

/// The haystack's ASCII-lowered characters.
fn lower_chars(s: &str) -> (r: Vec<char>)
    ensures
        r@ == spec_lower(s@),
{
    let n = s.unicode_len();
    let mut out: Vec<char> = Vec::new();
    let mut i: usize = 0;
    while i < n
        invariant
            i <= n,
            n == s@.len(),
            out@.len() == i,
            forall|k: int| 0 <= k < i ==> out@[k] == spec_lower_char(s@[k]),
        decreases n - i,
    {
        out.push(lower_char(s.get_char(i)));
        i = i + 1;
    }
    proof {
        assert(out@ =~= spec_lower(s@));
    }
    out
}

fn chars_of(s: &str) -> (r: Vec<char>)
    ensures
        r@ == s@,
{
    let n = s.unicode_len();
    let mut out: Vec<char> = Vec::new();
    let mut i: usize = 0;
    while i < n
        invariant
            i <= n,
            n == s@.len(),
            out@.len() == i,
            forall|k: int| 0 <= k < i ==> out@[k] == s@[k],
        decreases n - i,
    {
        out.push(s.get_char(i));
        i = i + 1;
    }
    proof {
        assert(out@ =~= s@);
    }
    out
}

/// The needle occurs in the haystack starting at position `i`.
pub open spec fn spec_occurs_at(h: Seq<char>, n: Seq<char>, i: int) -> bool {
    0 <= i && i + n.len() <= h.len() && h.subrange(i, i + n.len()) == n
}

/// The needle occurs somewhere in the haystack.
pub open spec fn spec_contains_seq(h: Seq<char>, n: Seq<char>) -> bool {
    exists|i: int| spec_occurs_at(h, n, i)
}

/// The haystack contains the needle once the haystack's ASCII case is
/// folded; the needle is expected to be lower case already.
pub open spec fn spec_contains_ci(h: Seq<char>, n: Seq<char>) -> bool {
    spec_contains_seq(spec_lower(h), n)
}

fn contains_chars(h: &Vec<char>, n: &Vec<char>) -> (r: bool)
    ensures
        r == spec_contains_seq(h@, n@),
{
    if n.len() > h.len() {
        proof {
            assert forall|i: int| !spec_occurs_at(h@, n@, i) by {}
        }
        return false;
    }
    let ghost hl = h@.len();
    proof {
        assert(hl == h.len());
    }
    let mut i: usize = 0;
    while i <= h.len() - n.len()
        invariant
            n@.len() <= h@.len(),
            h@.len() <= usize::MAX,
            i <= h@.len() - n@.len() + 1,
            forall|k: int| 0 <= k < i ==> !spec_occurs_at(h@, n@, k),
        decreases h@.len() - n@.len() + 1 - i,
    {
        let mut j: usize = 0;
        let mut all_eq = true;
        while j < n.len()
            invariant
                i + n@.len() <= h@.len(),
                h@.len() <= usize::MAX,
                j <= n@.len(),
                all_eq == (forall|m: int| 0 <= m < j ==> h@[i + m] == n@[m]),
            decreases n@.len() - j,
        {
            let he = h[i + j];
            let ne = n[j];
            if he != ne {
                all_eq = false;
                proof {
                    assert(h@[i + j as int] != n@[j as int]);
                }
            } else {
                proof {
                    if all_eq {
                        assert forall|m: int| 0 <= m < j + 1 implies h@[i + m] == n@[m] by {
                            if m < j as int {
                                assert(h@[i + m] == n@[m]);
                            }
                        }
                    }
                }
            }
            j = j + 1;
        }
        if all_eq {
            proof {
                assert(h@.subrange(i as int, i + n@.len()) =~= n@);
                assert(spec_occurs_at(h@, n@, i as int));
            }
            return true;
        }
        proof {
            let w = choose|m: int| 0 <= m < n@.len() && h@[i + m] != n@[m];
            assert(h@.subrange(i as int, i + n@.len())[w] == h@[i + w]);
            assert(!spec_occurs_at(h@, n@, i as int));
        }
        i = i + 1;
    }
    proof {
        assert forall|k: int| !spec_occurs_at(h@, n@, k) by {
            if 0 <= k <= h@.len() - n@.len() {
                assert(!spec_occurs_at(h@, n@, k));
            }
        }
    }
    false
}

/// Whether the haystack contains the (already lower-case) needle, ignoring
/// the haystack's ASCII case.
pub fn contains_ci(haystack: &str, needle: &str) -> (r: bool)
    ensures
        r == spec_contains_ci(haystack@, needle@),
{
    let h = lower_chars(haystack);
    let n = chars_of(needle);
    contains_chars(&h, &n)
}

/// The terminal outcome of one trial's statement sequence, together with
/// the structural re-check's verdict where the sequence succeeded.
#[derive(Debug)]
pub enum TrialResult {
    /// Every statement succeeded; `check_ok` is the structural re-check's
    /// verdict on the table.
    Succeeded { check_ok: bool },
    /// Some statement failed with the given error text.
    Failed { error: String },
}

/// Mathematical value of a `TrialResult`.
pub ghost enum TrialResultV {
    Succeeded { check_ok: bool },
    Failed { error: Seq<char> },
}

impl View for TrialResult {
    type V = TrialResultV;

    open spec fn view(&self) -> TrialResultV {
        match self {
            TrialResult::Succeeded { check_ok } => TrialResultV::Succeeded { check_ok: *check_ok },
            TrialResult::Failed { error } => TrialResultV::Failed { error: error@ },
        }
    }
}

/// The total classification order: a failure whose text names an
/// inconsistency or assertion is a write-time catch; any other failure is
/// an unrelated error; a success is judged by the structural re-check
/// alone.
pub open spec fn spec_classify(r: TrialResultV) -> Effectiveness {
    match r {
        TrialResultV::Failed { error } => {
            if spec_contains_ci(error, "inconsist"@) || spec_contains_ci(error, "assertion"@) {
                Effectiveness::Success
            } else {
                Effectiveness::OtherError
            }
        },
        TrialResultV::Succeeded { check_ok } => {
            if check_ok {
                Effectiveness::Consistent
            } else {
                Effectiveness::Failure
            }
        },
    }
}

/// Maps a trial's terminal result to its effectiveness category.
pub fn classify(r: &TrialResult) -> (e: Effectiveness)
    ensures
        e == spec_classify(r@),
{
    match r {
        TrialResult::Failed { error } => {
            if contains_ci(error.as_str(), "inconsist") || contains_ci(
                error.as_str(),
                "assertion",
            ) {
                Effectiveness::Success
            } else {
                Effectiveness::OtherError
            }
        },
        TrialResult::Succeeded { check_ok } => {
            if *check_ok {
                Effectiveness::Consistent
            } else {
                Effectiveness::Failure
            }
        },
    }
}

/// The classifier is a pure function of the terminal result and re-check:
/// identical inputs always classify identically.
pub proof fn lemma_classifier_deterministic(a: TrialResultV, b: TrialResultV)
    requires
        a == b,
    ensures
        spec_classify(a) == spec_classify(b),
{
}

} // verus!
