use vstd::prelude::*;

verus! {

/// `i` is where a left-to-right scan that only moves on a strictly greater key stops:
/// an eligible index whose key beats every eligible key before it and is not beaten after it.
pub open spec fn is_first_max(keys: Seq<u32>, eligible: Seq<bool>, i: int) -> bool {
    &&& 0 <= i < keys.len()
    &&& eligible[i]
    &&& forall|j: int| 0 <= j < i && eligible[j] ==> keys[j] < keys[i]
    &&& forall|j: int| i < j < keys.len() && eligible[j] ==> keys[j] <= keys[i]
}

/// `i` holds the smallest key, and no earlier index holds one as small.
pub open spec fn is_first_min(keys: Seq<u32>, i: int) -> bool {
    &&& 0 <= i < keys.len()
    &&& forall|j: int| 0 <= j < i ==> keys[i] < keys[j]
    &&& forall|j: int| i < j < keys.len() ==> keys[i] <= keys[j]
}

/// The eligible candidate with the greatest key, the earliest one on ties; `None` when no
/// candidate is eligible. Keys order the candidates' scores.
pub fn first_max_eligible(keys: &Vec<u32>, eligible: &Vec<bool>) -> (r: Option<usize>)
    requires
        keys@.len() == eligible@.len(),
    ensures
        r is None <==> forall|j: int| 0 <= j < eligible@.len() ==> !eligible@[j],
        r matches Some(i) ==> is_first_max(keys@, eligible@, i as int),
        r matches Some(i) ==> eligible@[i as int],
{
    let mut best: Option<usize> = None;
    let mut i: usize = 0;
    while i < keys.len()
        invariant
            keys@.len() == eligible@.len(),
            i <= keys@.len(),
            best is None <==> forall|j: int| 0 <= j < i ==> !eligible@[j],
            best matches Some(b) ==> {
                &&& b < i
                &&& eligible@[b as int]
                &&& forall|j: int| 0 <= j < b && eligible@[j] ==> keys@[j] < keys@[b as int]
                &&& forall|j: int| b < j < i && eligible@[j] ==> keys@[j] <= keys@[b as int]
            },
        decreases keys@.len() - i,
    {
        if eligible[i] {
            match best {
                None => {
                    best = Some(i);
                },
                Some(b) => {
                    if keys[i] > keys[b] {
                        best = Some(i);
                    }
                },
            }
        }
        i = i + 1;
    }
    best
}

/// The candidate with the smallest key, the earliest one on ties. Candidate 0 is the
/// reference (the unmodified heading): the choice is never worse than it.
pub fn first_min(keys: &Vec<u32>) -> (r: usize)
    requires
        keys@.len() > 0,
    ensures
        is_first_min(keys@, r as int),
        keys@[r as int] <= keys@[0],
{
    let mut best: usize = 0;
    let mut i: usize = 1;
    while i < keys.len()
        invariant
            keys@.len() > 0,
            1 <= i <= keys@.len(),
            best < i,
            forall|j: int| 0 <= j < best ==> keys@[best as int] < keys@[j],
            forall|j: int| best < j < i ==> keys@[best as int] <= keys@[j],
        decreases keys@.len() - i,
    {
        if keys[i] < keys[best] {
            best = i;
        }
        i = i + 1;
    }
    best
}

} // verus!
