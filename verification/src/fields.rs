//! Fields of rows: copying them, and taking a field from a request where the request
//! sets it.
use vstd::prelude::*;

verus! {

/// `given` where it is set, and `kept` otherwise.
pub open spec fn or_kept<T>(given: Option<T>, kept: T) -> T {
    match given {
        Some(v) => v,
        None => kept,
    }
}

/// `given` where it is set, and `kept` otherwise.
pub open spec fn or_kept_opt<T>(given: Option<T>, kept: Option<T>) -> Option<T> {
    match given {
        Some(v) => Some(v),
        None => kept,
    }
}

/// A copy of an optional text.
pub fn copy_opt(x: &Option<String>) -> (r: Option<String>)
    ensures
        r.deep_view() == x.deep_view(),
{
    match x {
        Some(s) => Some(s.clone()),
        None => None,
    }
}

/// A copy of a list of texts.
pub fn copy_list(x: &Vec<String>) -> (r: Vec<String>)
    ensures
        r.deep_view() == x.deep_view(),
{
    let mut r: Vec<String> = Vec::new();
    let mut i: usize = 0;
    while i < x.len()
        invariant
            i <= x.len(),
            r.len() == i,
            forall|j: int| 0 <= j < i ==> r@[j]@ == x@[j]@,
        decreases x.len() - i,
    {
        r.push(x[i].clone());
        i += 1;
    }
    r
}

/// A copy of `given` where it is set, and a copy of `kept` otherwise.
pub fn pick_text(given: &Option<String>, kept: &String) -> (r: String)
    ensures
        r@ == or_kept(given.deep_view(), kept@),
{
    match given {
        Some(v) => v.clone(),
        None => kept.clone(),
    }
}

/// A copy of `given` where it is set, and a copy of `kept` otherwise.
pub fn pick_opt(given: &Option<String>, kept: &Option<String>) -> (r: Option<String>)
    ensures
        r.deep_view() == or_kept_opt(given.deep_view(), kept.deep_view()),
{
    match given {
        Some(v) => Some(v.clone()),
        None => copy_opt(kept),
    }
}

/// A copy of an optional list of texts.
pub fn copy_opt_list(x: &Option<Vec<String>>) -> (r: Option<Vec<String>>)
    ensures
        r.deep_view() == x.deep_view(),
{
    match x {
        Some(list) => Some(copy_list(list)),
        None => None,
    }
}

} // verus!
