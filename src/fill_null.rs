//! Filling the nulls of a column from its neighbouring valid values.
use vstd::prelude::*;

verus! {

/// Which neighbour a null takes its value from.
#[derive(Clone, Copy, Debug, PartialEq, Eq, Hash)]
pub enum FillNullStrategy {
    /// The closest valid value before it.
    Forward,
    /// The closest valid value after it.
    Backward,
}

/// The value at `i`, or where that is null, the closest valid value before it.
pub open spec fn last_valid<T>(s: Seq<Option<T>>, i: int) -> Option<T>
    decreases i + 1,
{
    if i < 0 || i >= s.len() {
        None
    } else if s[i] is Some {
        s[i]
    } else {
        last_valid(s, i - 1)
    }
}

/// The value at `i`, or where that is null, the closest valid value after it.
pub open spec fn next_valid<T>(s: Seq<Option<T>>, i: int) -> Option<T>
    decreases s.len() - i,
{
    if i < 0 || i >= s.len() {
        None
    } else if s[i] is Some {
        s[i]
    } else {
        next_valid(s, i + 1)
    }
}

/// The column with each null replaced as the strategy says; a null with no valid value
/// on that side stays null.
pub open spec fn filled<T>(s: Seq<Option<T>>, strategy: FillNullStrategy) -> Seq<Option<T>> {
    Seq::new(
        s.len(),
        |i: int|
            match strategy {
                FillNullStrategy::Forward => last_valid(s, i),
                FillNullStrategy::Backward => next_valid(s, i),
            },
    )
}

/// Fills each null of `values` from the closest valid value before it.
pub fn fill_null_forward<T: Copy>(values: &Vec<Option<T>>) -> (r: Vec<Option<T>>)
    ensures
        r@ == filled(values@, FillNullStrategy::Forward),
{
    let n = values.len();
    let mut result: Vec<Option<T>> = Vec::new();
    let mut last: Option<T> = None;
    let mut i: usize = 0;
    while i < n
        invariant
            n == values@.len(),
            i <= n,
            result@.len() == i,
            forall|k: int| 0 <= k < i ==> result@[k] == last_valid(values@, k),
            last == last_valid(values@, i - 1),
        decreases n - i,
    {
        let current = values[i];
        if current.is_some() {
            last = current;
        }
        result.push(last);
        i = i + 1;
    }
    assert(result@ =~= filled(values@, FillNullStrategy::Forward));
    result
}

/// Fills each null of `values` from the closest valid value after it.
pub fn fill_null_backward<T: Copy>(values: &Vec<Option<T>>) -> (r: Vec<Option<T>>)
    ensures
        r@ == filled(values@, FillNullStrategy::Backward),
{
    let n = values.len();
    let mut reversed: Vec<Option<T>> = Vec::new();
    let mut next: Option<T> = None;
    let mut i: usize = n;
    while i > 0
        invariant
            n == values@.len(),
            i <= n,
            reversed@.len() == n - i,
            forall|k: int| 0 <= k < n - i ==> reversed@[k] == next_valid(values@, n - 1 - k),
            next == next_valid(values@, i as int),
        decreases i,
    {
        i = i - 1;
        let current = values[i];
        if current.is_some() {
            next = current;
        }
        reversed.push(next);
    }
    let mut result: Vec<Option<T>> = Vec::new();
    let mut j: usize = 0;
    while j < n
        invariant
            n == values@.len(),
            j <= n,
            reversed@.len() == n,
            forall|k: int| 0 <= k < n ==> reversed@[k] == next_valid(values@, n - 1 - k),
            result@.len() == j,
            forall|k: int| 0 <= k < j ==> result@[k] == next_valid(values@, k),
        decreases n - j,
    {
        result.push(reversed[n - 1 - j]);
        j = j + 1;
    }
    assert(result@ =~= filled(values@, FillNullStrategy::Backward));
    result
}

/// Fills each null of `values` from its neighbours as `strategy` says.
pub fn fill_null_with_strategy<T: Copy>(values: &Vec<Option<T>>, strategy: FillNullStrategy) -> (r:
    Vec<Option<T>>)
    ensures
        r@ == filled(values@, strategy),
{
    match strategy {
        FillNullStrategy::Forward => fill_null_forward(values),
        FillNullStrategy::Backward => fill_null_backward(values),
    }
}

} // verus!
