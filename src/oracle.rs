use vstd::prelude::*;

use crate::error::ProverError;

verus! {

/// Whether block numbers are strictly ascending.
pub open spec fn strictly_ascending(numbers: Seq<u64>) -> bool {
    forall|i: int, j: int| 0 <= i < j < numbers.len() ==> numbers[i] < numbers[j]
}

/// Whether `r` holds the elements of `s` in reverse order.
pub open spec fn is_reverse_of<T>(r: Seq<T>, s: Seq<T>) -> bool {
    &&& r.len() == s.len()
    &&& forall|i: int| 0 <= i < s.len() ==> r[i] == s[s.len() - 1 - i]
}

/// The 20-byte keys of a witness, in order: the accessed accounts.
pub open spec fn address_keys(keys: Seq<Seq<u8>>) -> Seq<Seq<u8>>
    decreases keys.len(),
{
    if keys.len() == 0 {
        seq![]
    } else if keys.last().len() == 20 {
        address_keys(keys.drop_last()).push(keys.last())
    } else {
        address_keys(keys.drop_last())
    }
}

/// Reverses a vector.
pub fn reversed<T>(v: Vec<T>) -> (r: Vec<T>)
    ensures
        is_reverse_of(r@, v@),
{
    let ghost orig = v@;
    let mut v = v;
    let mut r: Vec<T> = Vec::new();
    while v.len() > 0
        invariant
            v@ == orig.take(orig.len() - r@.len()),
            r@.len() <= orig.len(),
            forall|i: int| 0 <= i < r@.len() ==> r@[i] == orig[orig.len() - 1 - i],
        decreases v@.len(),
    {
        let ghost k = r@.len();
        let x = v.pop().unwrap();
        assert(x == orig[orig.len() - 1 - k]);
        r.push(x);
        assert(v@ =~= orig.take(orig.len() - r@.len()));
    }
    r
}

/// Checks the parent headers of a witness, given their block numbers in
/// witness order, and puts them in the order in which the executor consumes
/// them: the closest ancestor first. The headers must be present and strictly
/// ascending, else the witness is invalid. The encodings are reordered with
/// the decoded headers.
pub fn order_parent_headers<H>(numbers: &Vec<u64>, headers: Vec<H>, encodings: Vec<Vec<u8>>) -> (r:
    Result<(Vec<H>, Vec<Vec<u8>>), ProverError>)
    requires
        numbers@.len() == headers@.len(),
        numbers@.len() == encodings@.len(),
    ensures
        (numbers@.len() > 0 && strictly_ascending(numbers@)) ==> (r matches Ok(p) && is_reverse_of(
            p.0@,
            headers@,
        ) && is_reverse_of(p.1@, encodings@)),
        !(numbers@.len() > 0 && strictly_ascending(numbers@)) ==> r == Err::<
            (Vec<H>, Vec<Vec<u8>>),
            ProverError,
        >(ProverError::InvalidWitness),
{
    if numbers.len() == 0 {
        return Err(ProverError::InvalidWitness);
    }
    let mut i: usize = 1;
    while i < numbers.len()
        invariant
            1 <= i <= numbers@.len(),
            forall|a: int, b: int| 0 <= a < b < i ==> numbers@[a] < numbers@[b],
        decreases numbers@.len() - i,
    {
        if numbers[i - 1] >= numbers[i] {
            return Err(ProverError::InvalidWitness);
        }
        i = i + 1;
    }
    Ok((reversed(headers), reversed(encodings)))
}

/// The keys of a witness that are 20 bytes long, in order: the accounts
/// whose properties are looked up in the state trie.
pub fn account_keys(keys: &Vec<Vec<u8>>) -> (r: Vec<Vec<u8>>)
    ensures
        r@.len() == address_keys(keys@.map_values(|k: Vec<u8>| k@)).len(),
        forall|i: int| 0 <= i < r@.len() ==> r@[i]@ == address_keys(keys@.map_values(|k: Vec<u8>| k@))[i],
{
    let ghost views = keys@.map_values(|k: Vec<u8>| k@);
    let mut r: Vec<Vec<u8>> = Vec::new();
    let mut i: usize = 0;
    while i < keys.len()
        invariant
            i <= keys@.len(),
            views == keys@.map_values(|k: Vec<u8>| k@),
            r@.len() == address_keys(views.take(i as int)).len(),
            forall|j: int| 0 <= j < r@.len() ==> r@[j]@ == address_keys(views.take(i as int))[j],
        decreases keys@.len() - i,
    {
        assert(views.take(i + 1).drop_last() =~= views.take(i as int));
        assert(views.take(i + 1).last() == keys@[i as int]@);
        if keys[i].len() == 20 {
            r.push(keys[i].clone());
        }
        i = i + 1;
    }
    assert(views.take(keys@.len() as int) =~= views);
    r
}

} // verus!
