//! Picking items at random, with replacement, from what the service returned.
use vstd::prelude::*;
use rand::Rng;
use rand::rngs::StdRng;

verus! {

#[verifier::external_type_specification]
#[verifier::external_body]
pub struct ExStdRng(StdRng);

/// Relies on `rand::Rng::gen_range` over `0..count`: a value of that range. It
/// panics on an empty range, which `requires` leaves out.
#[verifier::external_body]
fn draw_index(rng: &mut StdRng, count: usize) -> (r: usize)
    requires
        count > 0,
    ensures
        r < count,
{
    rng.gen_range(0..count)
}

/// One saved article, as the service describes it.
#[derive(Debug, Clone, PartialEq, Eq)]
pub struct Item {
    pub resolved_title: String,
    pub resolved_url: String,
}

impl View for Item {
    type V = (Seq<char>, Seq<char>);

    open spec fn view(&self) -> (Seq<char>, Seq<char>) {
        (self.resolved_title@, self.resolved_url@)
    }
}

impl Item {
    pub fn new(resolved_title: String, resolved_url: String) -> (r: Item)
        ensures
            r.resolved_title == resolved_title,
            r.resolved_url == resolved_url,
    {
        Item { resolved_title, resolved_url }
    }

    /// A copy with equal fields.
    pub fn duplicate(&self) -> (r: Item)
        ensures
            r@ == self@,
    {
        Item { resolved_title: self.resolved_title.clone(), resolved_url: self.resolved_url.clone() }
    }
}

/// Why nothing could be sampled.
#[derive(Debug, Clone, Copy, PartialEq, Eq, Structural)]
pub enum SampleError {
    /// The service returned no items.
    EmptyResult,
}

/// Draws `max_count` indices of `0..count`, each on its own, so that an index
/// may come more than once. With no items to index, nothing is drawn.
pub fn sample_indices(rng: &mut StdRng, count: usize, max_count: usize) -> (r: Result<
    Vec<usize>,
    SampleError,
>)
    ensures
        r is Err <==> count == 0,
        r matches Err(e) ==> e == SampleError::EmptyResult,
        r matches Ok(v) ==> v.len() == max_count && forall|i: int|
            0 <= i < v.len() ==> #[trigger] v[i] < count,
{
    if count == 0 {
        return Err(SampleError::EmptyResult);
    }
    let mut out: Vec<usize> = Vec::new();
    let mut i: usize = 0;
    while i < max_count
        invariant
            i <= max_count,
            count > 0,
            out.len() == i,
            forall|j: int| 0 <= j < out.len() ==> #[trigger] out[j] < count,
        decreases max_count - i,
    {
        let k = draw_index(rng, count);
        out.push(k);
        i = i + 1;
    }
    Ok(out)
}

/// The items at the given indices, in the order of the indices.
pub fn pick_items(items: &Vec<Item>, indices: &Vec<usize>) -> (r: Vec<Item>)
    requires
        forall|i: int| 0 <= i < indices.len() ==> #[trigger] indices[i] < items.len(),
    ensures
        r.len() == indices.len(),
        forall|i: int| 0 <= i < r.len() ==> #[trigger] r[i]@ == items[indices[i] as int]@,
{
    let mut out: Vec<Item> = Vec::new();
    let mut i: usize = 0;
    while i < indices.len()
        invariant
            i <= indices.len(),
            forall|j: int| 0 <= j < indices.len() ==> #[trigger] indices[j] < items.len(),
            out.len() == i,
            forall|j: int| 0 <= j < i ==> #[trigger] out[j]@ == items[indices[j] as int]@,
        decreases indices.len() - i,
    {
        let k = indices[i];
        out.push(items[k].duplicate());
        i = i + 1;
    }
    out
}

/// The views of the items.
pub open spec fn views(items: Seq<Item>) -> Seq<(Seq<char>, Seq<char>)> {
    items.map_values(|it: Item| it@)
}

/// Each of `picked` is one of `items`.
pub open spec fn drawn_from(picked: Seq<Item>, items: Seq<Item>) -> bool {
    forall|i: int| 0 <= i < picked.len() ==> views(items).contains(#[trigger] picked[i]@)
}

proof fn lemma_drawn_from(picked: Seq<Item>, items: Seq<Item>, idx: Seq<usize>)
    requires
        picked.len() == idx.len(),
        forall|i: int| 0 <= i < idx.len() ==> #[trigger] idx[i] < items.len(),
        forall|i: int| 0 <= i < picked.len() ==> #[trigger] picked[i]@ == items[idx[i] as int]@,
    ensures
        drawn_from(picked, items),
{
    assert forall|i: int| 0 <= i < picked.len() implies views(items).contains(#[trigger] picked[i]@) by {
        let j = idx[i] as int;
        assert(idx[i] < items.len());
        assert(views(items)[j] == items[j]@);
    }
}

/// Samples `max_count` of the items, with replacement: each one shown is one
/// of the items, and the same item may be shown twice.
pub fn sample_items(rng: &mut StdRng, items: &Vec<Item>, max_count: usize) -> (r: Result<
    Vec<Item>,
    SampleError,
>)
    ensures
        r is Err <==> items.len() == 0,
        r matches Err(e) ==> e == SampleError::EmptyResult,
        r matches Ok(v) ==> v.len() == max_count,
        r matches Ok(v) ==> drawn_from(v@, items@),
{
    match sample_indices(rng, items.len(), max_count) {
        Err(e) => Err(e),
        Ok(indices) => {
            let picked = pick_items(items, &indices);
            proof {
                lemma_drawn_from(picked@, items@, indices@);
            }
            Ok(picked)
        },
    }
}

} // verus!
