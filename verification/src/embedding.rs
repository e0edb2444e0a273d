//! Embeddings, put back in the order of the texts they are for.

use vstd::prelude::*;

verus! {

/// The answer to an embedding request. `F` is the type of the numbers, which are only
/// passed on.
#[derive(Debug)]
pub struct MistralRsEmbeddingResponse<F> {
    pub data: Vec<MistralRsEmbeddingData<F>>,
}

/// The embedding of the text at `index`.
#[derive(Debug)]
pub struct MistralRsEmbeddingData<F> {
    pub index: usize,
    pub embedding: Vec<F>,
}

/// Whether every embedding is for one of as many texts as there are embeddings.
pub open spec fn indices_in_range<F>(data: Seq<MistralRsEmbeddingData<F>>) -> bool {
    forall|i: int| 0 <= i < data.len() ==> (#[trigger] data[i]).index < data.len()
}

/// The embedding of the text at `index`: the last one given for it, and none at all where
/// none is given.
pub open spec fn embedding_at<F>(data: Seq<MistralRsEmbeddingData<F>>, index: int) -> Seq<F>
    decreases data.len(),
{
    if data.len() == 0 {
        Seq::empty()
    } else if data.last().index == index {
        data.last().embedding@
    } else {
        embedding_at(data.drop_last(), index)
    }
}

/// Whether every embedding of the answer is for one of as many texts as there are
/// embeddings.
pub fn check_indices<F>(response: &MistralRsEmbeddingResponse<F>) -> (in_range: bool)
    ensures
        in_range == indices_in_range(response.data@),
{
    let mut i: usize = 0;
    while i < response.data.len()
        invariant
            i <= response.data@.len(),
            forall|j: int|
                0 <= j < i ==> (#[trigger] response.data@[j]).index < response.data@.len(),
        decreases response.data@.len() - i,
    {
        if response.data[i].index >= response.data.len() {
            assert(!(response.data@[i as int].index < response.data@.len()));
            return false;
        }
        i += 1;
    }
    true
}

/// The embeddings in the order of the texts that they are for, one place for each
/// embedding of the answer.
pub fn embed_response<F>(response: MistralRsEmbeddingResponse<F>) -> (embeddings: Vec<Vec<F>>)
    requires
        indices_in_range(response.data@),
    ensures
        embeddings@.len() == response.data@.len(),
        forall|i: int|
            0 <= i < embeddings@.len() ==> (#[trigger] embeddings@[i])@ == embedding_at(
                response.data@,
                i,
            ),
{
    let ghost data = response.data@;
    let count = response.data.len();
    let mut embeddings: Vec<Vec<F>> = Vec::new();
    let mut n: usize = 0;
    while n < count
        invariant
            n <= count,
            embeddings@.len() == n,
            forall|i: int| 0 <= i < n ==> (#[trigger] embeddings@[i])@ == Seq::<F>::empty(),
        decreases count - n,
    {
        embeddings.push(Vec::new());
        n += 1;
    }
    for item in it: response.data
        invariant
            it.seq() == data,
            indices_in_range(data),
            embeddings@.len() == data.len(),
            forall|i: int|
                0 <= i < data.len() ==> (#[trigger] embeddings@[i])@ == embedding_at(
                    data.take(it.index() as int),
                    i,
                ),
    {
        proof {
            let k = it.index() as int;
            assert(item == data[k]);
            assert(data.take(k + 1).drop_last() =~= data.take(k));
            assert(data.take(k + 1).last() == data[k]);
        }
        let index = item.index;
        embeddings.set(index, item.embedding);
    }
    proof {
        assert(data.take(data.len() as int) =~= data);
    }
    embeddings
}

} // verus!
