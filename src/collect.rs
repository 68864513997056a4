use vstd::prelude::*;
use crate::error::CollectError;
use crate::model::Benchmark;

verus! {

/// The benchmarks of all documents, document after document, each in its own order.
pub open spec fn concat_all(documents: Seq<Vec<Benchmark>>) -> Seq<Benchmark>
    decreases documents.len(),
{
    if documents.len() == 0 {
        Seq::empty()
    } else {
        documents[0]@ + concat_all(documents.drop_first())
    }
}

/// Combines measurement documents into one by concatenation: no benchmark is
/// dropped, merged or reordered.
pub fn merge(documents: Vec<Vec<Benchmark>>) -> (r: Vec<Benchmark>)
    ensures
        r@ == concat_all(documents@),
{
    let mut rest = documents;
    let mut out: Vec<Benchmark> = Vec::new();
    while rest.len() > 0
        invariant
            out@ + concat_all(rest@) == concat_all(documents@),
        decreases rest@.len(),
    {
        let ghost before = rest@;
        let mut d = rest.remove(0);
        assert(rest@ =~= before.drop_first());
        assert(out@ + d@ + concat_all(rest@) =~= out@ + (d@ + concat_all(rest@)));
        out.append(&mut d);
    }
    assert(out@ + concat_all(rest@) =~= out@);
    out
}

/// Merging two documents gives the first one's benchmarks followed by the
/// second one's, so the length is the sum of theirs.
pub proof fn lemma_merge_two(first: Vec<Benchmark>, second: Vec<Benchmark>)
    ensures
        concat_all(seq![first, second]) == first@ + second@,
        concat_all(seq![first, second]).len() == first@.len() + second@.len(),
{
    let docs = seq![first, second];
    assert(docs.drop_first() =~= seq![second]);
    assert(seq![second].drop_first() =~= Seq::<Vec<Benchmark>>::empty());
    assert(concat_all(seq![second].drop_first()) =~= Seq::<Benchmark>::empty());
    assert(seq![second][0] == second);
    assert(concat_all(seq![second]) =~= second@);
    assert(docs[0] == first);
}

/// Whether `candidates[i]` is the first lockfile found.
pub open spec fn first_found(candidates: Seq<Option<String>>, i: int) -> bool {
    0 <= i < candidates.len() && candidates[i] is Some && forall|j: int|
        0 <= j < i ==> candidates[j] is None
}

/// Picks the lockfile of the nearest directory: `candidates` holds what reading
/// the lockfile gave in the starting directory, its parent, and so on up to the
/// root. Fails with a configuration error where none was found.
pub fn find_lockfile(candidates: &Vec<Option<String>>) -> (r: Result<String, CollectError>)
    ensures
        r matches Ok(s) ==> exists|i: int| first_found(candidates@, i) && candidates@[i] == Some(s),
        r is Err <==> forall|i: int| 0 <= i < candidates@.len() ==> candidates@[i] is None,
        r matches Err(e) ==> e is Configuration,
{
    let mut i: usize = 0;
    while i < candidates.len()
        invariant
            i <= candidates@.len(),
            forall|j: int| 0 <= j < i ==> candidates@[j] is None,
        decreases candidates@.len() - i,
    {
        match &candidates[i] {
            Some(s) => {
                assert(first_found(candidates@, i as int));
                return Ok(s.clone());
            },
            None => {},
        }
        i += 1;
    }
    Err(CollectError::Configuration { what: "could not find `Cargo.lock`".to_string() })
}

} // verus!
