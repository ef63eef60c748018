//! Identifiers of the models a session holds.
use vstd::prelude::*;

verus! {

/// `i` is the first position of `id` in `ids`.
pub open spec fn is_first_index(ids: Seq<u64>, id: u64, i: int) -> bool {
    &&& 0 <= i < ids.len()
    &&& ids[i] == id
    &&& forall|j: int| 0 <= j < i ==> ids[j] != id
}

/// No identifier occurs twice in `ids`.
pub open spec fn no_duplicates(ids: Seq<u64>) -> bool {
    forall|i: int, j: int| 0 <= i < j < ids.len() ==> ids[i] != ids[j]
}

/// Position of `model_id` in `ids`: the first index holding it, `None` when
/// no entry does.
pub fn find_model_index(ids: &Vec<u64>, model_id: u64) -> (r: Option<usize>)
    ensures
        match r {
            Some(i) => is_first_index(ids@, model_id, i as int),
            None => !ids@.contains(model_id),
        },
{
    let mut i: usize = 0;
    while i < ids.len()
        invariant
            i <= ids@.len(),
            forall|j: int| 0 <= j < i ==> ids@[j] != model_id,
        decreases ids@.len() - i,
    {
        if ids[i] == model_id {
            return Some(i);
        }
        i = i + 1;
    }
    None
}

/// The identifiers of the dense and the MoE models of a session, in the
/// order in which they were registered, and the next identifier to hand out.
///
/// Identifiers start at 1, each is handed out once, and every registered one
/// is below the next.
pub struct ModelRegistry {
    next_id: u64,
    dense_ids: Vec<u64>,
    moe_ids: Vec<u64>,
}

impl ModelRegistry {
    #[verifier::type_invariant]
    spec fn well_formed(self) -> bool {
        &&& self.next_id >= 1
        &&& forall|i: int| 0 <= i < self.dense_ids@.len() ==> #[trigger] self.dense_ids@[i] < self.next_id
        &&& forall|i: int| 0 <= i < self.moe_ids@.len() ==> #[trigger] self.moe_ids@[i] < self.next_id
        &&& no_duplicates(self.dense_ids@)
        &&& no_duplicates(self.moe_ids@)
        &&& forall|i: int, j: int|
            0 <= i < self.dense_ids@.len() && 0 <= j < self.moe_ids@.len() ==> self.dense_ids@[i]
                != self.moe_ids@[j]
    }

    /// The identifier the next registration receives.
    pub closed spec fn spec_next_id(self) -> u64 {
        self.next_id
    }

    /// Identifiers of the dense models, in registration order.
    pub closed spec fn spec_dense_ids(self) -> Seq<u64> {
        self.dense_ids@
    }

    /// Identifiers of the MoE models, in registration order.
    pub closed spec fn spec_moe_ids(self) -> Seq<u64> {
        self.moe_ids@
    }

    /// An empty registry whose first identifier is 1.
    pub fn new() -> (r: Self)
        ensures
            r.spec_next_id() == 1,
            r.spec_dense_ids() == Seq::<u64>::empty(),
            r.spec_moe_ids() == Seq::<u64>::empty(),
    {
        ModelRegistry { next_id: 1, dense_ids: Vec::new(), moe_ids: Vec::new() }
    }

    /// The identifier the next registration receives.
    pub fn next_id(&self) -> (r: u64)
        ensures
            r == self.spec_next_id(),
    {
        self.next_id
    }

    /// Registers a model, MoE when `moe` holds and dense otherwise, under a
    /// fresh identifier, which it returns.
    pub fn register(&mut self, moe: bool) -> (id: u64)
        requires
            old(self).spec_next_id() < u64::MAX,
        ensures
            id == old(self).spec_next_id(),
            final(self).spec_next_id() == id + 1,
            !old(self).spec_dense_ids().contains(id),
            !old(self).spec_moe_ids().contains(id),
            moe ==> final(self).spec_moe_ids() == old(self).spec_moe_ids().push(id)
                && final(self).spec_dense_ids() == old(self).spec_dense_ids(),
            !moe ==> final(self).spec_dense_ids() == old(self).spec_dense_ids().push(id)
                && final(self).spec_moe_ids() == old(self).spec_moe_ids(),
    {
        proof {
            use_type_invariant(&*self);
        }
        let mut taken = ModelRegistry::new();
        std::mem::swap(self, &mut taken);
        let ModelRegistry { next_id, mut dense_ids, mut moe_ids } = taken;
        let id: u64 = next_id;
        if moe {
            moe_ids.push(id);
        } else {
            dense_ids.push(id);
        }
        *self = ModelRegistry { next_id: id + 1, dense_ids, moe_ids };
        id
    }

    /// Position of `model_id` among the dense models.
    pub fn find_dense(&self, model_id: u64) -> (r: Option<usize>)
        ensures
            match r {
                Some(i) => is_first_index(self.spec_dense_ids(), model_id, i as int),
                None => !self.spec_dense_ids().contains(model_id),
            },
    {
        find_model_index(&self.dense_ids, model_id)
    }

    /// Position of `model_id` among the MoE models.
    pub fn find_moe(&self, model_id: u64) -> (r: Option<usize>)
        ensures
            match r {
                Some(i) => is_first_index(self.spec_moe_ids(), model_id, i as int),
                None => !self.spec_moe_ids().contains(model_id),
            },
    {
        find_model_index(&self.moe_ids, model_id)
    }
}

/// A model registered under an identifier its list did not hold is found at
/// the end of that list.
pub proof fn lemma_registered_found_last(ids: Seq<u64>, id: u64, i: int)
    requires
        !ids.contains(id),
        is_first_index(ids.push(id), id, i),
    ensures
        i == ids.len(),
{
    if i < ids.len() {
        assert(ids[i] == ids.push(id)[i]);
    }
}

} // verus!
