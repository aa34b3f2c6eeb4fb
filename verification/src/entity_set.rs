//! An insertion-ordered set of entities.

use vstd::prelude::*;

verus! {

/// The identifier of an entity: the bits of the engine's entity handle.
pub type EntityId = u64;

/// The entries of `s`, each kept at its first occurrence.
pub open spec fn distinct(s: Seq<EntityId>) -> Seq<EntityId>
    decreases s.len(),
{
    if s.len() == 0 {
        s
    } else {
        let head = distinct(s.drop_last());
        if head.contains(s.last()) {
            head
        } else {
            head.push(s.last())
        }
    }
}

/// The test "is one of `group`".
pub open spec fn member_of(group: Seq<EntityId>) -> spec_fn(EntityId) -> bool {
    |e: EntityId| group.contains(e)
}

/// The test "does not occur in `other`".
pub open spec fn absent_from(other: Seq<EntityId>) -> spec_fn(EntityId) -> bool {
    |e: EntityId| !other.contains(e)
}

/// The entries of `s` that do not occur in `other`, in the order of `s`.
pub open spec fn without(s: Seq<EntityId>, other: Seq<EntityId>) -> Seq<EntityId> {
    s.filter(absent_from(other))
}

/// `distinct` keeps exactly the entries of its argument and repeats none.
pub proof fn lemma_distinct(s: Seq<EntityId>)
    ensures
        distinct(s).no_duplicates(),
        forall|e: EntityId| distinct(s).contains(e) <==> s.contains(e),
        distinct(s).len() <= s.len(),
    decreases s.len(),
{
    if s.len() > 0 {
        let front = s.drop_last();
        lemma_distinct(front);
        let head = distinct(front);
        assert forall|e: EntityId| distinct(s).contains(e) <==> s.contains(e) by {
            if s.contains(e) {
                let i = choose|i: int| 0 <= i < s.len() && s[i] == e;
                if i < s.len() - 1 {
                    assert(front[i] == e);
                    assert(front.contains(e));
                    assert(head.contains(e));
                    if !head.contains(s.last()) {
                        let j = choose|j: int| 0 <= j < head.len() && head[j] == e;
                        assert(head.push(s.last())[j] == e);
                    }
                } else {
                    if !head.contains(s.last()) {
                        assert(head.push(s.last())[head.len() as int] == e);
                    }
                }
            }
            if distinct(s).contains(e) {
                let j = choose|j: int| 0 <= j < distinct(s).len() && distinct(s)[j] == e;
                if j < head.len() {
                    assert(head[j] == e);
                    assert(head.contains(e));
                    assert(front.contains(e));
                    let i = choose|i: int| 0 <= i < front.len() && front[i] == e;
                    assert(s[i] == e);
                } else {
                    assert(s[s.len() - 1] == e);
                }
            }
        }
    }
}

/// Appending one entry to a sequence appends it to its `distinct` unless it
/// is there already.
pub proof fn lemma_distinct_push(s: Seq<EntityId>, entity: EntityId)
    ensures
        distinct(s.push(entity)) == if distinct(s).contains(entity) {
            distinct(s)
        } else {
            distinct(s).push(entity)
        },
{
    assert(s.push(entity).drop_last() =~= s);
}

/// A sequence without repetitions is its own `distinct`.
pub proof fn lemma_distinct_of_distinct(s: Seq<EntityId>)
    requires
        s.no_duplicates(),
    ensures
        distinct(s) == s,
    decreases s.len(),
{
    if s.len() > 0 {
        let front = s.drop_last();
        lemma_distinct_of_distinct(front);
        if front.contains(s.last()) {
            let i = choose|i: int| 0 <= i < front.len() && front[i] == s.last();
            assert(s[i] == s[s.len() - 1]);
        }
        assert(front.push(s.last()) =~= s);
    }
}

/// The first entry of `s`, if it has one.
pub open spec fn head_of(s: Seq<EntityId>) -> Option<EntityId> {
    if s.len() > 0 {
        Some(s[0])
    } else {
        None
    }
}

/// Whether `entity` occurs in `entities`.
pub fn list_contains(entities: &Vec<EntityId>, entity: EntityId) -> (found: bool)
    ensures
        found == entities@.contains(entity),
{
    let mut i: usize = 0;
    while i < entities.len()
        invariant
            i <= entities@.len(),
            forall|k: int| 0 <= k < i ==> entities@[k] != entity,
        decreases entities.len() - i,
    {
        if entities[i] == entity {
            return true;
        }
        i += 1;
    }
    false
}

/// `without(a, b)` holds exactly the entries of `a` that `b` lacks.
pub proof fn lemma_without(a: Seq<EntityId>, b: Seq<EntityId>)
    ensures
        forall|e: EntityId| without(a, b).contains(e) <==> a.contains(e) && !b.contains(e),
        without(a, b).len() <= a.len(),
{
    let test = absent_from(b);
    a.lemma_filter_len(test);
    assert forall|e: EntityId| without(a, b).contains(e) <==> a.contains(e) && !b.contains(
        e,
    ) by {
        if without(a, b).contains(e) {
            a.lemma_filter_contains_rev(test, e);
        }
        if a.contains(e) && !b.contains(e) {
            let i = choose|i: int| 0 <= i < a.len() && a[i] == e;
            a.lemma_filter_contains(test, i);
        }
    }
}

/// Nothing is left of a sequence without itself.
pub proof fn lemma_without_self(a: Seq<EntityId>)
    ensures
        without(a, a) == Seq::<EntityId>::empty(),
{
    lemma_without(a, a);
    if without(a, a).len() > 0 {
        assert(without(a, a).contains(without(a, a)[0]));
    }
    assert(without(a, a) =~= Seq::<EntityId>::empty());
}

/// A test that every entry passes filters nothing out.
pub proof fn lemma_filter_all(s: Seq<EntityId>, test: spec_fn(EntityId) -> bool)
    requires
        forall|i: int| 0 <= i < s.len() ==> test(#[trigger] s[i]),
    ensures
        s.filter(test) == s,
    decreases s.len(),
{
    if s.len() == 0 {
        s.lemma_filter_len(test);
        assert(s.filter(test) =~= s);
    } else {
        let front = s.drop_last();
        assert forall|i: int| 0 <= i < front.len() implies test(#[trigger] front[i]) by {
            assert(front[i] == s[i]);
        }
        lemma_filter_all(front, test);
        front.lemma_filter_push(s.last(), test);
        assert(front.push(s.last()) =~= s);
    }
}

/// A set of entities that remembers the order in which they were added.
///
/// Its view is the sequence of its members in that order; no entity
/// occurs in it twice.
pub struct EntitySet {
    items: Vec<EntityId>,
}

impl View for EntitySet {
    type V = Seq<EntityId>;

    closed spec fn view(&self) -> Seq<EntityId> {
        self.items@
    }
}

impl EntitySet {
    /// No entity occurs twice.
    #[verifier::type_invariant]
    closed spec fn distinct_members(self) -> bool {
        self.items@.no_duplicates()
    }

    /// The empty set.
    pub fn new() -> (set: EntitySet)
        ensures
            set@ == Seq::<EntityId>::empty(),
    {
        EntitySet { items: Vec::new() }
    }

    /// The number of members.
    pub fn len(&self) -> (n: usize)
        ensures
            n == self@.len(),
    {
        self.items.len()
    }

    /// Whether the set has no member.
    pub fn is_empty(&self) -> (empty: bool)
        ensures
            empty == (self@.len() == 0),
    {
        self.items.len() == 0
    }

    /// Whether `entity` is a member.
    pub fn contains(&self, entity: EntityId) -> (found: bool)
        ensures
            found == self@.contains(entity),
    {
        let mut i: usize = 0;
        while i < self.items.len()
            invariant
                i <= self.items@.len(),
                forall|k: int| 0 <= k < i ==> self.items@[k] != entity,
            decreases self.items.len() - i,
        {
            if self.items[i] == entity {
                return true;
            }
            i += 1;
        }
        false
    }

    /// The member at position `index` of the insertion order.
    pub fn get(&self, index: usize) -> (entity: Option<EntityId>)
        ensures
            entity == if index < self@.len() {
                Some(self@[index as int])
            } else {
                None
            },
    {
        if index < self.items.len() {
            Some(self.items[index])
        } else {
            None
        }
    }

    /// The member that was added first.
    pub fn first(&self) -> (entity: Option<EntityId>)
        ensures
            entity == if self@.len() > 0 {
                Some(self@[0])
            } else {
                None
            },
    {
        self.get(0)
    }

    /// Adds `entity` at the end unless it is a member already; returns
    /// whether it was added.
    pub fn insert(&mut self, entity: EntityId) -> (added: bool)
        ensures
            added == !old(self)@.contains(entity),
            final(self)@ == if added {
                old(self)@.push(entity)
            } else {
                old(self)@
            },
    {
        proof {
            use_type_invariant(&*self);
        }
        if self.contains(entity) {
            false
        } else {
            let mut items = self.items.clone();
            items.push(entity);
            proof {
                let before = old(self)@;
                let after = items@;
                assert forall|i: int, j: int|
                    0 <= i < after.len() && 0 <= j < after.len() && i != j implies after[i]
                    != after[j] by {
                    if i < before.len() && j < before.len() {
                        assert(before[i] != before[j]);
                    } else if i < before.len() {
                        assert(before.contains(before[i]));
                    } else {
                        assert(before.contains(before[j]));
                    }
                }
            }
            self.items = items;
            true
        }
    }

    /// Removes every member.
    pub fn clear(&mut self)
        ensures
            final(self)@ == Seq::<EntityId>::empty(),
    {
        self.items = Vec::new();
    }

    /// The set of the entries of `entities`, in the order of their first
    /// occurrence.
    pub fn from_vec(entities: &Vec<EntityId>) -> (set: EntitySet)
        ensures
            set@ == distinct(entities@),
    {
        let mut set = EntitySet::new();
        let mut i: usize = 0;
        while i < entities.len()
            invariant
                i <= entities@.len(),
                set@ == distinct(entities@.take(i as int)),
            decreases entities.len() - i,
        {
            proof {
                assert(entities@.take(i + 1).drop_last() =~= entities@.take(i as int));
            }
            set.insert(entities[i]);
            i += 1;
        }
        proof {
            assert(entities@.take(i as int) =~= entities@);
        }
        set
    }

    /// The members in insertion order, each once.
    pub fn to_vec(&self) -> (entities: Vec<EntityId>)
        ensures
            entities@ == self@,
            entities@.no_duplicates(),
    {
        proof {
            use_type_invariant(self);
        }
        self.items.clone()
    }

    /// The entries of `candidates` that are members, in the order of
    /// `candidates`.
    pub fn members_among(&self, candidates: &Vec<EntityId>) -> (found: Vec<EntityId>)
        ensures
            found@ == candidates@.filter(member_of(self@)),
    {
        let ghost test = member_of(self@);
        let mut found: Vec<EntityId> = Vec::new();
        let mut i: usize = 0;
        proof {
            candidates@.take(0).lemma_filter_len(test);
            assert(candidates@.take(0).filter(test) =~= found@);
        }
        while i < candidates.len()
            invariant
                i <= candidates@.len(),
                test == member_of(self@),
                found@ == candidates@.take(i as int).filter(test),
            decreases candidates.len() - i,
        {
            let candidate = candidates[i];
            proof {
                let upto = candidates@.take(i as int);
                assert(candidates@.take(i + 1) =~= upto.push(candidate));
                upto.lemma_filter_push(candidate, test);
            }
            if self.contains(candidate) {
                found.push(candidate);
            }
            i += 1;
        }
        proof {
            assert(candidates@.take(i as int) =~= candidates@);
        }
        found
    }

    /// The members that `other` lacks, in insertion order.
    pub fn difference(&self, other: &EntitySet) -> (rest: Vec<EntityId>)
        ensures
            rest@ == without(self@, other@),
    {
        let mut rest: Vec<EntityId> = Vec::new();
        let ghost keep = absent_from(other@);
        let mut i: usize = 0;
        proof {
            self.items@.take(0).lemma_filter_len(keep);
            assert(self.items@.take(0).filter(keep) =~= rest@);
        }
        while i < self.items.len()
            invariant
                i <= self.items@.len(),
                keep == absent_from(other@),
                rest@ == self.items@.take(i as int).filter(keep),
            decreases self.items.len() - i,
        {
            proof {
                let upto = self.items@.take(i as int);
                assert(self.items@.take(i + 1) =~= upto.push(self.items@[i as int]));
                upto.lemma_filter_push(self.items@[i as int], keep);
            }
            if !other.contains(self.items[i]) {
                rest.push(self.items[i]);
            }
            i += 1;
        }
        proof {
            assert(self.items@.take(i as int) =~= self.items@);
        }
        rest
    }
}

} // verus!
