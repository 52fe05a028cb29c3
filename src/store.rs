//! The evidence index: every indexed record, in the order it was added.

use vstd::prelude::*;

use crate::error::EvidenceError;
use crate::record::{same_text, views_of, EvidenceRecord, EvidenceView};

verus! {

/// No two records share an id.
pub open spec fn unique_ids(s: Seq<EvidenceView>) -> bool {
    forall|i: int, j: int|
        0 <= i < s.len() && 0 <= j < s.len() && i != j ==> #[trigger] s[i].id != #[trigger] s[j].id
}

/// Some record has the id `id`.
pub open spec fn has_id(s: Seq<EvidenceView>, id: Seq<char>) -> bool {
    exists|i: int| 0 <= i < s.len() && #[trigger] s[i].id == id
}

/// Position `i` holds the record `id` of the tracking number `tracking_number`.
pub open spec fn holds_at(
    s: Seq<EvidenceView>,
    tracking_number: Seq<char>,
    id: Seq<char>,
    i: int,
) -> bool {
    0 <= i < s.len() && s[i].tracking_number == tracking_number && s[i].id == id
}

/// The records of one tracking number, in the order they were added.
pub open spec fn records_for(s: Seq<EvidenceView>, tracking_number: Seq<char>) -> Seq<
    EvidenceView,
>
    decreases s.len(),
{
    if s.len() == 0 {
        Seq::empty()
    } else if s.last().tracking_number == tracking_number {
        records_for(s.drop_last(), tracking_number).push(s.last())
    } else {
        records_for(s.drop_last(), tracking_number)
    }
}

/// The index of evidence records. Records of all tracking numbers stand in one
/// sequence, in the order they were added; a tracking number's list is the
/// subsequence of its records.
pub struct EvidenceStore {
    records: Vec<EvidenceRecord>,
}

impl View for EvidenceStore {
    type V = Seq<EvidenceView>;

    closed spec fn view(&self) -> Seq<EvidenceView> {
        views_of(self.records@)
    }
}

impl EvidenceStore {
    /// The store's invariant: ids are unique across all tracking numbers.
    #[verifier::type_invariant]
    pub open spec fn inv(&self) -> bool {
        unique_ids(self@)
    }

    /// An empty index.
    pub fn new() -> (r: EvidenceStore)
        ensures
            r@ == Seq::<EvidenceView>::empty(),
    {
        let r = EvidenceStore { records: Vec::new() };
        assert(r@ =~= Seq::<EvidenceView>::empty());
        r
    }

    /// Takes the records out, leaving the store empty.
    fn take_records(&mut self) -> (r: Vec<EvidenceRecord>)
        ensures
            views_of(r@) == old(self)@,
            unique_ids(views_of(r@)),
            final(self)@ == Seq::<EvidenceView>::empty(),
    {
        proof {
            use_type_invariant(&*self);
        }
        let mut taken = EvidenceStore::new();
        std::mem::swap(self, &mut taken);
        proof {
            use_type_invariant(&taken);
        }
        let EvidenceStore { records } = taken;
        records
    }

    /// The number of indexed records, over all tracking numbers.
    pub fn len(&self) -> (r: usize)
        ensures
            r == self@.len(),
    {
        self.records.len()
    }

    /// Whether a record with id `id` is indexed.
    pub fn contains_id(&self, id: &str) -> (r: bool)
        ensures
            r == has_id(self@, id@),
    {
        let mut i: usize = 0;
        while i < self.records.len()
            invariant
                i <= self@.len(),
                self@.len() == self.records@.len(),
                forall|k: int| 0 <= k < i ==> #[trigger] self@[k].id != id@,
            decreases self@.len() - i,
        {
            if same_text(self.records[i].id.as_str(), id) {
                assert(self@[i as int].id == id@);
                return true;
            }
            i = i + 1;
        }
        false
    }

    /// Appends `record` to the index. A record whose id is already indexed is
    /// refused with `PersistenceFailure` and the index is left as it was.
    pub fn insert(&mut self, record: EvidenceRecord) -> (r: Result<EvidenceRecord, EvidenceError>)
        ensures
            unique_ids(final(self)@),
            has_id(old(self)@, record@.id) ==> (r matches Err(EvidenceError::PersistenceFailure)
                && final(self)@ == old(self)@),
            !has_id(old(self)@, record@.id) ==> (r matches Ok(c) && c@ == record@ && final(self)@
                == old(self)@.push(record@)),
    {
        proof {
            use_type_invariant(&*self);
        }
        if self.contains_id(record.id.as_str()) {
            return Err(EvidenceError::PersistenceFailure);
        }
        let copy = record.duplicate();
        let mut records = self.take_records();
        let ghost before = views_of(records@);
        records.push(record);
        assert(views_of(records@) =~= before.push(copy@));
        *self = EvidenceStore { records };
        Ok(copy)
    }

    /// A snapshot of the records of `tracking_number`, in insertion order.
    pub fn list(&self, tracking_number: &str) -> (r: Vec<EvidenceRecord>)
        ensures
            views_of(r@) == records_for(self@, tracking_number@),
    {
        let mut out: Vec<EvidenceRecord> = Vec::new();
        let mut i: usize = 0;
        while i < self.records.len()
            invariant
                i <= self@.len(),
                self@.len() == self.records@.len(),
                views_of(out@) == records_for(self@.subrange(0, i as int), tracking_number@),
            decreases self@.len() - i,
        {
            let ghost pre = self@.subrange(0, i + 1);
            assert(pre.drop_last() == self@.subrange(0, i as int));
            assert(pre.last() == self@[i as int]);
            let rec = &self.records[i];
            if same_text(rec.tracking_number.as_str(), tracking_number) {
                let ghost old_out = out@;
                out.push(rec.duplicate());
                assert(views_of(out@) =~= views_of(old_out).push(rec@));
            }
            i = i + 1;
        }
        assert(self@.subrange(0, self@.len() as int) == self@);
        out
    }

    /// Removes the record `id` of `tracking_number` and returns it; fails with
    /// `NotFound`, changing nothing, where there is no such record.
    pub fn remove(&mut self, tracking_number: &str, id: &str) -> (r: Result<
        EvidenceRecord,
        EvidenceError,
    >)
        ensures
            unique_ids(final(self)@),
            r is Err <==> !exists|i: int| holds_at(old(self)@, tracking_number@, id@, i),
            r matches Err(e) ==> e is NotFound && final(self)@ == old(self)@,
            r matches Ok(rec) ==> exists|i: int|
                holds_at(old(self)@, tracking_number@, id@, i) && old(self)@[i] == rec@
                    && final(self)@ == old(self)@.remove(i),
    {
        proof {
            use_type_invariant(&*self);
        }
        let mut i: usize = 0;
        while i < self.records.len()
            invariant
                i <= self@.len(),
                self@ == old(self)@,
                unique_ids(self@),
                self@.len() == self.records@.len(),
                forall|k: int| 0 <= k < i ==> !holds_at(self@, tracking_number@, id@, k),
            decreases self@.len() - i,
        {
            let rec = &self.records[i];
            if same_text(rec.id.as_str(), id) && same_text(
                rec.tracking_number.as_str(),
                tracking_number,
            ) {
                let ghost before = self@;
                let mut records = self.take_records();
                let removed = records.remove(i);
                let ghost after = views_of(records@);
                assert(after =~= before.remove(i as int));
                assert(holds_at(before, tracking_number@, id@, i as int));
                assert forall|a: int, b: int|
                    0 <= a < after.len() && 0 <= b < after.len() && a != b implies #[trigger] after[a].id
                    != #[trigger] after[b].id by {
                    let a0 = if a < i { a } else { a + 1 };
                    let b0 = if b < i { b } else { b + 1 };
                    assert(after[a] == before[a0] && after[b] == before[b0]);
                }
                *self = EvidenceStore { records };
                return Ok(removed);
            }
            i = i + 1;
        }
        Err(EvidenceError::NotFound)
    }
}

} // verus!

verus! {

/// Every record in a tracking number's list is a record of the index, and of
/// that tracking number.
pub proof fn lemma_records_for_members(s: Seq<EvidenceView>, tracking_number: Seq<char>)
    ensures
        forall|k: int|
            0 <= k < records_for(s, tracking_number).len() ==> s.contains(
                #[trigger] records_for(s, tracking_number)[k],
            ) && records_for(s, tracking_number)[k].tracking_number == tracking_number,
    decreases s.len(),
{
    if s.len() > 0 {
        lemma_records_for_members(s.drop_last(), tracking_number);
        let rest = records_for(s.drop_last(), tracking_number);
        assert forall|k: int| 0 <= k < rest.len() implies s.contains(#[trigger] rest[k]) by {
            let j = choose|j: int| 0 <= j < s.drop_last().len() && s.drop_last()[j] == rest[k];
            assert(s[j] == rest[k]);
        }
        assert(s[s.len() - 1] == s.last());
    }
}

/// Two uploads to one tracking number, each with an id not yet indexed and
/// the two ids distinct, are both accepted whichever is indexed first; the
/// list then shows both after the earlier records, in the order they were
/// indexed, and the lists of other tracking numbers are unchanged.
pub proof fn lemma_two_inserts_both_listed(
    s: Seq<EvidenceView>,
    a: EvidenceView,
    b: EvidenceView,
    tracking_number: Seq<char>,
)
    requires
        unique_ids(s),
        a.tracking_number == tracking_number,
        b.tracking_number == tracking_number,
        !has_id(s, a.id),
        !has_id(s, b.id),
        a.id != b.id,
    ensures
        !has_id(s.push(a), b.id),
        !has_id(s.push(b), a.id),
        unique_ids(s.push(a).push(b)),
        records_for(s.push(a).push(b), tracking_number) == records_for(s, tracking_number).push(
            a,
        ).push(b),
        records_for(s.push(b).push(a), tracking_number) == records_for(s, tracking_number).push(
            b,
        ).push(a),
        forall|k: Seq<char>|
            k != tracking_number ==> #[trigger] records_for(s.push(a).push(b), k) == records_for(
                s,
                k,
            ) && records_for(s.push(b).push(a), k) == records_for(s, k),
{
    let sb = s.push(b);
    let sba = sb.push(a);
    assert(sba.drop_last() == sb && sb.drop_last() == s);
    assert(sba.last() == a && sb.last() == b);
    assert(records_for(sb, tracking_number) == records_for(s, tracking_number).push(b));
    assert(records_for(sba, tracking_number) == records_for(sb, tracking_number).push(a));
    assert forall|k: Seq<char>| k != tracking_number implies #[trigger] records_for(
        s.push(a).push(b),
        k,
    ) == records_for(s, k) && records_for(s.push(b).push(a), k) == records_for(s, k) by {
        assert(s.push(a).push(b).drop_last() == s.push(a));
        assert(s.push(a).drop_last() == s);
        assert(records_for(s.push(a), k) == records_for(s, k));
        assert(records_for(sb, k) == records_for(s, k));
    }
    let sa = s.push(a);
    let sab = sa.push(b);
    assert(sab.drop_last() == sa);
    assert(sa.drop_last() == s);
    assert(sab.last() == b && sa.last() == a);
    assert(records_for(sa, tracking_number) == records_for(s, tracking_number).push(a));
    assert(records_for(sab, tracking_number) == records_for(sa, tracking_number).push(b));
    assert forall|i: int| 0 <= i < sa.len() implies #[trigger] sa[i].id != b.id by {
        if i < s.len() {
            assert(s[i] == sa[i]);
        }
    }
    assert forall|i: int| 0 <= i < s.push(b).len() implies #[trigger] s.push(b)[i].id != a.id by {
        if i < s.len() {
            assert(s[i] == s.push(b)[i]);
        }
    }
    assert forall|i: int, j: int|
        0 <= i < sab.len() && 0 <= j < sab.len() && i != j implies #[trigger] sab[i].id
        != #[trigger] sab[j].id by {
        if i < s.len() {
            assert(sab[i] == s[i]);
        }
        if j < s.len() {
            assert(sab[j] == s[j]);
        }
    }
}

/// After the record `id` of a tracking number is removed from an index with
/// unique ids, no record with that id remains, so the tracking number's list
/// no longer shows it.
pub proof fn lemma_removed_not_listed(
    s: Seq<EvidenceView>,
    tracking_number: Seq<char>,
    id: Seq<char>,
    i: int,
)
    requires
        unique_ids(s),
        holds_at(s, tracking_number, id, i),
    ensures
        !has_id(s.remove(i), id),
        forall|k: int|
            0 <= k < records_for(s.remove(i), tracking_number).len() ==> (#[trigger] records_for(
                s.remove(i),
                tracking_number,
            )[k]).id != id,
{
    let t = s.remove(i);
    assert forall|k: int| 0 <= k < t.len() implies #[trigger] t[k].id != id by {
        let k0 = if k < i { k } else { k + 1 };
        assert(t[k] == s[k0]);
    }
    lemma_records_for_members(t, tracking_number);
}

} // verus!
