//! The state store: conversation records by identifier.
//!
//! The store is plain data. Whoever shares it between requests keeps it under
//! one lock and calls one operation per critical section, so that the
//! operations run one after another in some order.

use vstd::prelude::*;

verus! {

/// The content of a conversation under its identifier.
#[derive(Debug, PartialEq, Eq)]
pub struct ConversationRecord {
    pub id: String,
    pub content: String,
}

/// The records of a store as a mapping from identifier to content.
pub type Records = Map<Seq<char>, Seq<char>>;

/// The records after `content` has been saved under `id`.
pub open spec fn saved(records: Records, id: Seq<char>, content: Seq<char>) -> Records {
    records.insert(id, content)
}

/// Whether no identifier occurs twice in `list`.
pub open spec fn distinct_ids(list: Seq<ConversationRecord>) -> bool {
    forall|i: int, j: int| 0 <= i < j < list.len() ==> list[i].id@ != list[j].id@
}

/// Whether `list` holds the records of `records`, each of them once.
pub open spec fn lists_records(list: Seq<ConversationRecord>, records: Records) -> bool {
    &&& distinct_ids(list)
    &&& forall|i: int|
        0 <= i < list.len() ==> records.contains_pair(#[trigger] list[i].id@, list[i].content@)
    &&& forall|id: Seq<char>|
        records.contains_key(id) ==> exists|i: int|
            0 <= i < list.len() && #[trigger] list[i].id@ == id
}

/// The mapping that a list of records stands for; where an identifier occurs
/// twice, the later record counts.
spec fn mapping_of(list: Seq<ConversationRecord>) -> Records
    decreases list.len(),
{
    if list.len() == 0 {
        Map::empty()
    } else {
        mapping_of(list.drop_last()).insert(list.last().id@, list.last().content@)
    }
}

proof fn lemma_mapping_keys(list: Seq<ConversationRecord>, id: Seq<char>)
    ensures
        mapping_of(list).contains_key(id) <==> exists|i: int|
            0 <= i < list.len() && #[trigger] list[i].id@ == id,
    decreases list.len(),
{
    if list.len() > 0 {
        let front = list.drop_last();
        lemma_mapping_keys(front, id);
        if mapping_of(list).contains_key(id) {
            if list.last().id@ == id {
                assert(list[list.len() - 1].id@ == id);
            } else {
                let i = choose|i: int| 0 <= i < front.len() && #[trigger] front[i].id@ == id;
                assert(list[i].id@ == id);
            }
        }
        if exists|i: int| 0 <= i < list.len() && #[trigger] list[i].id@ == id {
            let i = choose|i: int| 0 <= i < list.len() && #[trigger] list[i].id@ == id;
            if i < list.len() - 1 {
                assert(front[i].id@ == id);
            }
        }
    }
}

proof fn lemma_mapping_values(list: Seq<ConversationRecord>, at: int)
    requires
        distinct_ids(list),
        0 <= at < list.len(),
    ensures
        mapping_of(list).contains_pair(list[at].id@, list[at].content@),
    decreases list.len(),
{
    let front = list.drop_last();
    if at < list.len() - 1 {
        assert(distinct_ids(front)) by {
            assert forall|i: int, j: int| 0 <= i < j < front.len() implies front[i].id@
                != front[j].id@ by {
                assert(list[i].id@ != list[j].id@);
            }
        }
        lemma_mapping_values(front, at);
        assert(front[at] == list[at]);
        assert(list[at].id@ != list[list.len() - 1].id@);
    }
}

proof fn lemma_mapping_lists(list: Seq<ConversationRecord>)
    requires
        distinct_ids(list),
    ensures
        lists_records(list, mapping_of(list)),
{
    assert forall|i: int| 0 <= i < list.len() implies mapping_of(list).contains_pair(
        #[trigger] list[i].id@,
        list[i].content@,
    ) by {
        lemma_mapping_values(list, i);
    }
    assert forall|id: Seq<char>| mapping_of(list).contains_key(id) implies exists|i: int|
        0 <= i < list.len() && #[trigger] list[i].id@ == id by {
        lemma_mapping_keys(list, id);
    }
}

proof fn lemma_mapping_update(list: Seq<ConversationRecord>, at: int, record: ConversationRecord)
    requires
        distinct_ids(list),
        0 <= at < list.len(),
        list[at].id@ == record.id@,
    ensures
        distinct_ids(list.update(at, record)),
        mapping_of(list.update(at, record)) == saved(mapping_of(list), record.id@, record.content@),
    decreases list.len(),
{
    let after = list.update(at, record);
    assert(distinct_ids(after)) by {
        assert forall|i: int, j: int| 0 <= i < j < after.len() implies after[i].id@
            != after[j].id@ by {
            assert(list[i].id@ != list[j].id@);
        }
    }
    let front = list.drop_last();
    if at == list.len() - 1 {
        assert(after.drop_last() =~= front);
        assert(mapping_of(after) =~= saved(mapping_of(list), record.id@, record.content@));
    } else {
        assert(distinct_ids(front)) by {
            assert forall|i: int, j: int| 0 <= i < j < front.len() implies front[i].id@
                != front[j].id@ by {
                assert(list[i].id@ != list[j].id@);
            }
        }
        lemma_mapping_update(front, at, record);
        assert(after.drop_last() =~= front.update(at, record));
        assert(after.last() == list.last());
        assert(list[at].id@ != list[list.len() - 1].id@);
        assert(mapping_of(after) =~= saved(mapping_of(list), record.id@, record.content@));
    }
}

/// The conversation records that the frontend has saved, each under its
/// identifier. Nothing is ever removed.
pub struct ConversationStore {
    records: Vec<ConversationRecord>,
}

impl View for ConversationStore {
    type V = Records;

    closed spec fn view(&self) -> Records {
        mapping_of(self.records@)
    }
}

impl ConversationStore {
    #[verifier::type_invariant]
    spec fn well_formed(self) -> bool {
        distinct_ids(self.records@)
    }

    /// A store without records.
    pub fn new() -> (store: ConversationStore)
        ensures
            store@ == Records::empty(),
    {
        ConversationStore { records: Vec::new() }
    }

    /// Where the record with this identifier stands, if there is one.
    fn position(&self, id: &String) -> (found: Option<usize>)
        ensures
            match found {
                Some(at) => at < self.records@.len() && self.records@[at as int].id@ == id@,
                None => forall|i: int| 0 <= i < self.records@.len() ==> self.records@[i].id@ != id@,
            },
    {
        let mut at: usize = 0;
        while at < self.records.len()
            invariant
                at <= self.records@.len(),
                forall|i: int| 0 <= i < at ==> self.records@[i].id@ != id@,
            decreases self.records@.len() - at,
        {
            if self.records[at].id == *id {
                return Some(at);
            }
            at = at + 1;
        }
        None
    }

    /// Saves `content` under `id`: a new record, or new content for the one
    /// that is there. The save is complete when the call returns.
    pub fn save(&mut self, id: String, content: String) -> (done: Result<(), String>)
        ensures
            done is Ok,
            final(self)@ == saved(old(self)@, id@, content@),
    {
        proof {
            use_type_invariant(&*self);
        }
        let found = self.position(&id);
        let mut records: Vec<ConversationRecord> = Vec::new();
        std::mem::swap(&mut self.records, &mut records);
        let record = ConversationRecord { id, content };
        match found {
            Some(at) => {
                proof {
                    lemma_mapping_update(records@, at as int, record);
                }
                records.set(at, record);
            },
            None => {
                proof {
                    assert(records@.push(record).drop_last() =~= records@);
                }
                records.push(record);
            },
        }
        std::mem::swap(&mut self.records, &mut records);
        Ok(())
    }

    /// A snapshot of all records: each record of the store once, in no
    /// particular order.
    pub fn load_all(&self) -> (snapshot: Vec<ConversationRecord>)
        ensures
            lists_records(snapshot@, self@),
            self@.dom().finite(),
            snapshot@.len() == self@.len(),
    {
        proof {
            use_type_invariant(self);
            lemma_mapping_lists(self.records@);
        }
        let mut snapshot: Vec<ConversationRecord> = Vec::new();
        let mut at: usize = 0;
        while at < self.records.len()
            invariant
                at <= self.records@.len(),
                snapshot@.len() == at,
                forall|i: int|
                    0 <= i < at ==> snapshot@[i].id@ == self.records@[i].id@ && snapshot@[i].content@
                        == self.records@[i].content@,
            decreases self.records@.len() - at,
        {
            let record = &self.records[at];
            snapshot.push(ConversationRecord { id: record.id.clone(), content: record.content.clone() });
            at = at + 1;
        }
        proof {
            let list = self.records@;
            assert forall|id: Seq<char>| self@.contains_key(id) implies exists|i: int|
                0 <= i < snapshot@.len() && #[trigger] snapshot@[i].id@ == id by {
                let i = choose|i: int| 0 <= i < list.len() && #[trigger] list[i].id@ == id;
                assert(snapshot@[i].id@ == id);
            }
            assert forall|i: int, j: int| 0 <= i < j < snapshot@.len() implies snapshot@[i].id@
                != snapshot@[j].id@ by {
                assert(list[i].id@ != list[j].id@);
            }
            assert forall|i: int| 0 <= i < snapshot@.len() implies self@.contains_pair(
                #[trigger] snapshot@[i].id@,
                snapshot@[i].content@,
            ) by {
                assert(self@.contains_pair(list[i].id@, list[i].content@));
            }
            lemma_listing_counts_records(snapshot@, self@);
        }
        snapshot
    }
}

/// A list that holds the records of `records`, each once, is as long as
/// `records` has identifiers.
pub proof fn lemma_listing_counts_records(list: Seq<ConversationRecord>, records: Records)
    requires
        lists_records(list, records),
    ensures
        records.dom().finite(),
        records.dom().len() == list.len(),
{
    let ids = list.map_values(|record: ConversationRecord| record.id@);
    assert(ids.no_duplicates()) by {
        assert forall|i: int, j: int| 0 <= i < ids.len() && 0 <= j < ids.len() && i != j implies ids[i]
            != ids[j] by {
            if i < j {
                assert(list[i].id@ != list[j].id@);
            } else {
                assert(list[j].id@ != list[i].id@);
            }
        }
    }
    assert(ids.to_set() =~= records.dom()) by {
        assert forall|id: Seq<char>| records.dom().contains(id) implies ids.to_set().contains(
            id,
        ) by {
            let i = choose|i: int| 0 <= i < list.len() && #[trigger] list[i].id@ == id;
            assert(ids[i] == id);
        }
        assert forall|id: Seq<char>| ids.to_set().contains(id) implies records.dom().contains(
            id,
        ) by {
            let i = choose|i: int| 0 <= i < ids.len() && ids[i] == id;
            assert(records.contains_pair(list[i].id@, list[i].content@));
        }
    }
    ids.unique_seq_to_set();
}

/// A record that has been saved is among the records afterwards, under its
/// identifier and with the content that was saved.
pub proof fn lemma_saved_record_is_held(records: Records, id: Seq<char>, content: Seq<char>)
    ensures
        saved(records, id, content).contains_pair(id, content),
{
}

/// A save changes nothing under any other identifier.
pub proof fn lemma_save_keeps_other_records(
    records: Records,
    id: Seq<char>,
    content: Seq<char>,
    other: Seq<char>,
)
    requires
        other != id,
    ensures
        saved(records, id, content).contains_key(other) == records.contains_key(other),
        saved(records, id, content)[other] == records[other],
{
}

/// A second save under the same identifier replaces what the first one
/// saved: the records are those after the second save alone.
pub proof fn lemma_save_overwrites(
    records: Records,
    id: Seq<char>,
    first: Seq<char>,
    second: Seq<char>,
)
    ensures
        saved(saved(records, id, first), id, second) == saved(records, id, second),
        saved(saved(records, id, first), id, second).contains_pair(id, second),
        saved(saved(records, id, first), id, second).dom() == records.dom().insert(id),
{
    assert(saved(saved(records, id, first), id, second) =~= saved(records, id, second));
}

/// Two saves under different identifiers come to the same records in either
/// order, and both records are held afterwards: no update is lost.
pub proof fn lemma_saves_commute(
    records: Records,
    a: Seq<char>,
    first: Seq<char>,
    b: Seq<char>,
    second: Seq<char>,
)
    requires
        a != b,
    ensures
        saved(saved(records, a, first), b, second) == saved(saved(records, b, second), a, first),
        saved(saved(records, a, first), b, second).contains_pair(a, first),
        saved(saved(records, a, first), b, second).contains_pair(b, second),
{
    assert(saved(saved(records, a, first), b, second) =~= saved(
        saved(records, b, second),
        a,
        first,
    ));
}

} // verus!
