//! The mirror store: which source message is mirrored by which post.
//!
//! At most one record exists for a source message at any time. A store in
//! memory is given here; a store kept elsewhere answers the same three
//! questions and must refuse a second record for one source message likewise.

use vstd::prelude::*;
use crate::cowboard::error::CowboardError;
use crate::cowboard::record::{CowboardMessage, MirrorRef, SourceKey};

verus! {

/// The error number with which a SQL database server turns down a row that
/// breaks a uniqueness constraint.
pub const UNIQUE_CONSTRAINT: u32 = 2627;

/// The error number with which a SQL database server turns down a row that
/// breaks a unique index.
pub const UNIQUE_INDEX: u32 = 2601;

/// Whether the error number of a database server says that a record for the
/// source message exists already.
pub fn is_duplicate(code: u32) -> (yes: bool)
    ensures
        yes == (code == UNIQUE_CONSTRAINT || code == UNIQUE_INDEX),
{
    code == UNIQUE_CONSTRAINT || code == UNIQUE_INDEX
}

/// A mirror store held in memory.
pub struct MirrorStore {
    rows: Vec<CowboardMessage>,
}

/// Whether some row of `rows` is about `key`.
pub open spec fn has_row(rows: Seq<CowboardMessage>, key: SourceKey) -> bool {
    exists|i: int| 0 <= i < rows.len() && #[trigger] rows[i].spec_key() == key
}

/// No two rows are about the same source message.
pub open spec fn distinct_keys(rows: Seq<CowboardMessage>) -> bool {
    forall|i: int, j: int|
        0 <= i < rows.len() && 0 <= j < rows.len() && #[trigger] rows[i].spec_key() == #[trigger] rows[j].spec_key()
            ==> i == j
}

/// The mapping that the rows stand for.
pub open spec fn rows_mapping(rows: Seq<CowboardMessage>) -> Map<SourceKey, MirrorRef> {
    Map::new(
        |key: SourceKey| has_row(rows, key),
        |key: SourceKey|
            rows[choose|i: int| 0 <= i < rows.len() && #[trigger] rows[i].spec_key() == key].spec_mirror(),
    )
}

impl View for MirrorStore {
    type V = Map<SourceKey, MirrorRef>;

    closed spec fn view(&self) -> Map<SourceKey, MirrorRef> {
        rows_mapping(self.rows@)
    }
}

impl MirrorStore {
    /// The store holds at most one record for a source message.
    pub closed spec fn wf(&self) -> bool {
        distinct_keys(self.rows@)
    }

    /// How many records the store holds.
    pub closed spec fn spec_len(&self) -> nat {
        self.rows@.len()
    }

    /// How many records the store holds for `key`.
    pub closed spec fn spec_count(&self, key: SourceKey) -> nat {
        self.rows@.filter(|row: CowboardMessage| row.spec_key() == key).len()
    }

    /// An empty store.
    pub fn new() -> (store: Self)
        ensures
            store.wf(),
            store@ == Map::<SourceKey, MirrorRef>::empty(),
            store.spec_len() == 0,
    {
        let store = MirrorStore { rows: Vec::new() };
        assert(store@ =~= Map::<SourceKey, MirrorRef>::empty());
        store
    }

    /// Where the row for `key` stands, if there is one.
    fn position(&self, key: SourceKey) -> (place: Option<usize>)
        ensures
            match place {
                Some(i) => i < self.rows@.len() && self.rows@[i as int].spec_key() == key,
                None => !has_row(self.rows@, key),
            },
    {
        let mut i: usize = 0;
        while i < self.rows.len()
            invariant
                i <= self.rows@.len(),
                forall|j: int| 0 <= j < i ==> self.rows@[j].spec_key() != key,
            decreases self.rows@.len() - i,
        {
            if self.rows[i].key() == key {
                return Some(i);
            }
            i += 1;
        }
        None
    }

    /// Looks up the record of a source message.
    pub fn find(&self, message_id: u64, channel_id: u64, guild_id: u64) -> (found: Option<CowboardMessage>)
        requires
            self.wf(),
        ensures
            ({
                let key = SourceKey { message_id, channel_id, guild_id };
                match found {
                    Some(record) => self@.contains_key(key) && record == CowboardMessage::spec_link(
                        key,
                        self@[key],
                    ),
                    None => !self@.contains_key(key),
                }
            }),
    {
        let key = SourceKey { message_id, channel_id, guild_id };
        match self.position(key) {
            Some(i) => {
                let record = self.rows[i];
                proof {
                    lemma_row_is_mapped(self.rows@, i as int);
                }
                Some(record)
            },
            None => None,
        }
    }

    /// Stores a record. Where the store has a record for the same source
    /// message already, nothing changes and the call fails with
    /// `DuplicateRecord`: someone else was first, and the caller goes on to
    /// refresh that mirror.
    pub fn create(&mut self, record: CowboardMessage) -> (outcome: Result<(), CowboardError>)
        requires
            old(self).wf(),
        ensures
            final(self).wf(),
            old(self)@.contains_key(record.spec_key()) ==> outcome == Err::<(), CowboardError>(
                CowboardError::DuplicateRecord,
            ) && final(self)@ == old(self)@ && final(self).spec_len() == old(self).spec_len(),
            !old(self)@.contains_key(record.spec_key()) ==> outcome is Ok && final(self)@ == old(self)@.insert(
                record.spec_key(),
                record.spec_mirror(),
            ) && final(self).spec_len() == old(self).spec_len() + 1,
    {
        match self.position(record.key()) {
            Some(_) => Err(CowboardError::DuplicateRecord),
            None => {
                let ghost before = self.rows@;
                self.rows.push(record);
                proof {
                    lemma_push_inserts(before, record);
                }
                Ok(())
            },
        }
    }

    /// Removes the record of a source message. Where there is none, nothing
    /// changes: that is no error.
    pub fn delete(&mut self, message_id: u64, channel_id: u64, guild_id: u64)
        requires
            old(self).wf(),
        ensures
            final(self).wf(),
            ({
                let key = SourceKey { message_id, channel_id, guild_id };
                &&& final(self)@ == old(self)@.remove(key)
                &&& !old(self)@.contains_key(key) ==> final(self)@ == old(self)@ && final(self).spec_len() == old(
                    self,
                ).spec_len()
                &&& old(self)@.contains_key(key) ==> final(self).spec_len() == old(self).spec_len() - 1
            }),
    {
        let key = SourceKey { message_id, channel_id, guild_id };
        match self.position(key) {
            Some(i) => {
                let ghost before = self.rows@;
                self.rows.remove(i);
                proof {
                    lemma_remove_removes(before, i as int);
                }
            },
            None => {
                assert(self@ =~= old(self)@.remove(key));
            },
        }
    }

    /// How many records the store holds.
    pub fn len(&self) -> (n: usize)
        ensures
            n == self.spec_len(),
    {
        self.rows.len()
    }

    /// How many records the store holds for a source message: one or none.
    pub fn count(&self, message_id: u64, channel_id: u64, guild_id: u64) -> (n: usize)
        requires
            self.wf(),
        ensures
            n == self.spec_count(SourceKey { message_id, channel_id, guild_id }),
            n == (if self@.contains_key(SourceKey { message_id, channel_id, guild_id }) {
                1nat
            } else {
                0nat
            }),
    {
        let key = SourceKey { message_id, channel_id, guild_id };
        let ghost pred = |row: CowboardMessage| row.spec_key() == key;
        let mut n: usize = 0;
        let mut i: usize = 0;
        while i < self.rows.len()
            invariant
                i <= self.rows@.len(),
                n == self.rows@.take(i as int).filter(pred).len(),
                n <= i,
                pred == (|row: CowboardMessage| row.spec_key() == key),
            decreases self.rows@.len() - i,
        {
            proof {
                lemma_filter_take_step(self.rows@, pred, i as int);
            }
            if self.rows[i].key() == key {
                n += 1;
            }
            i += 1;
        }
        proof {
            assert(self.rows@.take(self.rows@.len() as int) =~= self.rows@);
            lemma_count_of_distinct(self.rows@, key);
        }
        n
    }
}

/// The row at `i` is what the mapping holds for its key.
proof fn lemma_row_is_mapped(rows: Seq<CowboardMessage>, i: int)
    requires
        distinct_keys(rows),
        0 <= i < rows.len(),
    ensures
        rows_mapping(rows).contains_key(rows[i].spec_key()),
        rows_mapping(rows)[rows[i].spec_key()] == rows[i].spec_mirror(),
        rows[i] == CowboardMessage::spec_link(rows[i].spec_key(), rows[i].spec_mirror()),
{
    let key = rows[i].spec_key();
    assert(has_row(rows, key));
    let j = choose|j: int| 0 <= j < rows.len() && #[trigger] rows[j].spec_key() == key;
    assert(j == i);
}

/// A new row for a key that has none adds that key to the mapping.
proof fn lemma_push_inserts(rows: Seq<CowboardMessage>, record: CowboardMessage)
    requires
        distinct_keys(rows),
        !has_row(rows, record.spec_key()),
    ensures
        distinct_keys(rows.push(record)),
        rows_mapping(rows.push(record)) == rows_mapping(rows).insert(record.spec_key(), record.spec_mirror()),
{
    let after = rows.push(record);
    assert(distinct_keys(after)) by {
        assert forall|i: int, j: int|
            0 <= i < after.len() && 0 <= j < after.len() && #[trigger] after[i].spec_key() == #[trigger] after[j].spec_key() implies i
            == j by {
            if i < rows.len() && j < rows.len() {
                assert(rows[i].spec_key() == rows[j].spec_key());
            } else if i < rows.len() {
                assert(rows[i].spec_key() == record.spec_key());
            } else if j < rows.len() {
                assert(rows[j].spec_key() == record.spec_key());
            }
        }
    }
    let want = rows_mapping(rows).insert(record.spec_key(), record.spec_mirror());
    assert forall|key: SourceKey| rows_mapping(after).contains_key(key) <==> want.contains_key(key) by {
        if has_row(after, key) {
            let i = choose|i: int| 0 <= i < after.len() && #[trigger] after[i].spec_key() == key;
            if i < rows.len() {
                assert(rows[i].spec_key() == key);
            }
        }
        if has_row(rows, key) {
            let i = choose|i: int| 0 <= i < rows.len() && #[trigger] rows[i].spec_key() == key;
            assert(after[i].spec_key() == key);
        }
        if key == record.spec_key() {
            assert(after[rows.len() as int].spec_key() == key);
        }
    }
    assert forall|key: SourceKey| rows_mapping(after).contains_key(key) implies rows_mapping(after)[key]
        == want[key] by {
        let i = choose|i: int| 0 <= i < after.len() && #[trigger] after[i].spec_key() == key;
        lemma_row_is_mapped(after, i);
        if i < rows.len() {
            lemma_row_is_mapped(rows, i);
        }
    }
    assert(rows_mapping(after) =~= want);
}

/// Taking a row out takes its key out of the mapping.
proof fn lemma_remove_removes(rows: Seq<CowboardMessage>, i: int)
    requires
        distinct_keys(rows),
        0 <= i < rows.len(),
    ensures
        distinct_keys(rows.remove(i)),
        rows_mapping(rows).contains_key(rows[i].spec_key()),
        rows_mapping(rows.remove(i)) == rows_mapping(rows).remove(rows[i].spec_key()),
{
    let after = rows.remove(i);
    let gone = rows[i].spec_key();
    assert(has_row(rows, gone));
    assert forall|a: int| 0 <= a < after.len() implies #[trigger] after[a] == rows[if a < i {
        a
    } else {
        a + 1
    }] by {}
    assert(distinct_keys(after)) by {
        assert forall|a: int, b: int|
            0 <= a < after.len() && 0 <= b < after.len() && #[trigger] after[a].spec_key() == #[trigger] after[b].spec_key() implies a
            == b by {
            let a2 = if a < i { a } else { a + 1 };
            let b2 = if b < i { b } else { b + 1 };
            assert(rows[a2].spec_key() == rows[b2].spec_key());
        }
    }
    let want = rows_mapping(rows).remove(gone);
    assert forall|key: SourceKey| rows_mapping(after).contains_key(key) <==> want.contains_key(key) by {
        if has_row(after, key) {
            let a = choose|a: int| 0 <= a < after.len() && #[trigger] after[a].spec_key() == key;
            let a2 = if a < i { a } else { a + 1 };
            assert(rows[a2].spec_key() == key);
            if key == gone {
                assert(rows[a2].spec_key() == rows[i].spec_key());
            }
        }
        if has_row(rows, key) && key != gone {
            let b = choose|b: int| 0 <= b < rows.len() && #[trigger] rows[b].spec_key() == key;
            let b2 = if b < i { b } else { b - 1 };
            assert(after[b2].spec_key() == key);
        }
    }
    assert forall|key: SourceKey| rows_mapping(after).contains_key(key) implies rows_mapping(after)[key]
        == want[key] by {
        let a = choose|a: int| 0 <= a < after.len() && #[trigger] after[a].spec_key() == key;
        let a2 = if a < i { a } else { a + 1 };
        lemma_row_is_mapped(after, a);
        lemma_row_is_mapped(rows, a2);
    }
    assert(rows_mapping(after) =~= want);
}

/// Counting the rows that meet `pred`, one row further.
proof fn lemma_filter_take_step(rows: Seq<CowboardMessage>, pred: spec_fn(CowboardMessage) -> bool, i: int)
    requires
        0 <= i < rows.len(),
    ensures
        rows.take(i + 1).filter(pred).len() == rows.take(i).filter(pred).len() + (if pred(rows[i]) {
            1nat
        } else {
            0nat
        }),
{
    assert(rows.take(i + 1) =~= rows.take(i).push(rows[i]));
    assert(rows.take(i + 1).drop_last() =~= rows.take(i));
    reveal(Seq::filter);
}

/// Among rows with distinct keys, a key has one row or none.
proof fn lemma_count_of_distinct(rows: Seq<CowboardMessage>, key: SourceKey)
    requires
        distinct_keys(rows),
    ensures
        rows.filter(|row: CowboardMessage| row.spec_key() == key).len() == (if has_row(rows, key) {
            1nat
        } else {
            0nat
        }),
    decreases rows.len(),
{
    let pred = |row: CowboardMessage| row.spec_key() == key;
    reveal(Seq::filter);
    if rows.len() > 0 {
        let front = rows.drop_last();
        assert(distinct_keys(front)) by {
            assert forall|i: int, j: int|
                0 <= i < front.len() && 0 <= j < front.len() && #[trigger] front[i].spec_key() == #[trigger] front[j].spec_key() implies i
                == j by {
                assert(rows[i].spec_key() == rows[j].spec_key());
            }
        }
        lemma_count_of_distinct(front, key);
        let last = rows.len() - 1;
        if has_row(front, key) {
            let i = choose|i: int| 0 <= i < front.len() && #[trigger] front[i].spec_key() == key;
            assert(rows[i].spec_key() == key);
            if pred(rows.last()) {
                assert(rows[last].spec_key() == rows[i].spec_key());
            }
        } else if pred(rows.last()) {
            assert(rows[last].spec_key() == key);
        } else {
            if has_row(rows, key) {
                let i = choose|i: int| 0 <= i < rows.len() && #[trigger] rows[i].spec_key() == key;
                if i < front.len() {
                    assert(front[i].spec_key() == key);
                }
            }
        }
    }
}

} // verus!
