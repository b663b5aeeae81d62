use vstd::prelude::*;
use std::collections::HashMap;
use crate::slice_ops::{SliceError, le_value, read_from_slice};
use crate::decimal::{append_decimal, decimal_chars};

verus! {

broadcast use vstd::std_specs::hash::group_hash_axioms;

/// The most records a log holds before it stops taking new ones.
pub const MAX_RECORDS: usize = 5000;

/// The number of slots of the game's ring buffer of events.
pub const RING_SLOTS: i32 = 512;

/// One change of an event flag, as the game logged it.
#[derive(Debug, Clone, Copy, PartialEq, Eq, Structural)]
pub struct EventRecord {
    pub event_id: u32,
    pub state: bool,
    /// When the record was polled, in seconds since the Unix epoch.
    pub time_stamp: i64,
}

/// The event id and state stored in slot `slot` (5 bytes each: a
/// little-endian `u32` id, then a state byte), when the slot lies in `buffer`.
pub open spec fn record_at(buffer: Seq<u8>, slot: int) -> Option<(u32, bool)> {
    let offset = slot * 5;
    if 0 <= offset && offset + 5 <= buffer.len() {
        Some((le_value(buffer.subrange(offset, offset + 4)) as u32, buffer[offset + 4] != 0))
    } else {
        None
    }
}

impl EventRecord {
    /// The record stored at `offset`: a little-endian `u32` event id and a
    /// state byte (non-zero for set).
    pub fn read_at(bytes: &[u8], offset: u64, time_stamp: i64) -> (r: Result<Self, SliceError>)
        requires
            offset + 5 <= u64::MAX,
        ensures
            offset + 5 <= bytes@.len() ==> r == Ok::<EventRecord, SliceError>(
                EventRecord {
                    event_id: le_value(bytes@.subrange(offset as int, offset + 4)) as u32,
                    state: bytes@[offset + 4] != 0,
                    time_stamp,
                },
            ),
            offset + 5 > bytes@.len() ==> r == Err::<EventRecord, SliceError>(
                SliceError::ReadOutOfBounds,
            ),
    {
        let event_id = read_from_slice::<u32>(bytes, offset)?;
        let state = read_from_slice::<u8>(bytes, offset + 4)?;
        proof {
            assert(bytes@.subrange(offset + 4, offset + 5) =~= seq![bytes@[offset + 4]]);
            assert(bytes@.subrange(offset + 4, offset + 5).drop_first() =~= Seq::<u8>::empty());
        }
        Ok(Self { event_id, state: state != 0x0, time_stamp })
    }
}

/// The event log's bookkeeping after one record: the record is kept unless it
/// repeats the last known state of its event (and duplicates are hidden), its
/// event is excluded, or the log is over its limit; the event's last known
/// state is updated either way.
pub open spec fn poll_step(
    records: Seq<EventRecord>,
    dupes: Map<u32, bool>,
    excluded: Seq<u32>,
    push_duplicates: bool,
    record: EventRecord,
) -> (Seq<EventRecord>, Map<u32, bool>) {
    let repeated = dupes.contains_key(record.event_id) && dupes[record.event_id] == record.state;
    let keep = (push_duplicates || !repeated) && !excluded.contains(record.event_id) && records.len()
        <= MAX_RECORDS;
    (
        if keep {
            records.push(record)
        } else {
            records
        },
        dupes.insert(record.event_id, record.state),
    )
}

/// The ring buffer slot of the `i`-th record after `read_idx`.
pub open spec fn slot(read_idx: i32, i: int) -> int {
    ((read_idx + i) as i32 & 511i32) as int
}

/// The records and last known states after the first `count` records of a
/// poll, and whether all of them could be read.
pub open spec fn poll_prefix(
    records: Seq<EventRecord>,
    dupes: Map<u32, bool>,
    excluded: Seq<u32>,
    push_duplicates: bool,
    buffer: Seq<u8>,
    read_idx: i32,
    now: i64,
    count: nat,
) -> (Seq<EventRecord>, Map<u32, bool>, bool)
    decreases count,
{
    if count == 0 {
        (records, dupes, true)
    } else {
        let (r, d, ok) = poll_prefix(
            records,
            dupes,
            excluded,
            push_duplicates,
            buffer,
            read_idx,
            now,
            (count - 1) as nat,
        );
        if !ok {
            (r, d, false)
        } else {
            match record_at(buffer, slot(read_idx, count - 1)) {
                None => (r, d, false),
                Some((id, st)) => {
                    let (r2, d2) = poll_step(
                        r,
                        d,
                        excluded,
                        push_duplicates,
                        EventRecord { event_id: id, state: st, time_stamp: now },
                    );
                    (r2, d2, true)
                },
            }
        }
    }
}

proof fn lemma_poll_prefix_stuck(
    records: Seq<EventRecord>,
    dupes: Map<u32, bool>,
    excluded: Seq<u32>,
    push_duplicates: bool,
    buffer: Seq<u8>,
    read_idx: i32,
    now: i64,
    k: nat,
    count: nat,
)
    requires
        k <= count,
        !poll_prefix(records, dupes, excluded, push_duplicates, buffer, read_idx, now, k).2,
    ensures
        poll_prefix(records, dupes, excluded, push_duplicates, buffer, read_idx, now, count)
            == poll_prefix(records, dupes, excluded, push_duplicates, buffer, read_idx, now, k),
    decreases count,
{
    if k < count {
        lemma_poll_prefix_stuck(
            records,
            dupes,
            excluded,
            push_duplicates,
            buffer,
            read_idx,
            now,
            k,
            (count - 1) as nat,
        );
    }
}

/// The number of records to read: the distance from the read index to the
/// game's write index around the ring.
pub open spec fn records_to_read(write_idx: i32, read_idx: i32) -> int {
    ((write_idx - read_idx) as i32 & 511i32) as int
}

/// Whether no kept record belongs to an excluded event.
pub open spec fn no_excluded_records(records: Seq<EventRecord>, excluded: Seq<u32>) -> bool {
    forall|i: int| 0 <= i < records.len() ==> !excluded.contains(#[trigger] records[i].event_id)
}

/// A poll keeps excluded events out of the log, and grows the log past its
/// limit by at most one record.
pub proof fn lemma_poll_keeps_exclusions(
    records: Seq<EventRecord>,
    dupes: Map<u32, bool>,
    excluded: Seq<u32>,
    push_duplicates: bool,
    buffer: Seq<u8>,
    read_idx: i32,
    now: i64,
    count: nat,
)
    requires
        no_excluded_records(records, excluded),
    ensures
        ({
            let after = poll_prefix(records, dupes, excluded, push_duplicates, buffer, read_idx, now, count).0;
            &&& no_excluded_records(after, excluded)
            &&& after.len() <= if records.len() > MAX_RECORDS + 1 {
                records.len() as int
            } else {
                MAX_RECORDS + 1
            }
            &&& records.len() <= after.len()
            &&& after.subrange(0, records.len() as int) == records
        }),
    decreases count,
{
    if count > 0 {
        lemma_poll_keeps_exclusions(
            records,
            dupes,
            excluded,
            push_duplicates,
            buffer,
            read_idx,
            now,
            (count - 1) as nat,
        );
        let (r, d, ok) = poll_prefix(
            records,
            dupes,
            excluded,
            push_duplicates,
            buffer,
            read_idx,
            now,
            (count - 1) as nat,
        );
        let after = poll_prefix(records, dupes, excluded, push_duplicates, buffer, read_idx, now, count).0;
        if ok && after != r {
            assert(after.drop_last() =~= r);
            assert(after.subrange(0, records.len() as int) =~= r.subrange(0, records.len() as int));
        }
    }
}

/// Excluding an event keeps every excluded event, old and new, out of the log.
pub proof fn lemma_exclude_keeps_exclusions(records: Seq<EventRecord>, excluded: Seq<u32>, event_id: u32)
    requires
        no_excluded_records(records, excluded),
    ensures
        no_excluded_records(
            records.filter(|r: EventRecord| r.event_id != event_id),
            excluded.push(event_id),
        ),
    decreases records.len(),
{
    reveal_with_fuel(Seq::filter, 1);
    let pred = |r: EventRecord| r.event_id != event_id;
    if records.len() > 0 {
        let rest = records.drop_last();
        assert forall|i: int| 0 <= i < rest.len() implies !excluded.contains(#[trigger] rest[i].event_id) by {
            assert(rest[i] == records[i]);
        }
        lemma_exclude_keeps_exclusions(rest, excluded, event_id);
        let f = records.filter(pred);
        let sub = rest.filter(pred);
        assert forall|i: int| 0 <= i < f.len() implies !excluded.push(event_id).contains(
            #[trigger] f[i].event_id,
        ) by {
            if i < sub.len() {
                assert(f[i] == sub[i]);
            } else {
                assert(f[i] == records.last());
                assert(records[records.len() - 1] == records.last());
                if excluded.push(event_id).contains(f[i].event_id) {
                    let k = choose|k: int| 0 <= k < excluded.push(event_id).len() && excluded.push(event_id)[k] == f[i].event_id;
                    if k < excluded.len() {
                        assert(excluded.contains(records[records.len() - 1].event_id));
                    }
                }
            }
        }
    }
}

/// Excluding keeps each excluded id listed once, and lists the new one.
pub proof fn lemma_exclude_keeps_ids_distinct(excluded: Seq<u32>, event_id: u32)
    requires
        excluded.no_duplicates(),
    ensures
        ({
            let after = if excluded.contains(event_id) {
                excluded
            } else {
                excluded.push(event_id)
            };
            &&& after.no_duplicates()
            &&& after.contains(event_id)
        }),
{
    if !excluded.contains(event_id) {
        let after = excluded.push(event_id);
        assert(after[excluded.len() as int] == event_id);
        assert forall|i: int, j: int| 0 <= i < after.len() && 0 <= j < after.len() && i != j implies after[i]
            != after[j] by {
            if i < excluded.len() && j < excluded.len() {
                assert(after[i] == excluded[i] && after[j] == excluded[j]);
            } else if i < excluded.len() {
                assert(after[i] == excluded[i]);
            } else if j < excluded.len() {
                assert(after[j] == excluded[j]);
            }
        }
    }
}

/// Polling again at the write index already reached reads nothing.
pub proof fn lemma_poll_again_reads_nothing(write_idx: i32)
    ensures
        records_to_read(write_idx, write_idx) == 0,
{
    assert((0i32 & 511i32) == 0i32) by (bit_vector);
}

/// The events that the game logged, as polled from its ring buffer.
pub struct EventLog {
    pub records: Vec<EventRecord>,
    excluded: Vec<u32>,
    push_duplicates: bool,
    dupe_map: HashMap<u32, bool>,
    read_idx: i32,
}

impl Default for EventLog {
    fn default() -> (r: Self)
        ensures
            r.spec_records() == Seq::<EventRecord>::empty(),
            r.spec_excluded() == Seq::<u32>::empty(),
            !r.spec_push_duplicates(),
            r.spec_dupes() == Map::<u32, bool>::empty(),
            r.spec_read_idx() == 0,
    {
        EventLog {
            records: Vec::new(),
            excluded: Vec::new(),
            push_duplicates: false,
            dupe_map: HashMap::new(),
            read_idx: 0,
        }
    }
}

fn contains_id(ids: &Vec<u32>, id: u32) -> (r: bool)
    ensures
        r == ids@.contains(id),
{
    let mut i: usize = 0;
    while i < ids.len()
        invariant
            i <= ids@.len(),
            forall|j: int| 0 <= j < i ==> ids@[j] != id,
        decreases ids@.len() - i,
    {
        if ids[i] == id {
            assert(ids@[i as int] == id);
            return true;
        }
        i = i + 1;
    }
    false
}

impl EventLog {
    /// The records kept, in the order they were polled.
    pub closed spec fn spec_records(&self) -> Seq<EventRecord> {
        self.records@
    }

    /// The events whose records are not kept.
    pub closed spec fn spec_excluded(&self) -> Seq<u32> {
        self.excluded@
    }

    /// Whether records that repeat an event's last known state are kept.
    pub closed spec fn spec_push_duplicates(&self) -> bool {
        self.push_duplicates
    }

    /// The last known state of each event seen.
    pub closed spec fn spec_dupes(&self) -> Map<u32, bool> {
        self.dupe_map@
    }

    /// The ring buffer index up to which records were read.
    pub closed spec fn spec_read_idx(&self) -> i32 {
        self.read_idx
    }

    /// The ring buffer index up to which records were read.
    pub fn read_index(&self) -> (r: i32)
        ensures
            r == self.spec_read_idx(),
    {
        self.read_idx
    }

    /// Reads the records that the game wrote to its ring buffer since the last
    /// poll, up to its write index `write_idx`, stamping each with `now`.
    ///
    /// Fails with `ReadOutOfBounds` when a slot lies past the end of `buffer`;
    /// the records before it are then kept and the read index is unchanged.
    pub fn poll(&mut self, write_idx: i32, buffer: &[u8], now: i64) -> (r: Result<(), SliceError>)
        requires
            i32::MIN <= write_idx - old(self).spec_read_idx() <= i32::MAX,
            old(self).spec_read_idx() + 511 <= i32::MAX,
        ensures
            ({
                let (recs, dupes, ok) = poll_prefix(
                    old(self).spec_records(),
                    old(self).spec_dupes(),
                    old(self).spec_excluded(),
                    old(self).spec_push_duplicates(),
                    buffer@,
                    old(self).spec_read_idx(),
                    now,
                    records_to_read(write_idx, old(self).spec_read_idx()) as nat,
                );
                &&& final(self).spec_records() == recs
                &&& final(self).spec_dupes() == dupes
                &&& final(self).spec_excluded() == old(self).spec_excluded()
                &&& final(self).spec_push_duplicates() == old(self).spec_push_duplicates()
                &&& ok ==> r is Ok && final(self).spec_read_idx() == write_idx
                &&& !ok ==> r == Err::<(), SliceError>(SliceError::ReadOutOfBounds)
                    && final(self).spec_read_idx() == old(self).spec_read_idx()
            }),
    {
        let ghost records0 = self.records@;
        let ghost dupes0 = self.dupe_map@;
        let read_idx = self.read_idx;
        let diff: i32 = write_idx - read_idx;
        let num_to_read: i32 = diff & 511;
        assert(0 <= num_to_read <= 511) by (bit_vector)
            requires
                num_to_read == diff & 511i32,
        ;
        assert(num_to_read as int == records_to_read(write_idx, read_idx));
        let mut i: i32 = 0;
        while i < num_to_read
            invariant
                0 <= i <= num_to_read <= 511,
                read_idx == self.read_idx,
                read_idx == old(self).read_idx,
                records0 == old(self).records@,
                dupes0 == old(self).dupe_map@,
                num_to_read as int == records_to_read(write_idx, read_idx),
                read_idx + 511 <= i32::MAX,
                self.excluded@ == old(self).excluded@,
                self.push_duplicates == old(self).push_duplicates,
                ({
                    let (recs, dupes, ok) = poll_prefix(
                        records0,
                        dupes0,
                        self.excluded@,
                        self.push_duplicates,
                        buffer@,
                        read_idx,
                        now,
                        i as nat,
                    );
                    &&& ok
                    &&& self.records@ == recs
                    &&& self.dupe_map@ == dupes
                }),
            decreases num_to_read - i,
        {
            let sum: i32 = read_idx + i;
            let idx: i32 = sum & 511;
            assert(0 <= idx <= 511) by (bit_vector)
                requires
                    idx == sum & 511i32,
            ;
            let read_offset: i32 = idx * 5;
            let record = match EventRecord::read_at(buffer, read_offset as u64, now) {
                Ok(record) => record,
                Err(e) => {
                    proof {
                        assert(slot(read_idx, i as int) == idx as int);
                        assert(record_at(buffer@, idx as int) is None);
                        assert(!poll_prefix(
                            records0,
                            dupes0,
                            self.excluded@,
                            self.push_duplicates,
                            buffer@,
                            read_idx,
                            now,
                            (i + 1) as nat,
                        ).2);
                        lemma_poll_prefix_stuck(
                            records0,
                            dupes0,
                            self.excluded@,
                            self.push_duplicates,
                            buffer@,
                            read_idx,
                            now,
                            (i + 1) as nat,
                            num_to_read as nat,
                        );
                    }
                    return Err(e);
                },
            };
            assert(record_at(buffer@, slot(read_idx, i as int)) == Some(
                (record.event_id, record.state),
            ));
            let repeated = match self.dupe_map.get(&record.event_id) {
                Some(s) => *s == record.state,
                None => false,
            };
            if (self.push_duplicates || !repeated) && !contains_id(&self.excluded, record.event_id)
                && self.records.len() <= MAX_RECORDS {
                self.records.push(record);
            }
            self.dupe_map.insert(record.event_id, record.state);
            i = i + 1;
        }
        self.read_idx = write_idx;
        Ok(())
    }

    /// Stops keeping records of `event_id` and drops those already kept.
    pub fn exclude(&mut self, event_id: u32)
        ensures
            old(self).spec_excluded().contains(event_id) ==> *final(self) == *old(self),
            !old(self).spec_excluded().contains(event_id) ==> {
                &&& final(self).spec_excluded() == old(self).spec_excluded().push(event_id)
                &&& final(self).spec_records() == old(self).spec_records().filter(
                    |r: EventRecord| r.event_id != event_id,
                )
                &&& final(self).spec_dupes() == old(self).spec_dupes()
                &&& final(self).spec_push_duplicates() == old(self).spec_push_duplicates()
                &&& final(self).spec_read_idx() == old(self).spec_read_idx()
            },
    {
        if !contains_id(&self.excluded, event_id) {
            self.excluded.push(event_id);
            let ghost rs = self.records@;
            let mut kept: Vec<EventRecord> = Vec::new();
            let mut i: usize = 0;
            while i < self.records.len()
                invariant
                    i <= self.records@.len(),
                    self.records@ == rs,
                    kept@ == rs.take(i as int).filter(|r: EventRecord| r.event_id != event_id),
                decreases self.records@.len() - i,
            {
                let r = self.records[i];
                proof {
                    assert(rs.take(i + 1).drop_last() =~= rs.take(i as int));
                    reveal_with_fuel(Seq::filter, 1);
                }
                if r.event_id != event_id {
                    kept.push(r);
                }
                i = i + 1;
            }
            assert(rs.take(rs.len() as int) =~= rs);
            self.records = kept;
        }
    }

    /// Forgets the records, the last known states and the read position.
    pub fn clear(&mut self)
        ensures
            final(self).spec_records() == Seq::<EventRecord>::empty(),
            final(self).spec_dupes() == Map::<u32, bool>::empty(),
            final(self).spec_read_idx() == 0,
            final(self).spec_excluded() == old(self).spec_excluded(),
            final(self).spec_push_duplicates() == old(self).spec_push_duplicates(),
    {
        self.records.clear();
        self.dupe_map.clear();
        self.read_idx = 0;
    }

    pub fn entries(&self) -> (r: &Vec<EventRecord>)
        ensures
            r@ == self.spec_records(),
    {
        &self.records
    }

    pub fn get_excluded(&self) -> (r: &Vec<u32>)
        ensures
            r@ == self.spec_excluded(),
    {
        &self.excluded
    }

    pub fn is_show_duplicates(&self) -> (r: bool)
        ensures
            r == self.spec_push_duplicates(),
    {
        self.push_duplicates
    }

    pub fn toggle_show_duplicates(&mut self)
        ensures
            final(self).spec_push_duplicates() == !old(self).spec_push_duplicates(),
            final(self).spec_records() == old(self).spec_records(),
            final(self).spec_excluded() == old(self).spec_excluded(),
            final(self).spec_dupes() == old(self).spec_dupes(),
            final(self).spec_read_idx() == old(self).spec_read_idx(),
    {
        self.push_duplicates = !self.push_duplicates;
    }
}

/// `s` padded with spaces on the right to at least `width` characters.
pub open spec fn pad_right(s: Seq<char>, width: nat) -> Seq<char> {
    if s.len() >= width {
        s
    } else {
        s + Seq::new((width - s.len()) as nat, |i: int| ' ')
    }
}

/// A record's line in an exported log: the clock time, the event id padded
/// to ten columns, and the state in capitals.
pub open spec fn export_line_text(clock: Seq<char>, event_id: u32, state: bool) -> Seq<char> {
    clock + seq![' '] + pad_right(decimal_chars(event_id as nat), 10) + seq![' '] + if state {
        "TRUE"@
    } else {
        "FALSE"@
    }
}

/// The line of a record in an exported log, given the clock time at which
/// it was polled.
pub fn export_line(clock: &str, event_id: u32, state: bool) -> (r: String)
    ensures
        r@ == export_line_text(clock@, event_id, state),
{
    let mut id = String::new();
    append_decimal(&mut id, event_id);
    let n = id.as_str().unicode_len();
    let ghost digits = id@;
    let mut k: usize = n;
    while k < 10
        invariant
            n == digits.len(),
            n <= k <= 10 || (n > 10 && k == n),
            id@ == digits + Seq::new((k - n) as nat, |i: int| ' '),
        decreases 10 - k,
    {
        let ghost before = id@;
        id.append(" ");
        proof {
            reveal_strlit(" ");
            assert(id@ =~= digits + Seq::new((k + 1 - n) as nat, |i: int| ' '));
        }
        k = k + 1;
    }
    proof {
        if n >= 10 {
            assert(id@ =~= digits);
        } else {
            assert(k == 10);
        }
        assert(id@ == pad_right(digits, 10));
    }
    let mut r = String::from_str(clock);
    r.append(" ");
    r.append(id.as_str());
    r.append(" ");
    if state {
        r.append("TRUE");
    } else {
        r.append("FALSE");
    }
    proof {
        reveal_strlit(" ");
        assert(r@ =~= export_line_text(clock@, event_id, state));
    }
    r
}

/// Why the log could not be written to a file.
#[derive(Debug)]
pub enum ExportError {
    Empty,
    HomeDir,
    Create { error_kind: String },
    Open { error_kind: String },
    Write { error_kind: String },
}

} // verus!
