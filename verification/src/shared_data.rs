use vstd::prelude::*;

verus! {

/// Append-only, monotonically sequenced log of inbound notifications.
///
/// Sequence numbers form a dense, 1-based counter assigned at append
/// time and never reused. `counter` holds the next number to assign,
/// so a well-formed cache always satisfies
/// `counter == messages.len() + 1`.
///
/// The same type doubles as the element type returned by
/// `get_messages_from`: there each value carries one entry, with
/// `counter` set to the entry's sequence number and `messages` holding
/// just that entry's payload.
#[derive(Debug)]
pub struct SharedData {
    pub counter: u64,
    pub messages: Vec<String>,
}

/// The (sequence number, payload) pairs carried by a list of
/// single-entry `SharedData` values, as returned by
/// `get_messages_from`.
pub open spec fn entries_view(v: Seq<SharedData>) -> Seq<(u64, Seq<char>)> {
    v.map(|j: int, sd: SharedData| (sd.counter, sd.messages@[0]@))
}

impl SharedData {
    /// A cache is well formed when the next sequence number to assign
    /// is one past the number of entries already appended.
    pub open spec fn wf(&self) -> bool {
        self.counter == self.messages@.len() + 1
    }

    /// The payload stored under (1-based) sequence number `seq`.
    pub open spec fn entry_at(&self, seq: int) -> Seq<char> {
        self.messages@[seq - 1]@
    }

    /// The 0-based index of the first entry a reader at cursor `c`
    /// receives: entries are numbered from 1, so a cursor of 0 or 1
    /// starts at the beginning.
    pub open spec fn read_start(c: u64) -> int {
        if c <= 1 {
            0
        } else {
            c - 1
        }
    }

    /// The exact (sequence number, payload) list a reader at cursor `c`
    /// receives: every entry with sequence number >= c, in ascending
    /// order.
    pub open spec fn read_from_spec(&self, c: u64) -> Seq<(u64, Seq<char>)> {
        let start = Self::read_start(c);
        if start <= self.messages@.len() {
            Seq::new(
                (self.messages@.len() - start) as nat,
                |j: int| (((start + j + 1) as u64), self.messages@[start + j]@),
            )
        } else {
            Seq::empty()
        }
    }

    pub fn new() -> (r: SharedData)
        ensures
            r.wf(),
            r.counter == 1,
            r.messages@.len() == 0,
    {
        SharedData { counter: 1, messages: Vec::new() }
    }

    /// Appends one notification: stores the payload, assigns the next
    /// sequence number, and returns it. The bound on `counter` is a
    /// machine limit; the log itself is unbounded.
    pub fn add_message(&mut self, msg: String) -> (seq_num: u64)
        requires
            old(self).wf(),
            old(self).counter < u64::MAX,
        ensures
            final(self).wf(),
            seq_num == old(self).counter,
            seq_num == old(self).messages@.len() + 1,
            final(self).counter == old(self).counter + 1,
            final(self).messages@ == old(self).messages@.push(msg),
    {
        let seq_num = self.counter;
        self.counter = self.counter + 1;
        self.messages.push(msg);
        seq_num
    }

    /// Read-only cursor access: returns one single-entry value per
    /// stored notification with sequence number >= `start_seq`, in
    /// ascending order.
    pub fn get_messages_from(&self, start_seq: u64) -> (result: Vec<SharedData>)
        ensures
            entries_view(result@) == self.read_from_spec(start_seq),
            forall|j: int| 0 <= j < result@.len() ==> (#[trigger] result@[j]).messages@.len() == 1,
    {
        let ghost expected = self.read_from_spec(start_seq);
        let mut result: Vec<SharedData> = Vec::new();
        let mut i: usize = 0;
        while i < self.messages.len()
            invariant
                i <= self.messages@.len(),
                expected == self.read_from_spec(start_seq),
                result@.len() == if i as int <= Self::read_start(start_seq) {
                    0int
                } else {
                    i - Self::read_start(start_seq)
                },
                entries_view(result@) =~= expected.take(result@.len() as int),
                forall|j: int|
                    0 <= j < result@.len() ==> (#[trigger] result@[j]).messages@.len() == 1,
            decreases self.messages@.len() - i,
        {
            if (i as u64 + 1) >= start_seq {
                let mut sd = SharedData::new();
                sd.counter = i as u64 + 1;
                sd.messages.push(self.messages[i].clone());
                result.push(sd);
            }
            i = i + 1;
        }
        proof {
            assert(entries_view(result@) =~= expected);
        }
        result
    }
}

/// Cache monotonicity: successive appends assign sequence numbers that
/// increase by exactly 1, starting at 1 on an empty cache. `s1` is the
/// number `add_message` assigns on `d1` (by its contract,
/// `d1.messages.len() + 1`), `d2` the cache it leaves behind, and `s2`
/// the number the next append on `d2` assigns.
pub proof fn lemma_cache_monotonicity(d1: SharedData, d2: SharedData, s1: u64, s2: u64)
    requires
        d1.wf(),
        d2.wf(),
        s1 == d1.messages@.len() + 1,
        d2.messages@.len() == d1.messages@.len() + 1,
        s2 == d2.messages@.len() + 1,
    ensures
        s1 == d1.counter,
        d1.messages@.len() == 0 ==> s1 == 1,
        s2 == s1 + 1,
{
}

/// Cursor correctness: a reader at cursor `c` receives exactly the
/// entries with sequence number >= `c`, in ascending dense order, each
/// carrying the payload stored under its number.
pub proof fn lemma_cursor_correctness(d: SharedData, c: u64)
    requires
        d.wf(),
    ensures
        d.read_from_spec(c).len() == if SharedData::read_start(c) <= d.messages@.len() {
            d.messages@.len() - SharedData::read_start(c)
        } else {
            0int
        },
        forall|j: int|
            0 <= j < d.read_from_spec(c).len() ==> {
                let e = #[trigger] d.read_from_spec(c)[j];
                &&& e.0 >= c
                &&& 1 <= e.0 <= d.messages@.len()
                &&& e.0 == SharedData::read_start(c) + j + 1
                &&& e.1 == d.entry_at(e.0 as int)
            },
        // no entry with sequence number >= c is missing
        forall|s: int|
            1 <= s <= d.messages@.len() && s >= c ==> #[trigger] d.read_from_spec(c)[s - 1
                - SharedData::read_start(c)] == ((s as u64), d.entry_at(s)),
{
}

/// Cursor determinism: two reads with the same cursor and no
/// intervening append observe identical results, since each is pinned
/// to `read_from_spec`.
pub proof fn lemma_read_deterministic(
    d: SharedData,
    c: u64,
    r1: Seq<(u64, Seq<char>)>,
    r2: Seq<(u64, Seq<char>)>,
)
    requires
        r1 == d.read_from_spec(c),
        r2 == d.read_from_spec(c),
    ensures
        r1 == r2,
{
}

} // verus!
