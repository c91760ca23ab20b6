use vstd::prelude::*;

verus! {

pub const BROADCAST: u8 = 0x01;
pub const READ: u8 = 0x02;
pub const WRITE_WITHOUT_RESPONSE: u8 = 0x04;
pub const WRITE: u8 = 0x08;
pub const NOTIFY: u8 = 0x10;
pub const INDICATE: u8 = 0x20;
pub const AUTHENTICATED_SIGNED_WRITES: u8 = 0x40;
pub const EXTENDED_PROPERTIES: u8 = 0x80;

/// The property bits of a characteristic declaration.
#[derive(Clone, Copy, Debug, PartialEq, Eq, Structural)]
pub struct CharPropFlags {
    pub bits: u8,
}

impl CharPropFlags {
    pub open spec fn has(self, flag: u8) -> bool {
        self.bits & flag == flag
    }

    /// Whether every bit of `flag` is set.
    pub fn contains(&self, flag: u8) -> (r: bool)
        ensures
            r == self.has(flag),
    {
        self.bits & flag == flag
    }
}

/// A characteristic's UUID, in its short or its full form.
#[derive(Clone, Copy, Debug, PartialEq, Eq, Structural)]
pub enum Uuid {
    B16(u16),
    B128(u128),
}

/// A characteristic of a remote device, with the attribute handles it spans.
#[derive(Clone, Copy, Debug, PartialEq, Eq, Structural)]
pub struct Characteristic {
    pub start_handle: u16,
    pub end_handle: u16,
    pub value_handle: u16,
    pub uuid: Uuid,
    pub properties: CharPropFlags,
}

/// Start handles strictly ascending: the form of a characteristic catalog.
pub open spec fn sorted_by_start(s: Seq<Characteristic>) -> bool {
    forall|i: int, j: int| 0 <= i < j < s.len() ==> s[i].start_handle < s[j].start_handle
}

/// The index at which a declaration starting at `k` belongs: the length of
/// the longest prefix whose last entry starts below `k`.
pub open spec fn insert_pos(s: Seq<Characteristic>, k: u16) -> int
    decreases s.len(),
{
    if s.len() == 0 {
        0
    } else if s.last().start_handle < k {
        s.len() as int
    } else {
        insert_pos(s.drop_last(), k)
    }
}

/// `s` with `c` added at its place, unless an entry already starts where `c` does.
pub open spec fn insert_one(s: Seq<Characteristic>, c: Characteristic) -> Seq<Characteristic> {
    let p = insert_pos(s, c.start_handle);
    if p < s.len() && s[p].start_handle == c.start_handle {
        s
    } else {
        s.insert(p, c)
    }
}

/// `s` with each of `d` added in turn.
pub open spec fn insert_all(s: Seq<Characteristic>, d: Seq<Characteristic>) -> Seq<Characteristic>
    decreases d.len(),
{
    if d.len() == 0 {
        s
    } else {
        insert_one(insert_all(s, d.drop_last()), d.last())
    }
}

/// The end handle that entry `i` of `s` gets: one below the next entry's
/// start, or `end` for the last entry.
pub open spec fn fixed_end(s: Seq<Characteristic>, i: int, end: u16) -> u16 {
    if i + 1 < s.len() {
        (s[i + 1].start_handle - 1) as u16
    } else {
        end
    }
}

/// `s` with every end handle rewritten so that the ranges neither overlap
/// nor leave gaps.
pub open spec fn fix_ends(s: Seq<Characteristic>, end: u16) -> Seq<Characteristic> {
    Seq::new(s.len(), |i: int| Characteristic { end_handle: fixed_end(s, i, end), ..s[i] })
}

/// The catalog after one discovery response over a range ending at `end`.
pub open spec fn merged(s: Seq<Characteristic>, d: Seq<Characteristic>, end: u16) -> Seq<Characteristic> {
    fix_ends(insert_all(s, d), end)
}


/// Adds `c` to the catalog at its place by start handle, unless an entry
/// already starts there.
pub fn insert_characteristic(v: &mut Vec<Characteristic>, c: Characteristic)
    ensures
        final(v)@ == insert_one(old(v)@, c),
{
    let ghost s = old(v)@;
    let mut i: usize = v.len();
    assert(s.subrange(0, s.len() as int) =~= s);
    while i > 0 && v[i - 1].start_handle >= c.start_handle
        invariant
            i <= v@.len(),
            v@ == s,
            insert_pos(s, c.start_handle) == insert_pos(s.subrange(0, i as int), c.start_handle),
        decreases i,
    {
        assert(s.subrange(0, i as int).drop_last() =~= s.subrange(0, i - 1));
        i = i - 1;
    }
    assert(insert_pos(s, c.start_handle) == i);
    if i < v.len() && v[i].start_handle == c.start_handle {
        return;
    }
    v.insert(i, c);
}

/// Rewrites every end handle: one below the next entry's start, `end` for
/// the last entry.
pub fn fix_end_handles(v: &mut Vec<Characteristic>, end: u16)
    requires
        sorted_by_start(old(v)@),
    ensures
        final(v)@ == fix_ends(old(v)@, end),
{
    let ghost s = old(v)@;
    let n = v.len();
    let mut i: usize = 0;
    while i < n
        invariant
            n == s.len(),
            v@.len() == n,
            i <= n,
            sorted_by_start(s),
            forall|j: int| 0 <= j < i ==> v@[j] == fix_ends(s, end)[j],
            forall|j: int| i <= j < n ==> v@[j] == s[j],
        decreases n - i,
    {
        let new_end = if i + 1 < n {
            assert(s[i as int].start_handle < s[i + 1].start_handle);
            v[i + 1].start_handle - 1
        } else {
            end
        };
        let old_c = v[i];
        v.set(i, Characteristic { end_handle: new_end, ..old_c });
        i = i + 1;
    }
    assert(v@ =~= fix_ends(s, end));
}


/// Whether some entry of `s` starts at `k`.
pub open spec fn has_start(s: Seq<Characteristic>, k: u16) -> bool {
    exists|i: int| 0 <= i < s.len() && s[i].start_handle == k
}

proof fn lemma_insert_pos(s: Seq<Characteristic>, k: u16)
    requires
        sorted_by_start(s),
    ensures
        0 <= insert_pos(s, k) <= s.len(),
        forall|j: int| 0 <= j < insert_pos(s, k) ==> s[j].start_handle < k,
        forall|j: int| insert_pos(s, k) <= j < s.len() ==> s[j].start_handle >= k,
    decreases s.len(),
{
    if s.len() > 0 {
        let t = s.drop_last();
        if s.last().start_handle >= k {
            assert(sorted_by_start(t));
            lemma_insert_pos(t, k);
            assert forall|j: int| insert_pos(s, k) <= j < s.len() implies s[j].start_handle >= k by {
                if j < s.len() - 1 {
                    assert(t[j] == s[j]);
                }
            }
            assert forall|j: int| 0 <= j < insert_pos(s, k) implies s[j].start_handle < k by {
                assert(t[j] == s[j]);
            }
        } else {
            assert forall|j: int| 0 <= j < insert_pos(s, k) implies s[j].start_handle < k by {
                if j < s.len() - 1 {
                    assert(s[j].start_handle < s[s.len() - 1].start_handle);
                }
            }
        }
    }
}

proof fn lemma_insert_one(s: Seq<Characteristic>, c: Characteristic)
    requires
        sorted_by_start(s),
    ensures
        sorted_by_start(insert_one(s, c)),
        has_start(insert_one(s, c), c.start_handle),
        forall|k: u16| has_start(s, k) ==> has_start(insert_one(s, c), k),
        has_start(s, c.start_handle) ==> insert_one(s, c) == s,
{
    lemma_insert_pos(s, c.start_handle);
    let p = insert_pos(s, c.start_handle);
    let r = insert_one(s, c);
    if p < s.len() && s[p].start_handle == c.start_handle {
    } else {
        assert forall|k: u16| has_start(s, k) implies has_start(r, k) by {
            let i = choose|i: int| 0 <= i < s.len() && s[i].start_handle == k;
            if i < p {
                assert(r[i] == s[i]);
            } else {
                assert(r[i + 1] == s[i]);
            }
        }
        assert(r[p] == c);
        if has_start(s, c.start_handle) {
            let i = choose|i: int| 0 <= i < s.len() && s[i].start_handle == c.start_handle;
            assert(false);
        }
    }
}

proof fn lemma_insert_all(s: Seq<Characteristic>, d: Seq<Characteristic>)
    requires
        sorted_by_start(s),
    ensures
        sorted_by_start(insert_all(s, d)),
        forall|j: int| 0 <= j < d.len() ==> has_start(insert_all(s, d), #[trigger] d[j].start_handle),
        forall|k: u16| has_start(s, k) ==> has_start(insert_all(s, d), k),
        (forall|j: int| 0 <= j < d.len() ==> has_start(s, #[trigger] d[j].start_handle))
            ==> insert_all(s, d) == s,
    decreases d.len(),
{
    if d.len() > 0 {
        let pre = d.drop_last();
        lemma_insert_all(s, pre);
        lemma_insert_one(insert_all(s, pre), d.last());
        assert forall|j: int| 0 <= j < d.len() implies has_start(
            insert_all(s, d),
            #[trigger] d[j].start_handle,
        ) by {
            if j < d.len() - 1 {
                assert(pre[j] == d[j]);
            }
        }
        if forall|j: int| 0 <= j < d.len() ==> has_start(s, #[trigger] d[j].start_handle) {
            assert forall|j: int| 0 <= j < pre.len() implies has_start(
                s,
                #[trigger] pre[j].start_handle,
            ) by {
                assert(pre[j] == d[j]);
            }
            assert(has_start(s, d[d.len() - 1].start_handle));
        }
    }
}

proof fn lemma_fix_ends(s: Seq<Characteristic>, end: u16)
    requires
        sorted_by_start(s),
    ensures
        sorted_by_start(fix_ends(s, end)),
        forall|k: u16| has_start(s, k) ==> has_start(fix_ends(s, end), k),
        fix_ends(fix_ends(s, end), end) == fix_ends(s, end),
{
    let f = fix_ends(s, end);
    assert forall|k: u16| has_start(s, k) implies has_start(f, k) by {
        let i = choose|i: int| 0 <= i < s.len() && s[i].start_handle == k;
        assert(f[i].start_handle == k);
    }
    assert(fix_ends(f, end) =~= f);
}

/// Merging the same discovery response a second time changes nothing: the
/// catalog holds no two entries with the same start handle and its end
/// handles are already in place.
pub proof fn lemma_merge_idempotent(s: Seq<Characteristic>, d: Seq<Characteristic>, end: u16)
    requires
        sorted_by_start(s),
    ensures
        sorted_by_start(merged(s, d, end)),
        merged(merged(s, d, end), d, end) == merged(s, d, end),
{
    let m0 = insert_all(s, d);
    lemma_insert_all(s, d);
    lemma_fix_ends(m0, end);
    let m = fix_ends(m0, end);
    lemma_insert_all(m, d);
    assert forall|j: int| 0 <= j < d.len() implies has_start(m, #[trigger] d[j].start_handle) by {
        assert(has_start(m0, d[j].start_handle));
    }
}

/// The catalog after the answers `ds` of one discovery run over a range
/// ending at `end` were merged in turn.
pub open spec fn run_merged(s: Seq<Characteristic>, ds: Seq<Seq<Characteristic>>, end: u16) -> Seq<Characteristic>
    decreases ds.len(),
{
    if ds.len() == 0 {
        s
    } else {
        merged(run_merged(s, ds.drop_last(), end), ds.last(), end)
    }
}

proof fn lemma_run_keeps(s: Seq<Characteristic>, ds: Seq<Seq<Characteristic>>, end: u16)
    requires
        sorted_by_start(s),
    ensures
        sorted_by_start(run_merged(s, ds, end)),
        forall|k: u16| has_start(s, k) ==> has_start(run_merged(s, ds, end), k),
        forall|i: int, j: int|
            0 <= i < ds.len() && 0 <= j < ds[i].len() ==> has_start(
                run_merged(s, ds, end),
                #[trigger] ds[i][j].start_handle,
            ),
        ds.len() > 0 ==> fix_ends(run_merged(s, ds, end), end) == run_merged(s, ds, end),
    decreases ds.len(),
{
    if ds.len() > 0 {
        let pre = ds.drop_last();
        let m = run_merged(s, pre, end);
        lemma_run_keeps(s, pre, end);
        lemma_insert_all(m, ds.last());
        lemma_fix_ends(insert_all(m, ds.last()), end);
        assert forall|i: int, j: int|
            0 <= i < ds.len() && 0 <= j < ds[i].len() implies has_start(
                run_merged(s, ds, end),
                #[trigger] ds[i][j].start_handle,
            ) by {
            if i < ds.len() - 1 {
                assert(pre[i] == ds[i]);
                assert(has_start(m, pre[i][j].start_handle));
            } else {
                assert(has_start(insert_all(m, ds.last()), ds.last()[j].start_handle));
            }
        }
    }
}

proof fn lemma_run_settled(m: Seq<Characteristic>, ds: Seq<Seq<Characteristic>>, end: u16)
    requires
        sorted_by_start(m),
        fix_ends(m, end) == m,
        forall|i: int, j: int|
            0 <= i < ds.len() && 0 <= j < ds[i].len() ==> has_start(m, #[trigger] ds[i][j].start_handle),
    ensures
        run_merged(m, ds, end) == m,
    decreases ds.len(),
{
    if ds.len() > 0 {
        let pre = ds.drop_last();
        assert forall|i: int, j: int|
            0 <= i < pre.len() && 0 <= j < pre[i].len() implies has_start(
                m,
                #[trigger] pre[i][j].start_handle,
            ) by {
            assert(pre[i] == ds[i]);
        }
        lemma_run_settled(m, pre, end);
        let d = ds.last();
        assert forall|j: int| 0 <= j < d.len() implies has_start(m, #[trigger] d[j].start_handle) by {
            assert(ds[ds.len() - 1][j] == d[j]);
        }
        lemma_insert_all(m, d);
    }
}

/// Running a whole discovery a second time over the same answers changes
/// nothing: the same entries, with the same end handles, and no entry added.
pub proof fn lemma_run_idempotent(s: Seq<Characteristic>, ds: Seq<Seq<Characteristic>>, end: u16)
    requires
        sorted_by_start(s),
        ds.len() > 0,
    ensures
        run_merged(run_merged(s, ds, end), ds, end) == run_merged(s, ds, end),
{
    lemma_run_keeps(s, ds, end);
    lemma_run_settled(run_merged(s, ds, end), ds, end);
}

/// After a discovery answer, the catalog holds one entry for each start
/// handle that it held before or that the answer reported, and no other.
pub proof fn lemma_merged_starts(s: Seq<Characteristic>, d: Seq<Characteristic>, end: u16, k: u16)
    requires
        sorted_by_start(s),
    ensures
        has_start(merged(s, d, end), k) <==> (has_start(s, k) || exists|j: int|
            0 <= j < d.len() && (#[trigger] d[j]).start_handle == k),
        forall|i: int, j: int|
            0 <= i < j < merged(s, d, end).len() ==> merged(s, d, end)[i].start_handle
                != merged(s, d, end)[j].start_handle,
{
    lemma_insert_all(s, d);
    lemma_fix_ends(insert_all(s, d), end);
    lemma_insert_all_only(s, d, k);
    let m = insert_all(s, d);
    if has_start(m, k) {
        let i = choose|i: int| 0 <= i < m.len() && m[i].start_handle == k;
        assert(merged(s, d, end)[i].start_handle == k);
    }
    if has_start(merged(s, d, end), k) {
        let i = choose|i: int| 0 <= i < merged(s, d, end).len() && merged(s, d, end)[i].start_handle == k;
        assert(m[i].start_handle == k);
    }
    if exists|j: int| 0 <= j < d.len() && (#[trigger] d[j]).start_handle == k {
        let j = choose|j: int| 0 <= j < d.len() && (#[trigger] d[j]).start_handle == k;
        assert(has_start(m, d[j].start_handle));
    }
}

proof fn lemma_insert_pos_bounds(s: Seq<Characteristic>, k: u16)
    ensures
        0 <= insert_pos(s, k) <= s.len(),
    decreases s.len(),
{
    if s.len() > 0 && s.last().start_handle >= k {
        lemma_insert_pos_bounds(s.drop_last(), k);
    }
}

proof fn lemma_insert_all_only(s: Seq<Characteristic>, d: Seq<Characteristic>, k: u16)
    ensures
        has_start(insert_all(s, d), k) ==> (has_start(s, k) || exists|j: int|
            0 <= j < d.len() && (#[trigger] d[j]).start_handle == k),
    decreases d.len(),
{
    if d.len() > 0 {
        let pre = d.drop_last();
        let m = insert_all(s, pre);
        lemma_insert_all_only(s, pre, k);
        let c = d.last();
        let r = insert_one(m, c);
        if has_start(r, k) {
            let i = choose|i: int| 0 <= i < r.len() && r[i].start_handle == k;
            let p = insert_pos(m, c.start_handle);
            lemma_insert_pos_bounds(m, c.start_handle);
            if p < m.len() && m[p].start_handle == c.start_handle {
                assert(has_start(m, k));
            } else if i == p {
                assert(d[d.len() - 1].start_handle == k);
            } else if i < p {
                assert(m[i].start_handle == k);
            } else {
                assert(m[i - 1].start_handle == k);
            }
            if has_start(m, k) && !has_start(s, k) {
                let j = choose|j: int| 0 <= j < pre.len() && (#[trigger] pre[j]).start_handle == k;
                assert(d[j] == pre[j]);
            }
        }
    }
}

/// Whether some answer of `ds` reported a declaration starting at `k`.
pub open spec fn reported(ds: Seq<Seq<Characteristic>>, k: u16) -> bool {
    exists|i: int, j: int| 0 <= i < ds.len() && 0 <= j < ds[i].len() && (#[trigger] ds[i][j]).start_handle == k
}

/// Over a whole discovery run, the catalog holds one entry for each start
/// handle that it held before or that some answer reported, and no other.
pub proof fn lemma_run_starts(s: Seq<Characteristic>, ds: Seq<Seq<Characteristic>>, end: u16, k: u16)
    requires
        sorted_by_start(s),
    ensures
        has_start(run_merged(s, ds, end), k) <==> (has_start(s, k) || reported(ds, k)),
        forall|i: int, j: int|
            0 <= i < j < run_merged(s, ds, end).len() ==> run_merged(s, ds, end)[i].start_handle
                != run_merged(s, ds, end)[j].start_handle,
    decreases ds.len(),
{
    lemma_run_keeps(s, ds, end);
    if ds.len() > 0 {
        let pre = ds.drop_last();
        lemma_run_keeps(s, pre, end);
        lemma_run_starts(s, pre, end, k);
        let m = run_merged(s, pre, end);
        lemma_merged_starts(m, ds.last(), end, k);
        if reported(pre, k) {
            let (i, j) = choose|i: int, j: int| 0 <= i < pre.len() && 0 <= j < pre[i].len() && (#[trigger] pre[i][j]).start_handle == k;
            assert(ds[i][j] == pre[i][j]);
        }
        if reported(ds, k) && !reported(pre, k) {
            let (i, j) = choose|i: int, j: int| 0 <= i < ds.len() && 0 <= j < ds[i].len() && (#[trigger] ds[i][j]).start_handle == k;
            if i < ds.len() - 1 {
                assert(pre[i][j] == ds[i][j]);
            }
            assert(ds.last()[j] == ds[i][j]);
        }
        if exists|j: int| 0 <= j < ds.last().len() && (#[trigger] ds.last()[j]).start_handle == k {
            let j = choose|j: int| 0 <= j < ds.last().len() && (#[trigger] ds.last()[j]).start_handle == k;
            assert(ds[ds.len() - 1][j] == ds.last()[j]);
        }
    }
}

/// Where discovery goes on after a response: just past the last declaration
/// returned, while that lies below `end`.
pub open spec fn next_start(d: Seq<Characteristic>, end: u16) -> Option<u16> {
    if d.len() > 0 && d.last().start_handle < end {
        Some((d.last().start_handle + 1) as u16)
    } else {
        None
    }
}

/// Merges the declarations of one discovery response over a range ending at
/// `end` into the catalog, and returns the start of the range still to be
/// asked for, if any.
pub fn apply_discovered(chars: &mut Vec<Characteristic>, decls: &Vec<Characteristic>, end: u16) -> (r: Option<u16>)
    requires
        sorted_by_start(old(chars)@),
    ensures
        final(chars)@ == merged(old(chars)@, decls@, end),
        sorted_by_start(final(chars)@),
        r == next_start(decls@, end),
{
    let ghost s = old(chars)@;
    let mut i: usize = 0;
    while i < decls.len()
        invariant
            i <= decls@.len(),
            chars@ == insert_all(s, decls@.subrange(0, i as int)),
            sorted_by_start(chars@),
        decreases decls@.len() - i,
    {
        assert(decls@.subrange(0, i + 1).drop_last() =~= decls@.subrange(0, i as int));
        proof {
            lemma_insert_one(chars@, decls@[i as int]);
        }
        insert_characteristic(chars, decls[i]);
        i = i + 1;
    }
    assert(decls@.subrange(0, decls@.len() as int) =~= decls@);
    proof {
        lemma_fix_ends(chars@, end);
    }
    fix_end_handles(chars, end);
    if decls.len() > 0 && decls[decls.len() - 1].start_handle < end {
        Some(decls[decls.len() - 1].start_handle + 1)
    } else {
        None
    }
}

} // verus!
