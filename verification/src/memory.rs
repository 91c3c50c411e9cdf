//! The guest physical address space: a four-level nested page-table
//! hierarchy translating guest physical pages to host physical frames.

use vstd::prelude::*;
use crate::error::Error;
use crate::frame::{FrameAllocator, HostFrame, PAGE_SIZE};

verus! {

/// A guest physical address.
#[derive(Clone, Copy, Debug, PartialEq, Eq, Structural)]
pub struct GuestPhysAddr {
    addr: u64,
}

impl GuestPhysAddr {
    /// The numeric address.
    pub closed spec fn spec_addr(self) -> u64 {
        self.addr
    }

    pub fn new(addr: u64) -> (r: GuestPhysAddr)
        ensures
            r.spec_addr() == addr,
    {
        GuestPhysAddr { addr }
    }

    pub fn as_u64(&self) -> (r: u64)
        ensures
            r == self.spec_addr(),
    {
        self.addr
    }
}

/// Entries per table: 9 index bits a level.
pub const EPT_TABLE_ENTRIES: usize = 512;

/// The hierarchy is walked from level 4 (the root) down to level 1,
/// whose entries map single pages.
pub const EPT_ROOT_LEVEL: u64 = 4;

/// The mask selecting the page-number bits a four-level walk consumes:
/// bits 12 through 47 of a guest physical address.
pub open spec fn spec_page_number(gpa: u64) -> u64 {
    (gpa >> 12) & 0xf_ffff_ffff
}

/// One entry of a table at some level.
pub enum EptEntry {
    /// Nothing mapped under this entry.
    Vacant,
    /// A lower-level table (levels 4 through 2 only).
    Table(Box<EptTable>),
    /// A mapped host frame (level 1 only).
    Page { frame: u64, writable: bool },
}

/// One table of the hierarchy, backed by one exclusively owned frame.
pub struct EptTable {
    frame: HostFrame,
    entries: Vec<EptEntry>,
}

/// The index a guest physical address selects in a table at `level`.
pub open spec fn spec_table_index(gpa: u64, level: u64) -> u64 {
    (gpa >> ((level - 1) * 9 + 12)) & 0x1ff
}

/// Exec counterpart of `spec_table_index`; always below 512.
pub fn table_index(gpa: u64, level: u64) -> (r: u64)
    requires
        1 <= level <= 4,
    ensures
        r == spec_table_index(gpa, level),
        r < 512,
{
    let shift = (level - 1) * 9 + 12;
    let r = (gpa >> shift) & 0x1ff;
    proof {
        assert((gpa >> shift) & 0x1ff < 512) by (bit_vector);
    }
    r
}

impl EptTable {
    /// The entries, as a sequence.
    pub closed spec fn entries_seq(self) -> Seq<EptEntry> {
        self.entries@
    }

    /// The backing frame.
    pub closed spec fn frame(self) -> HostFrame {
        self.frame
    }

    /// Well-formedness of a table sitting at `level`: 512 entries,
    /// page entries only at level 1, subtables only above it, and every
    /// subtable well formed one level down.
    pub open spec fn wf_at(self, level: nat) -> bool
        decreases level,
    {
        &&& self.frame().wf()
        &&& self.entries_seq().len() == 512
        &&& 1 <= level <= 4
        &&& forall|i: int|
            0 <= i < 512 ==> match #[trigger] self.entries_seq()[i] {
                EptEntry::Vacant => true,
                EptEntry::Page { frame, writable } => level == 1 && frame % PAGE_SIZE == 0,
                EptEntry::Table(sub) => level > 1 && sub.wf_at((level - 1) as nat),
            }
    }
}

/// The table walk: what `gpa` translates to under a table at `level`,
/// `None` when the walk hits a vacant entry.
pub open spec fn translate_at(t: EptTable, level: nat, gpa: u64) -> Option<(u64, bool)>
    decreases level,
{
    if level < 1 {
        None
    } else {
        match t.entries_seq()[spec_table_index(gpa, level as u64) as int] {
            EptEntry::Vacant => None,
            EptEntry::Page { frame, writable } => if level == 1 {
                Some((frame, writable))
            } else {
                None
            },
            EptEntry::Table(sub) => if level > 1 {
                translate_at(*sub, (level - 1) as nat, gpa)
            } else {
                None
            },
        }
    }
}

/// Two addresses that select the same entry at every level from `level`
/// down to 1, and so share one walk.
pub open spec fn same_page_path(a: u64, b: u64, level: nat) -> bool
    decreases level,
{
    level == 0 || (spec_table_index(a, level as u64) == spec_table_index(b, level as u64)
        && same_page_path(a, b, (level - 1) as nat))
}

/// Sharing the whole four-level walk is exactly having the same page
/// number.
pub proof fn lemma_same_page_path_is_same_page(a: u64, b: u64)
    ensures
        same_page_path(a, b, 4) <==> spec_page_number(a) == spec_page_number(b),
{
    reveal_with_fuel(same_page_path, 5);
    assert(((a >> 39) & 0x1ff == (b >> 39) & 0x1ff && (a >> 30) & 0x1ff == (b >> 30) & 0x1ff && (a
        >> 21) & 0x1ff == (b >> 21) & 0x1ff && (a >> 12) & 0x1ff == (b >> 12) & 0x1ff) <==> ((a
        >> 12) & 0xf_ffff_ffff == (b >> 12) & 0xf_ffff_ffff)) by (bit_vector);
}

/// Every frame the hierarchy below an entry owns — backing frames of
/// subtables, and, unless `tables_only`, also the mapped page frames.
pub open spec fn entry_frames(e: EptEntry, sublevel: nat, tables_only: bool) -> Set<u64>
    decreases sublevel, 1nat,
{
    match e {
        EptEntry::Vacant => Set::empty(),
        EptEntry::Page { frame, writable } => if tables_only {
            Set::empty()
        } else {
            set![frame]
        },
        EptEntry::Table(sub) => frames_of_table(*sub, sublevel, tables_only),
    }
}

/// The frames below a sequence of entries, as in `entry_frames`.
pub open spec fn subtable_frames(entries: Seq<EptEntry>, sublevel: nat, tables_only: bool) -> Set<
    u64,
>
    decreases sublevel, entries.len() + 2,
{
    if entries.len() == 0 {
        Set::empty()
    } else {
        subtable_frames(entries.drop_last(), sublevel, tables_only) + entry_frames(
            entries.last(),
            sublevel,
            tables_only,
        )
    }
}

/// The frames of a table at `level`: its own backing frame, its
/// subtables' frames, and, unless `tables_only`, its mapped page frames.
pub open spec fn frames_of_table(t: EptTable, level: nat, tables_only: bool) -> Set<u64>
    decreases level, 0nat,
{
    if level == 0 {
        set![t.frame().addr()]
    } else {
        subtable_frames(t.entries_seq(), (level - 1) as nat, tables_only).insert(t.frame().addr())
    }
}

/// Every frame a table at `level` owns (its own backing frame and those
/// of its subtables) or maps (the frames of its page entries).
pub open spec fn reachable_frames(t: EptTable, level: nat) -> Set<u64> {
    frames_of_table(t, level, false)
}

/// The frames backing the tables of the hierarchy alone, mapped page
/// frames excluded: no address may be both.
pub open spec fn table_backing_frames(t: EptTable, level: nat) -> Set<u64> {
    frames_of_table(t, level, true)
}

/// Each entry's frames are among the sequence's.
proof fn lemma_subtable_frames_member(entries: Seq<EptEntry>, sublevel: nat, i: int, b: bool)
    requires
        0 <= i < entries.len(),
    ensures
        entry_frames(entries[i], sublevel, b) <= subtable_frames(entries, sublevel, b),
    decreases entries.len(),
{
    if i == entries.len() - 1 {
    } else {
        lemma_subtable_frames_member(entries.drop_last(), sublevel, i, b);
    }
}

/// Updating one entry adds at most the new entry's frames.
proof fn lemma_subtable_frames_update(
    entries: Seq<EptEntry>,
    sublevel: nat,
    i: int,
    e: EptEntry,
    b: bool,
)
    requires
        0 <= i < entries.len(),
    ensures
        subtable_frames(entries.update(i, e), sublevel, b) <= subtable_frames(entries, sublevel, b)
            + entry_frames(e, sublevel, b),
    decreases entries.len(),
{
    let updated = entries.update(i, e);
    if i == entries.len() - 1 {
        assert(updated.drop_last() =~= entries.drop_last());
        assert(updated.last() == e);
    } else {
        lemma_subtable_frames_update(entries.drop_last(), sublevel, i, e, b);
        assert(updated.drop_last() =~= entries.drop_last().update(i, e));
        assert(updated.last() == entries.last());
    }
}

/// A sequence of vacant entries reaches no frame.
proof fn lemma_vacant_subtable_frames(entries: Seq<EptEntry>, sublevel: nat, b: bool)
    requires
        forall|i: int| 0 <= i < entries.len() ==> entries[i] is Vacant,
    ensures
        subtable_frames(entries, sublevel, b) =~= Set::empty(),
    decreases entries.len(),
{
    if entries.len() > 0 {
        assert(forall|i: int|
            0 <= i < entries.drop_last().len() ==> #[trigger] entries.drop_last()[i]
                == entries[i]);
        lemma_vacant_subtable_frames(entries.drop_last(), sublevel, b);
        assert(entries.last() is Vacant);
        assert(entry_frames(entries.last(), sublevel, b) =~= Set::empty());
    }
}

impl EptTable {
    /// Makes an empty table in the given backing frame.
    pub fn new(frame: HostFrame) -> (r: EptTable)
        requires
            frame.wf(),
        ensures
            r.frame() == frame,
            forall|i: int| 0 <= i < 512 ==> r.entries_seq()[i] is Vacant,
            forall|l: nat| 1 <= l <= 4 ==> r.wf_at(l),
            forall|l: nat, g: u64| 1 <= l <= 4 ==> translate_at(r, l, g) is None,
            forall|l: nat| 1 <= l <= 4 ==> reachable_frames(r, l) =~= set![frame.addr()],
            forall|l: nat| 1 <= l <= 4 ==> table_backing_frames(r, l) =~= set![frame.addr()],
    {
        let mut entries: Vec<EptEntry> = Vec::new();
        let mut i: usize = 0;
        while i < 512
            invariant
                entries@.len() == i,
                i <= 512,
                forall|j: int| 0 <= j < i ==> entries@[j] is Vacant,
            decreases 512 - i,
        {
            entries.push(EptEntry::Vacant);
            i = i + 1;
        }
        let r = EptTable { frame, entries };
        proof {
            assert forall|l: nat| 1 <= l <= 4 implies reachable_frames(r, l) =~= set![
                frame.addr(),
            ] by {
                lemma_vacant_subtable_frames(r.entries_seq(), (l - 1) as nat, false);
            }
            assert forall|l: nat| 1 <= l <= 4 implies table_backing_frames(r, l) =~= set![
                frame.addr(),
            ] by {
                lemma_vacant_subtable_frames(r.entries_seq(), (l - 1) as nat, true);
            }
            assert forall|l: nat, g: u64| 1 <= l <= 4 implies translate_at(r, l, g) is None by {
                let sh: u64 = (((l as u64) - 1) * 9 + 12) as u64;
                assert((g >> sh) & 0x1ff < 512) by (bit_vector);
                assert(spec_table_index(g, l as u64) == (g >> sh) & 0x1ff);
                assert(r.entries_seq()[spec_table_index(g, l as u64) as int] is Vacant);
            }
        }
        r
    }

    /// The start address of the backing frame.
    pub fn frame_address(&self) -> (r: u64)
        ensures
            r == self.frame().addr(),
    {
        self.frame.start_address()
    }
}

/// Removing an entry and reinserting a replacement at the same position
/// updates just that position.
proof fn lemma_remove_insert(s: Seq<EptEntry>, i: int, v: EptEntry)
    requires
        0 <= i < s.len(),
    ensures
        s.remove(i).insert(i, v) =~= s.update(i, v),
{
    let r = s.remove(i).insert(i, v);
    let u = s.update(i, v);
    assert(r.len() == u.len());
    assert forall|j: int| 0 <= j < u.len() implies r[j] == u[j] by {
        if j < i {
            assert(s.remove(i)[j] == s[j]);
        } else if j > i {
            assert(s.remove(i)[j - 1] == s[j]);
        }
    }
}


/// Every table index is below 512.
pub proof fn lemma_index_range(g: u64, level: u64)
    requires
        1 <= level <= 4,
    ensures
        spec_table_index(g, level) < 512,
{
    let sh = ((level - 1) * 9 + 12) as u64;
    assert((g >> sh) & 0x1ff < 512) by (bit_vector);
}

/// Maps `gpa` to `frame_addr` in the subtree rooted at `t`, which sits
/// at `level`, allocating missing intermediate tables.  On success
/// exactly the walks sharing `gpa`'s path resolve to the new frame and
/// every other walk is untouched; on allocator exhaustion no walk
/// changes at all, though fresh (still empty) intermediate tables may
/// have been attached.
fn map_at<A: FrameAllocator>(
    t: &mut EptTable,
    level: u64,
    alloc: &mut A,
    gpa: u64,
    frame_addr: u64,
    writable: bool,
) -> (r: Result<(), Error>)
    requires
        old(t).wf_at(level as nat),
        1 <= level <= 4,
        old(alloc).wf(),
        frame_addr % PAGE_SIZE == 0,
    ensures
        final(alloc).wf(),
        old(alloc).allocated() <= final(alloc).allocated(),
        final(t).wf_at(level as nat),
        final(t).frame() == old(t).frame(),
        reachable_frames(*final(t), level as nat) <= reachable_frames(*old(t), level as nat)
            + final(alloc).allocated().difference(old(alloc).allocated()) + set![frame_addr],
        table_backing_frames(*final(t), level as nat) <= table_backing_frames(
            *old(t),
            level as nat,
        ) + final(alloc).allocated().difference(old(alloc).allocated()),
        old(alloc).capacity() + 1 >= level ==> r is Ok,
        r is Err ==> final(alloc).capacity() == 0,
        final(alloc).capacity() + level >= old(alloc).capacity() + 1,
        old(t).entries_seq()[spec_table_index(gpa, level) as int] is Vacant && r is Ok ==> old(
            alloc,
        ).capacity() + 1 == final(alloc).capacity() + level,
        match r {
            Ok(()) => forall|g: u64|
                #[trigger] translate_at(*final(t), level as nat, g) == (if same_page_path(
                    g,
                    gpa,
                    level as nat,
                ) {
                    Some((frame_addr, writable))
                } else {
                    translate_at(*old(t), level as nat, g)
                }),
            Err(e) => e matches Error::AllocError(_) && forall|g: u64|
                #[trigger] translate_at(*final(t), level as nat, g) == translate_at(
                    *old(t),
                    level as nat,
                    g,
                ),
        },
    decreases level,
{
    let ghost l = level as nat;
    let ghost old_entries = t.entries@;
    let idx = table_index(gpa, level) as usize;
    if level == 1 {
        let new_entry = EptEntry::Page { frame: frame_addr, writable };
        let _old_entry = t.entries.remove(idx);
        t.entries.insert(idx, new_entry);
        proof {
            lemma_remove_insert(old_entries, idx as int, new_entry);
            assert(t.entries@ =~= old_entries.update(idx as int, new_entry));
            lemma_subtable_frames_update(old_entries, (l - 1) as nat, idx as int, new_entry, false);
            lemma_subtable_frames_update(old_entries, (l - 1) as nat, idx as int, new_entry, true);
            assert(t.wf_at(l));
            assert forall|g: u64|
                #[trigger] translate_at(*t, l, g) == (if same_page_path(g, gpa, l) {
                    Some((frame_addr, writable))
                } else {
                    translate_at(*old(t), l, g)
                }) by {
                reveal_with_fuel(same_page_path, 3);
                lemma_index_range(g, level);
            }
        }
        Ok(())
    } else {
        let entry = t.entries.remove(idx);
        match entry {
            EptEntry::Table(sub) => {
                proof {
                    assert(old_entries[idx as int] == EptEntry::Table(sub));
                    assert(sub.wf_at((l - 1) as nat));
                }
                let ghost old_sub = *sub;
                let mut subt: EptTable = *sub;
                let r = map_at(&mut subt, level - 1, alloc, gpa, frame_addr, writable);
                let new_entry = EptEntry::Table(Box::new(subt));
                t.entries.insert(idx, new_entry);
                proof {
                    lemma_remove_insert(old_entries, idx as int, new_entry);
                    assert(t.entries@ =~= old_entries.update(idx as int, new_entry));
                    lemma_subtable_frames_update(
                        old_entries,
                        (l - 1) as nat,
                        idx as int,
                        new_entry,
                        false,
                    );
                    lemma_subtable_frames_member(old_entries, (l - 1) as nat, idx as int, false);
                    lemma_subtable_frames_update(
                        old_entries,
                        (l - 1) as nat,
                        idx as int,
                        new_entry,
                        true,
                    );
                    lemma_subtable_frames_member(old_entries, (l - 1) as nat, idx as int, true);
                    assert(t.wf_at(l));
                    assert(reachable_frames(*t, l) <= reachable_frames(*old(t), l)
                        + final(alloc).allocated().difference(old(alloc).allocated()) + set![
                        frame_addr,
                    ]);
                    assert(table_backing_frames(*t, l) <= table_backing_frames(*old(t), l)
                        + final(alloc).allocated().difference(old(alloc).allocated()));
                    assert forall|g: u64|
                        #[trigger] translate_at(*t, l, g) == (if r is Ok && same_page_path(
                            g,
                            gpa,
                            l,
                        ) {
                            Some((frame_addr, writable))
                        } else {
                            translate_at(*old(t), l, g)
                        }) by {
                        lemma_index_range(g, level);
                        let gi = spec_table_index(g, level);
                        if gi == idx as u64 {
                            assert(translate_at(*t, l, g) == translate_at(subt, (l - 1) as nat, g));
                            assert(translate_at(*old(t), l, g) == translate_at(
                                old_sub,
                                (l - 1) as nat,
                                g,
                            ));
                        }
                    }
                }
                r
            },
            EptEntry::Vacant => {
                proof {
                    assert(old_entries[idx as int] == EptEntry::Vacant);
                }
                let sub_frame = match alloc.allocate_frame() {
                    Some(f) => f,
                    None => {
                        t.entries.insert(idx, EptEntry::Vacant);
                        proof {
                            lemma_remove_insert(old_entries, idx as int, EptEntry::Vacant);
                            assert(t.entries@ =~= old_entries.update(idx as int, EptEntry::Vacant));
                            assert(t.entries@ =~= old_entries);
                        }
                        return Err(Error::AllocError("failed to allocate a page-table frame"));
                    },
                };
                let mut subt = EptTable::new(sub_frame);
                let ghost fresh_sub = subt;
                let r = map_at(&mut subt, level - 1, alloc, gpa, frame_addr, writable);
                let new_entry = EptEntry::Table(Box::new(subt));
                t.entries.insert(idx, new_entry);
                proof {
                    lemma_remove_insert(old_entries, idx as int, new_entry);
                    assert(t.entries@ =~= old_entries.update(idx as int, new_entry));
                    lemma_subtable_frames_update(
                        old_entries,
                        (l - 1) as nat,
                        idx as int,
                        new_entry,
                        false,
                    );
                    lemma_subtable_frames_update(
                        old_entries,
                        (l - 1) as nat,
                        idx as int,
                        new_entry,
                        true,
                    );
                    assert(t.wf_at(l));
                    assert(reachable_frames(fresh_sub, (l - 1) as nat) =~= set![sub_frame.addr()]);
                    assert(table_backing_frames(fresh_sub, (l - 1) as nat) =~= set![
                        sub_frame.addr(),
                    ]);
                    if level >= 2 {
                        lemma_index_range(gpa, (level - 1) as u64);
                    }
                    assert forall|a: u64| reachable_frames(*t, l).contains(a) implies (
                    reachable_frames(*old(t), l) + final(alloc).allocated().difference(
                        old(alloc).allocated(),
                    ) + set![frame_addr]).contains(a) by {
                        if !reachable_frames(*old(t), l).contains(a) && a != frame_addr {
                            assert(reachable_frames(subt, (l - 1) as nat).contains(a));
                        }
                    }
                    assert forall|a: u64| table_backing_frames(*t, l).contains(a) implies (
                    table_backing_frames(*old(t), l) + final(alloc).allocated().difference(
                        old(alloc).allocated(),
                    )).contains(a) by {
                        if !table_backing_frames(*old(t), l).contains(a) {
                            assert(table_backing_frames(subt, (l - 1) as nat).contains(a));
                        }
                    }
                    assert forall|g: u64|
                        #[trigger] translate_at(*t, l, g) == (if r is Ok && same_page_path(
                            g,
                            gpa,
                            l,
                        ) {
                            Some((frame_addr, writable))
                        } else {
                            translate_at(*old(t), l, g)
                        }) by {
                        lemma_index_range(g, level);
                        let gi = spec_table_index(g, level);
                        if gi == idx as u64 {
                            assert(translate_at(*t, l, g) == translate_at(subt, (l - 1) as nat, g));
                            assert(translate_at(*old(t), l, g) is None);
                            assert(translate_at(fresh_sub, (l - 1) as nat, g) is None);
                        }
                    }
                }
                r
            },
            EptEntry::Page { .. } => {
                proof {
                    assert(old_entries[idx as int] == entry);
                    assert(false);
                }
                t.entries.insert(idx, entry);
                Err(Error::AllocError("unreachable"))
            },
        }
    }
}

/// Extends the hierarchy rooted at `ept` so that the page containing
/// `gpa` translates to the host frame `frame`: afterwards exactly the
/// addresses with `gpa`'s page number resolve to `(frame, writable)` and
/// every other address translates as before.  On allocator exhaustion an
/// allocation error is returned and no translation has changed.
pub fn map_guest_memory<A: FrameAllocator>(
    alloc: &mut A,
    ept: &mut EptTable,
    gpa: GuestPhysAddr,
    frame: HostFrame,
    writable: bool,
) -> (r: Result<(), Error>)
    requires
        old(ept).wf_at(4),
        old(alloc).wf(),
        frame.wf(),
    ensures
        final(alloc).wf(),
        old(alloc).allocated() <= final(alloc).allocated(),
        final(ept).wf_at(4),
        final(ept).frame() == old(ept).frame(),
        reachable_frames(*final(ept), 4) <= reachable_frames(*old(ept), 4)
            + final(alloc).allocated().difference(old(alloc).allocated()) + set![frame.addr()],
        table_backing_frames(*final(ept), 4) <= table_backing_frames(*old(ept), 4)
            + final(alloc).allocated().difference(old(alloc).allocated()),
        old(alloc).capacity() >= 3 ==> r is Ok,
        r is Err ==> final(alloc).capacity() == 0,
        final(alloc).capacity() + 3 >= old(alloc).capacity(),
        old(ept).entries_seq()[spec_table_index(gpa.spec_addr(), 4) as int] is Vacant && r is Ok
            ==> old(alloc).capacity() == final(alloc).capacity() + 3,
        match r {
            Ok(()) => forall|g: u64|
                #[trigger] translate_at(*final(ept), 4, g) == (if spec_page_number(g)
                    == spec_page_number(gpa.spec_addr()) {
                    Some((frame.addr(), writable))
                } else {
                    translate_at(*old(ept), 4, g)
                }),
            Err(e) => e matches Error::AllocError(_) && forall|g: u64|
                #[trigger] translate_at(*final(ept), 4, g) == translate_at(*old(ept), 4, g),
        },
{
    let r = map_at(ept, EPT_ROOT_LEVEL, alloc, gpa.as_u64(), frame.start_address(), writable);
    proof {
        if r is Ok {
            assert forall|g: u64|
                #[trigger] translate_at(*ept, 4, g) == (if spec_page_number(g) == spec_page_number(
                    gpa.spec_addr(),
                ) {
                    Some((frame.addr(), writable))
                } else {
                    translate_at(*old(ept), 4, g)
                }) by {
                lemma_same_page_path_is_same_page(g, gpa.spec_addr());
            }
        }
    }
    r
}

impl EptTable {
    /// Walks the subtree rooted at this table, sitting at `level`, for
    /// `gpa`.
    fn translate_from(&self, level: u64, gpa: u64) -> (r: Option<(u64, bool)>)
        requires
            self.wf_at(level as nat),
            1 <= level <= 4,
        ensures
            r == translate_at(*self, level as nat, gpa),
        decreases level,
    {
        let idx = table_index(gpa, level) as usize;
        match &self.entries[idx] {
            EptEntry::Vacant => None,
            EptEntry::Page { frame, writable } => if level == 1 {
                Some((*frame, *writable))
            } else {
                None
            },
            EptEntry::Table(sub) => if level > 1 {
                sub.translate_from(level - 1, gpa)
            } else {
                None
            },
        }
    }

    /// The full four-level table walk: the host frame and writability
    /// the hierarchy maps `gpa`'s page to, or `None` where the page was
    /// never mapped.
    pub fn translate(&self, gpa: GuestPhysAddr) -> (r: Option<(u64, bool)>)
        requires
            self.wf_at(4),
        ensures
            r == translate_at(*self, 4, gpa.spec_addr()),
    {
        self.translate_from(EPT_ROOT_LEVEL, gpa.as_u64())
    }
}



/// A mapping step: the next table resolves the mapped page to the given
/// frame and leaves every other walk as the table before it, which is
/// what `map_guest_memory` ensures of each successful call.
pub open spec fn mapping_step(before: EptTable, after: EptTable, m: (u64, u64, bool)) -> bool {
    forall|g: u64|
        #[trigger] translate_at(after, 4, g) == (if spec_page_number(g) == spec_page_number(m.0) {
            Some((m.1, m.2))
        } else {
            translate_at(before, 4, g)
        })
}

/// Any sequence of mappings with pairwise distinct guest pages, applied
/// to an initially empty space, resolves every mapped address to exactly
/// its frame, and every address whose page was never mapped to nothing.
/// `tables[0]` is the empty space and `tables[i + 1]` the space after
/// the first `i + 1` mappings.
pub proof fn lemma_mapping_sequence_resolves(
    tables: Seq<EptTable>,
    mappings: Seq<(u64, u64, bool)>,
)
    requires
        tables.len() == mappings.len() + 1,
        forall|g: u64| translate_at(tables[0], 4, g) is None,
        forall|i: int|
            0 <= i < mappings.len() ==> mapping_step(tables[i], tables[i + 1], mappings[i]),
        forall|i: int, j: int|
            0 <= i < j < mappings.len() ==> spec_page_number(mappings[i].0) != spec_page_number(
                mappings[j].0,
            ),
    ensures
        forall|i: int|
            0 <= i < mappings.len() ==> #[trigger] translate_at(tables.last(), 4, mappings[i].0)
                == Some((mappings[i].1, mappings[i].2)),
        forall|g: u64|
            (forall|i: int|
                0 <= i < mappings.len() ==> spec_page_number(g) != spec_page_number(
                    #[trigger] mappings[i].0,
                )) ==> #[trigger] translate_at(tables.last(), 4, g) is None,
    decreases mappings.len(),
{
    if mappings.len() == 0 {
    } else {
        let n = mappings.len() as int;
        let prefix_tables = tables.drop_last();
        let prefix = mappings.drop_last();
        assert forall|i: int|
            0 <= i < prefix.len() implies mapping_step(
            prefix_tables[i],
            prefix_tables[i + 1],
            prefix[i],
        ) by {
            assert(prefix_tables[i] == tables[i]);
            assert(prefix_tables[i + 1] == tables[i + 1]);
            assert(prefix[i] == mappings[i]);
        }
        lemma_mapping_sequence_resolves(prefix_tables, prefix);
        let last_step = mappings[n - 1];
        assert(mapping_step(tables[n - 1], tables[n], last_step));
        assert(prefix_tables.last() == tables[n - 1]);
        assert forall|i: int|
            0 <= i < n implies #[trigger] translate_at(tables.last(), 4, mappings[i].0) == Some(
            (mappings[i].1, mappings[i].2),
        ) by {
            if i < n - 1 {
                assert(spec_page_number(mappings[i].0) != spec_page_number(last_step.0));
                assert(translate_at(prefix_tables.last(), 4, prefix[i].0) == Some(
                    (prefix[i].1, prefix[i].2),
                ));
            }
        }
        assert forall|g: u64|
            (forall|i: int|
                0 <= i < n ==> spec_page_number(g) != spec_page_number(
                    #[trigger] mappings[i].0,
                )) implies #[trigger] translate_at(tables.last(), 4, g) is None by {
            assert forall|i: int|
                0 <= i < prefix.len() implies spec_page_number(g) != spec_page_number(
                #[trigger] prefix[i].0,
            ) by {
                assert(prefix[i] == mappings[i]);
            }
            assert(translate_at(prefix_tables.last(), 4, g) is None);
        }
    }
}


} // verus!
