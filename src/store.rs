//! A snapshot of the records that the store holds locally, and the queries the
//! rules and the revision views make of it.
use vstd::prelude::*;
use crate::types::{ActionKind, HashedAction, Link, LinkType, Record};

verus! {

/// The first record at or after position `i` whose hash is `h`.
pub open spec fn find_from(s: Seq<Record>, h: u64, i: int) -> Option<Record>
    decreases s.len() - i,
{
    if i < 0 || i >= s.len() {
        None
    } else if s[i].hash == h {
        Some(s[i])
    } else {
        find_from(s, h, i + 1)
    }
}

/// The record of hash `h` in `s`: the first one, should several share it.
pub open spec fn lookup(s: Seq<Record>, h: u64) -> Option<Record> {
    find_from(s, h, 0)
}

/// Whether record `r` deletes the link created by action `h`.
pub open spec fn deletes_link(r: Record, h: u64) -> bool {
    r.action.kind matches ActionKind::DeleteLink { link_add_address, .. } && link_add_address == h
}

/// Whether some record of `s` deletes the link created by action `h`.
pub open spec fn link_deleted(s: Seq<Record>, h: u64) -> bool {
    exists|j: int| 0 <= j < s.len() && #[trigger] deletes_link(s[j], h)
}

/// Whether record `r` creates a link of type `t` from `base` that no record of
/// `all` deletes.
pub open spec fn is_live_link(all: Seq<Record>, r: Record, base: u64, t: LinkType) -> bool {
    match r.action.kind {
        ActionKind::CreateLink { base: b, link_type, .. } => b == base && link_type == t
            && !link_deleted(all, r.hash),
        _ => false,
    }
}

/// The link that a link-creating record stands for.
pub open spec fn link_of(r: Record) -> Link {
    match r.action.kind {
        ActionKind::CreateLink { base, target, link_type } => Link {
            create_link_hash: r.hash,
            author: r.action.author,
            timestamp: r.action.timestamp,
            base,
            target,
            link_type,
        },
        _ => arbitrary(),
    }
}

/// The live links of type `t` from `base` among the records `s`, in their
/// order, where `all` decides which links are deleted.
pub open spec fn live_links(s: Seq<Record>, all: Seq<Record>, base: u64, t: LinkType) -> Seq<Link>
    decreases s.len(),
{
    if s.len() == 0 {
        Seq::empty()
    } else {
        let prev = live_links(s.drop_last(), all, base, t);
        if is_live_link(all, s.last(), base, t) {
            prev.push(link_of(s.last()))
        } else {
            prev
        }
    }
}

/// Whether record `r` deletes an entry created or updated by one of the
/// actions `hs`.
pub open spec fn is_delete_of_any(r: Record, hs: Seq<u64>) -> bool {
    r.action.kind matches ActionKind::Delete { deletes_address } && hs.contains(deletes_address)
}

/// The actions among `s` that delete what one of the actions `hs` created, in
/// the order of their records.
pub open spec fn deletes_of_any(s: Seq<Record>, hs: Seq<u64>) -> Seq<HashedAction>
    decreases s.len(),
{
    if s.len() == 0 {
        Seq::empty()
    } else {
        let prev = deletes_of_any(s.drop_last(), hs);
        if is_delete_of_any(s.last(), hs) {
            prev.push(HashedAction { hash: s.last().hash, action: s.last().action })
        } else {
            prev
        }
    }
}

/// The actions among `s` that delete the link created by action `h`, in their
/// order.
pub open spec fn link_deletes_of(s: Seq<Record>, h: u64) -> Seq<HashedAction>
    decreases s.len(),
{
    if s.len() == 0 {
        Seq::empty()
    } else {
        let prev = link_deletes_of(s.drop_last(), h);
        if deletes_link(s.last(), h) {
            prev.push(HashedAction { hash: s.last().hash, action: s.last().action })
        } else {
            prev
        }
    }
}

/// Whether `h` is one of `hs`.
pub fn contains(hs: &Vec<u64>, h: u64) -> (r: bool)
    ensures
        r == hs@.contains(h),
{
    let mut i: usize = 0;
    while i < hs.len()
        invariant
            0 <= i <= hs@.len(),
            forall|k: int| 0 <= k < i ==> hs@[k] != h,
        decreases hs@.len() - i,
    {
        if hs[i] == h {
            assert(hs@[i as int] == h);
            return true;
        }
        i = i + 1;
    }
    false
}

/// The records that the store holds locally. A record's `entry` is `None`
/// when the store does not hold the entry locally (a private entry, or one
/// not fetched yet): such an entry is treated as not found.
pub struct Store {
    pub records: Vec<Record>,
}

impl Store {
    pub fn new() -> (r: Store)
        ensures
            r.records@ == Seq::<Record>::empty(),
    {
        Store { records: Vec::new() }
    }

    /// Adds a record to the snapshot.
    pub fn add(&mut self, record: Record)
        ensures
            final(self).records@ == old(self).records@.push(record),
    {
        self.records.push(record);
    }

    /// The record of hash `h`, if the store holds one.
    pub fn get_record(&self, h: u64) -> (r: Option<&Record>)
        ensures
            match r {
                Some(x) => lookup(self.records@, h) == Some(*x),
                None => lookup(self.records@, h) is None,
            },
    {
        let mut i: usize = 0;
        while i < self.records.len()
            invariant
                0 <= i <= self.records@.len(),
                lookup(self.records@, h) == find_from(self.records@, h, i as int),
            decreases self.records@.len() - i,
        {
            if self.records[i].hash == h {
                return Some(&self.records[i]);
            }
            i = i + 1;
        }
        None
    }

    /// Whether some record deletes the link created by action `h`.
    pub fn is_link_deleted(&self, h: u64) -> (r: bool)
        ensures
            r == link_deleted(self.records@, h),
    {
        let mut i: usize = 0;
        while i < self.records.len()
            invariant
                0 <= i <= self.records@.len(),
                forall|j: int| 0 <= j < i ==> !#[trigger] deletes_link(self.records@[j], h),
            decreases self.records@.len() - i,
        {
            match self.records[i].action.kind {
                ActionKind::DeleteLink { link_add_address, .. } => {
                    if link_add_address == h {
                        assert(deletes_link(self.records@[i as int], h));
                        return true;
                    }
                },
                _ => {},
            }
            i = i + 1;
        }
        false
    }

    /// The live links of type `t` from `base`, in the order of their records.
    pub fn get_links(&self, base: u64, t: LinkType) -> (r: Vec<Link>)
        ensures
            r@ == live_links(self.records@, self.records@, base, t),
    {
        let mut out: Vec<Link> = Vec::new();
        let mut i: usize = 0;
        while i < self.records.len()
            invariant
                0 <= i <= self.records@.len(),
                out@ == live_links(self.records@.subrange(0, i as int), self.records@, base, t),
            decreases self.records@.len() - i,
        {
            let ghost s = self.records@.subrange(0, i + 1);
            assert(s.drop_last() =~= self.records@.subrange(0, i as int));
            let r = &self.records[i];
            match r.action.kind {
                ActionKind::CreateLink { base: b, target, link_type } => {
                    if b == base && link_type == t && !self.is_link_deleted(r.hash) {
                        out.push(
                            Link {
                                create_link_hash: r.hash,
                                author: r.action.author,
                                timestamp: r.action.timestamp,
                                base: b,
                                target,
                                link_type,
                            },
                        );
                    }
                },
                _ => {},
            }
            i = i + 1;
        }
        assert(self.records@.subrange(0, self.records@.len() as int) =~= self.records@);
        out
    }

    /// The actions that delete what one of the actions `hs` created, in the
    /// order of their records.
    pub fn get_deletes_of_any(&self, hs: &Vec<u64>) -> (r: Vec<HashedAction>)
        ensures
            r@ == deletes_of_any(self.records@, hs@),
    {
        let mut out: Vec<HashedAction> = Vec::new();
        let mut i: usize = 0;
        while i < self.records.len()
            invariant
                0 <= i <= self.records@.len(),
                out@ == deletes_of_any(self.records@.subrange(0, i as int), hs@),
            decreases self.records@.len() - i,
        {
            let ghost s = self.records@.subrange(0, i + 1);
            assert(s.drop_last() =~= self.records@.subrange(0, i as int));
            let r = &self.records[i];
            match r.action.kind {
                ActionKind::Delete { deletes_address } => {
                    if contains(hs, deletes_address) {
                        out.push(HashedAction { hash: r.hash, action: r.action });
                    }
                },
                _ => {},
            }
            i = i + 1;
        }
        assert(self.records@.subrange(0, self.records@.len() as int) =~= self.records@);
        out
    }

    /// The actions that delete the link created by action `h`, in the order
    /// of their records.
    pub fn get_link_deletes(&self, h: u64) -> (r: Vec<HashedAction>)
        ensures
            r@ == link_deletes_of(self.records@, h),
    {
        let mut out: Vec<HashedAction> = Vec::new();
        let mut i: usize = 0;
        while i < self.records.len()
            invariant
                0 <= i <= self.records@.len(),
                out@ == link_deletes_of(self.records@.subrange(0, i as int), h),
            decreases self.records@.len() - i,
        {
            let ghost s = self.records@.subrange(0, i + 1);
            assert(s.drop_last() =~= self.records@.subrange(0, i as int));
            let r = &self.records[i];
            match r.action.kind {
                ActionKind::DeleteLink { link_add_address, .. } => {
                    if link_add_address == h {
                        out.push(HashedAction { hash: r.hash, action: r.action });
                    }
                },
                _ => {},
            }
            i = i + 1;
        }
        assert(self.records@.subrange(0, self.records@.len() as int) =~= self.records@);
        out
    }
}

} // verus!
