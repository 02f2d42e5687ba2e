//! Revision views of an entry: its latest revision, every revision, the
//! actions that deleted it, and which of a post's comment links were deleted.
//! Each is a function of the original action's hash and the records the store
//! holds, recomputed on every query.
use vstd::prelude::*;
use crate::types::{
    ActionKind, HashedAction, Link, LinkType, Linkable, Outcome, Record, ResolveError,
    ValidationError,
};
use crate::classify::{Op, verdict};
use crate::store::{
    Store, live_links, deletes_of_any, lookup, find_from, link_deletes_of, is_live_link, link_of, link_deleted,
    deletes_link,
};

verus! {

/// Index of the link with the greatest timestamp; of several such, the last.
pub open spec fn latest_index(links: Seq<Link>) -> int
    decreases links.len(),
{
    if links.len() <= 1 {
        0
    } else {
        let j = latest_index(links.drop_last());
        if links.last().timestamp >= links[j].timestamp {
            links.len() - 1
        } else {
            j
        }
    }
}

/// The latest revision of `original`, given the update links out of it.
pub open spec fn latest_of(original: u64, links: Seq<Link>) -> Result<u64, ResolveError> {
    if links.len() == 0 {
        Ok(original)
    } else {
        match links[latest_index(links)].target {
            Linkable::Action(h) => Ok(h),
            _ => Err(ResolveError::TargetNotAction),
        }
    }
}

/// Whether every link of `links` points at an action.
pub open spec fn all_target_actions(links: Seq<Link>) -> bool {
    forall|i: int| 0 <= i < links.len() ==> (#[trigger] links[i].target) is Action
}

/// `original`, then the action each update link points at, in link order.
pub open spec fn revisions_of(original: u64, links: Seq<Link>) -> Result<Seq<u64>, ResolveError> {
    if all_target_actions(links) {
        Ok(seq![original] + links.map_values(|l: Link| l.target->Action_0))
    } else {
        Err(ResolveError::TargetNotAction)
    }
}

/// Index of the delete with the smallest timestamp; of several such, the first.
pub open spec fn oldest_index(deletes: Seq<HashedAction>) -> int
    decreases deletes.len(),
{
    if deletes.len() <= 1 {
        0
    } else {
        let j = oldest_index(deletes.drop_last());
        if deletes.last().action.timestamp < deletes[j].action.timestamp {
            deletes.len() - 1
        } else {
            j
        }
    }
}

/// The actions that `links` point at, in link order; links to anything but
/// an action are passed over.
pub open spec fn action_targets(links: Seq<Link>) -> Seq<u64>
    decreases links.len(),
{
    if links.len() == 0 {
        Seq::empty()
    } else {
        let prev = action_targets(links.drop_last());
        match links.last().target {
            Linkable::Action(h) => prev.push(h),
            _ => prev,
        }
    }
}

/// `original` and every revision of it that an update link points at.
pub open spec fn revision_hashes(s: Seq<Record>, original: u64) -> Seq<u64> {
    seq![original] + action_targets(update_links(s, original))
}

/// The update links out of `original` among the records `s`.
pub open spec fn update_links(s: Seq<Record>, original: u64) -> Seq<Link> {
    live_links(s, s, original, LinkType::PostUpdates)
}

/// The link with the greatest timestamp is at `latest_index`, and every link
/// after it is strictly older.
pub proof fn lemma_latest_index(links: Seq<Link>)
    requires
        links.len() > 0,
    ensures
        0 <= latest_index(links) < links.len(),
        forall|k: int|
            0 <= k < links.len() ==> (#[trigger] links[k]).timestamp <= links[latest_index(links)].timestamp,
        forall|k: int|
            latest_index(links) < k < links.len() ==> (#[trigger] links[k]).timestamp
                < links[latest_index(links)].timestamp,
    decreases links.len(),
{
    if links.len() > 1 {
        let p = links.drop_last();
        lemma_latest_index(p);
        let j = latest_index(p);
        let i = latest_index(links);
        assert(p[j] == links[j]);
        assert forall|k: int| 0 <= k < links.len() implies (#[trigger] links[k]).timestamp
            <= links[i].timestamp by {
            if k < p.len() {
                assert(p[k] == links[k]);
            }
        }
        assert forall|k: int| i < k < links.len() implies (#[trigger] links[k]).timestamp
            < links[i].timestamp by {
            if k < p.len() {
                assert(p[k] == links[k]);
            }
        }
    }
}

/// The delete with the smallest timestamp is at `oldest_index`, and every
/// delete before it is strictly younger.
pub proof fn lemma_oldest_index(deletes: Seq<HashedAction>)
    requires
        deletes.len() > 0,
    ensures
        0 <= oldest_index(deletes) < deletes.len(),
        forall|k: int|
            0 <= k < deletes.len() ==> deletes[oldest_index(deletes)].action.timestamp
                <= (#[trigger] deletes[k]).action.timestamp,
        forall|k: int|
            0 <= k < oldest_index(deletes) ==> deletes[oldest_index(deletes)].action.timestamp
                < (#[trigger] deletes[k]).action.timestamp,
    decreases deletes.len(),
{
    if deletes.len() > 1 {
        let p = deletes.drop_last();
        lemma_oldest_index(p);
        let j = oldest_index(p);
        let i = oldest_index(deletes);
        assert(p[j] == deletes[j]);
        assert forall|k: int| 0 <= k < deletes.len() implies deletes[i].action.timestamp
            <= (#[trigger] deletes[k]).action.timestamp by {
            if k < p.len() {
                assert(p[k] == deletes[k]);
            }
        }
        assert forall|k: int| 0 <= k < i implies deletes[i].action.timestamp
            < (#[trigger] deletes[k]).action.timestamp by {
            if k < p.len() {
                assert(p[k] == deletes[k]);
            }
        }
    }
}

/// The latest revision of `original`, given the update links out of it: the
/// target of the most recent link (the last of equally recent ones), or
/// `original` itself when it was never updated.
pub fn pick_latest(original: u64, links: &Vec<Link>) -> (r: Result<u64, ResolveError>)
    ensures
        r == latest_of(original, links@),
{
    if links.len() == 0 {
        return Ok(original);
    }
    let mut best: usize = 0;
    let mut i: usize = 1;
    while i < links.len()
        invariant
            1 <= i <= links@.len(),
            best == latest_index(links@.subrange(0, i as int)),
            0 <= best < i,
        decreases links@.len() - i,
    {
        let ghost p = links@.subrange(0, i + 1);
        assert(p.drop_last() =~= links@.subrange(0, i as int));
        if links[i].timestamp >= links[best].timestamp {
            best = i;
        }
        i = i + 1;
    }
    assert(links@.subrange(0, links@.len() as int) =~= links@);
    match links[best].target {
        Linkable::Action(h) => Ok(h),
        _ => Err(ResolveError::TargetNotAction),
    }
}

/// `original` followed by the target of each update link, in link order.
pub fn revisions_from_links(original: u64, links: &Vec<Link>) -> (r: Result<Vec<u64>, ResolveError>)
    ensures
        match r {
            Ok(v) => revisions_of(original, links@) == Ok::<Seq<u64>, ResolveError>(v@),
            Err(e) => revisions_of(original, links@) == Err::<Seq<u64>, ResolveError>(e),
        },
        r matches Ok(v) ==> v@.len() == 1 + links@.len() && v@[0] == original,
{
    let mut out: Vec<u64> = Vec::new();
    out.push(original);
    let mut i: usize = 0;
    while i < links.len()
        invariant
            0 <= i <= links@.len(),
            out@ == seq![original] + links@.subrange(0, i as int).map_values(
                |l: Link| l.target->Action_0,
            ),
            forall|k: int| 0 <= k < i ==> (#[trigger] links@[k].target) is Action,
        decreases links@.len() - i,
    {
        match links[i].target {
            Linkable::Action(h) => {
                out.push(h);
            },
            _ => {
                assert(!all_target_actions(links@));
                return Err(ResolveError::TargetNotAction);
            },
        }
        assert(links@.subrange(0, i + 1).map_values(|l: Link| l.target->Action_0)
            =~= links@.subrange(0, i as int).map_values(|l: Link| l.target->Action_0).push(
            links@[i as int].target->Action_0,
        ));
        i = i + 1;
    }
    assert(links@.subrange(0, links@.len() as int) =~= links@);
    Ok(out)
}

/// The delete with the smallest timestamp, the first of equally old ones, or
/// `None` when there is none.
pub fn pick_oldest(deletes: &Vec<HashedAction>) -> (r: Option<HashedAction>)
    ensures
        deletes@.len() == 0 <==> r is None,
        r matches Some(d) ==> d == deletes@[oldest_index(deletes@)],
{
    if deletes.len() == 0 {
        return None;
    }
    let mut best: usize = 0;
    let mut i: usize = 1;
    while i < deletes.len()
        invariant
            1 <= i <= deletes@.len(),
            best == oldest_index(deletes@.subrange(0, i as int)),
            0 <= best < i,
        decreases deletes@.len() - i,
    {
        let ghost p = deletes@.subrange(0, i + 1);
        assert(p.drop_last() =~= deletes@.subrange(0, i as int));
        if deletes[i].action.timestamp < deletes[best].action.timestamp {
            best = i;
        }
        i = i + 1;
    }
    assert(deletes@.subrange(0, deletes@.len() as int) =~= deletes@);
    Some(deletes[best])
}

/// Every post listed in the all-posts index whose anchor has hash `anchor`.
pub fn get_all_posts(store: &Store, anchor: u64) -> (r: Vec<Link>)
    ensures
        r@ == live_links(store.records@, store.records@, anchor, LinkType::AllPosts),
{
    store.get_links(anchor, LinkType::AllPosts)
}

/// `original` followed by every action that one of `links` points at.
pub fn revision_hashes_of(original: u64, links: &Vec<Link>) -> (r: Vec<u64>)
    ensures
        r@ == seq![original] + action_targets(links@),
{
    let mut out: Vec<u64> = Vec::new();
    out.push(original);
    let mut i: usize = 0;
    while i < links.len()
        invariant
            0 <= i <= links@.len(),
            out@ == seq![original] + action_targets(links@.subrange(0, i as int)),
        decreases links@.len() - i,
    {
        let ghost p = links@.subrange(0, i + 1);
        assert(p.drop_last() =~= links@.subrange(0, i as int));
        match links[i].target {
            Linkable::Action(h) => {
                out.push(h);
                assert(out@ =~= seq![original] + action_targets(p));
            },
            _ => {},
        }
        i = i + 1;
    }
    assert(links@.subrange(0, links@.len() as int) =~= links@);
    out
}

/// The latest revision of the entry created by `original`.
pub fn latest(store: &Store, original: u64) -> (r: Result<u64, ResolveError>)
    ensures
        r == latest_of(original, update_links(store.records@, original)),
{
    let links = store.get_links(original, LinkType::PostUpdates);
    pick_latest(original, &links)
}

/// Every revision of the entry created by `original`: `original` first, then
/// each update in the order of the update links. Empty when the store does
/// not hold `original`.
pub fn all_revisions(store: &Store, original: u64) -> (r: Result<Vec<u64>, ResolveError>)
    ensures
        lookup(store.records@, original) is None ==> (r matches Ok(v) && v@.len() == 0),
        lookup(store.records@, original) is Some ==> match r {
            Ok(v) => revisions_of(original, update_links(store.records@, original)) == Ok::<
                Seq<u64>,
                ResolveError,
            >(v@),
            Err(e) => revisions_of(original, update_links(store.records@, original)) == Err::<
                Seq<u64>,
                ResolveError,
            >(e),
        },
{
    if store.get_record(original).is_none() {
        return Ok(Vec::new());
    }
    let links = store.get_links(original, LinkType::PostUpdates);
    revisions_from_links(original, &links)
}

/// Every action that deleted the entry created by `original` or one of its
/// revisions, in the order of their records (the order the store lists them
/// in, not sorted by time); `None` when the store does not hold `original`.
pub fn all_deletes(store: &Store, original: u64) -> (r: Option<Vec<HashedAction>>)
    ensures
        lookup(store.records@, original) is None <==> r is None,
        r matches Some(v) ==> v@ == deletes_of_any(
            store.records@,
            revision_hashes(store.records@, original),
        ),
{
    if store.get_record(original).is_none() {
        return None;
    }
    let links = store.get_links(original, LinkType::PostUpdates);
    let hs = revision_hashes_of(original, &links);
    Some(store.get_deletes_of_any(&hs))
}

/// The oldest action that deleted the entry created by `original` or one of
/// its revisions: of equally old ones, the first in record order.
pub fn oldest_delete(store: &Store, original: u64) -> (r: Option<HashedAction>)
    ensures
        ({
            let ds = deletes_of_any(store.records@, revision_hashes(store.records@, original));
            &&& (lookup(store.records@, original) is None || ds.len() == 0) <==> r is None
            &&& r matches Some(d) ==> d == ds[oldest_index(ds)]
        }),
{
    match all_deletes(store, original) {
        None => None,
        Some(deletes) => pick_oldest(&deletes),
    }
}

/// A link-creating action together with the actions that deleted the link.
#[derive(Clone, Debug)]
pub struct LinkDetails {
    pub create: HashedAction,
    pub deletes: Vec<HashedAction>,
}

/// Whether record `r` creates a link from `parent` to one of its comments.
pub open spec fn is_comment_link(r: Record, parent: u64) -> bool {
    r.action.kind matches ActionKind::CreateLink { base, link_type, .. } && base == parent
        && link_type == LinkType::PostToComments
}

/// Of the records `s`, the comment links out of `parent` that some record of
/// `all` deleted, each with all its deletes, in record order.
pub open spec fn deleted_children_of(s: Seq<Record>, all: Seq<Record>, parent: u64) -> Seq<
    (HashedAction, Seq<HashedAction>),
>
    decreases s.len(),
{
    if s.len() == 0 {
        Seq::empty()
    } else {
        let prev = deleted_children_of(s.drop_last(), all, parent);
        let r = s.last();
        let dels = link_deletes_of(all, r.hash);
        if is_comment_link(r, parent) && dels.len() > 0 {
            prev.push((HashedAction { hash: r.hash, action: r.action }, dels))
        } else {
            prev
        }
    }
}

/// The hashes of the link-creating actions of those `links` that point at the
/// action `target`, in link order.
pub open spec fn pointing_to(links: Seq<Link>, target: u64) -> Seq<u64>
    decreases links.len(),
{
    if links.len() == 0 {
        Seq::empty()
    } else {
        let prev = pointing_to(links.drop_last(), target);
        if links.last().target == Linkable::Action(target) {
            prev.push(links.last().create_link_hash)
        } else {
            prev
        }
    }
}

/// The comment links out of `parent` that were deleted, each with the
/// actions that deleted it, in the order of their records.
pub fn deleted_children(store: &Store, parent: u64) -> (r: Vec<LinkDetails>)
    ensures
        r@.len() == deleted_children_of(store.records@, store.records@, parent).len(),
        forall|i: int|
            0 <= i < r@.len() ==> (#[trigger] r@[i]).create == deleted_children_of(
                store.records@,
                store.records@,
                parent,
            )[i].0 && r@[i].deletes@ == deleted_children_of(
                store.records@,
                store.records@,
                parent,
            )[i].1,
{
    let ghost all = store.records@;
    let mut out: Vec<LinkDetails> = Vec::new();
    let mut i: usize = 0;
    while i < store.records.len()
        invariant
            0 <= i <= all.len(),
            all == store.records@,
            out@.len() == deleted_children_of(all.subrange(0, i as int), all, parent).len(),
            forall|k: int|
                0 <= k < out@.len() ==> (#[trigger] out@[k]).create == deleted_children_of(
                    all.subrange(0, i as int),
                    all,
                    parent,
                )[k].0 && out@[k].deletes@ == deleted_children_of(
                    all.subrange(0, i as int),
                    all,
                    parent,
                )[k].1,
        decreases all.len() - i,
    {
        let ghost p = all.subrange(0, i + 1);
        assert(p.drop_last() =~= all.subrange(0, i as int));
        let r = &store.records[i];
        match r.action.kind {
            ActionKind::CreateLink { base, link_type, .. } => {
                if base == parent && link_type == LinkType::PostToComments {
                    let deletes = store.get_link_deletes(r.hash);
                    if deletes.len() > 0 {
                        out.push(
                            LinkDetails {
                                create: HashedAction { hash: r.hash, action: r.action },
                                deletes,
                            },
                        );
                    }
                }
            },
            _ => {},
        }
        i = i + 1;
    }
    assert(all.subrange(0, all.len() as int) =~= all);
    out
}

/// The hashes of the link-creating actions of those `links` that point at the
/// action `target`: the links to delete when `target` is deleted.
pub fn links_pointing_to(links: &Vec<Link>, target: u64) -> (r: Vec<u64>)
    ensures
        r@ == pointing_to(links@, target),
{
    let mut out: Vec<u64> = Vec::new();
    let mut i: usize = 0;
    while i < links.len()
        invariant
            0 <= i <= links@.len(),
            out@ == pointing_to(links@.subrange(0, i as int), target),
        decreases links@.len() - i,
    {
        let ghost p = links@.subrange(0, i + 1);
        assert(p.drop_last() =~= links@.subrange(0, i as int));
        if links[i].target == Linkable::Action(target) {
            out.push(links[i].create_link_hash);
        }
        i = i + 1;
    }
    assert(links@.subrange(0, links@.len() as int) =~= links@);
    out
}

/// The live links of type `t` from `base` that point at the action `target`:
/// what deleting `target` must unlink.
pub fn links_to_remove(store: &Store, base: u64, t: LinkType, target: u64) -> (r: Vec<u64>)
    ensures
        r@ == pointing_to(live_links(store.records@, store.records@, base, t), target),
{
    let links = store.get_links(base, t);
    links_pointing_to(&links, target)
}

/// Every revision list starts with the original and holds one more entry than
/// there are update links.
pub proof fn lemma_revisions_begin_with_original(original: u64, links: Seq<Link>)
    requires
        all_target_actions(links),
    ensures
        revisions_of(original, links) is Ok,
        revisions_of(original, links)->Ok_0.len() == 1 + links.len(),
        revisions_of(original, links)->Ok_0[0] == original,
{
}

/// With no update links the latest revision is the original; otherwise it is
/// the target of an update link with the greatest timestamp.
pub proof fn lemma_latest_revision(original: u64, links: Seq<Link>)
    ensures
        links.len() == 0 ==> latest_of(original, links) == Ok::<u64, ResolveError>(original),
        links.len() > 0 ==> ({
            let i = latest_index(links);
            &&& 0 <= i < links.len()
            &&& forall|k: int|
                0 <= k < links.len() ==> (#[trigger] links[k]).timestamp <= links[i].timestamp
            &&& links[i].target is Action ==> latest_of(original, links) == Ok::<
                u64,
                ResolveError,
            >(links[i].target->Action_0)
        }),
{
    if links.len() > 0 {
        lemma_latest_index(links);
    }
}

proof fn lemma_live_link_source(p: Seq<Record>, all: Seq<Record>, base: u64, t: LinkType, k: int)
    requires
        0 <= k < live_links(p, all, base, t).len(),
    ensures
        exists|i: int|
            0 <= i < p.len() && is_live_link(all, #[trigger] p[i], base, t) && link_of(p[i])
                == live_links(p, all, base, t)[k],
    decreases p.len(),
{
    let q = p.drop_last();
    let prev = live_links(q, all, base, t);
    if k < prev.len() {
        lemma_live_link_source(q, all, base, t, k);
        let i = choose|i: int|
            0 <= i < q.len() && is_live_link(all, #[trigger] q[i], base, t) && link_of(q[i])
                == prev[k];
        assert(q[i] == p[i]);
    } else {
        assert(p[p.len() - 1] == p.last());
    }
}

proof fn lemma_live_link_listed(p: Seq<Record>, all: Seq<Record>, base: u64, t: LinkType, i: int)
    requires
        0 <= i < p.len(),
        is_live_link(all, p[i], base, t),
    ensures
        exists|k: int|
            0 <= k < live_links(p, all, base, t).len() && #[trigger] live_links(
                p,
                all,
                base,
                t,
            )[k] == link_of(p[i]),
    decreases p.len(),
{
    let q = p.drop_last();
    let prev = live_links(q, all, base, t);
    if i < q.len() {
        assert(q[i] == p[i]);
        lemma_live_link_listed(q, all, base, t, i);
        let k = choose|k: int|
            0 <= k < prev.len() && #[trigger] live_links(q, all, base, t)[k] == link_of(q[i]);
        assert(live_links(p, all, base, t)[k] == prev[k]);
    } else {
        assert(live_links(p, all, base, t)[prev.len() as int] == link_of(p[i]));
    }
}

proof fn lemma_pointing_listed(links: Seq<Link>, target: u64, k: int)
    requires
        0 <= k < links.len(),
        links[k].target == Linkable::Action(target),
    ensures
        pointing_to(links, target).contains(links[k].create_link_hash),
    decreases links.len(),
{
    let q = links.drop_last();
    if k < q.len() {
        assert(q[k] == links[k]);
        lemma_pointing_listed(q, target, k);
        let j = choose|j: int|
            0 <= j < pointing_to(q, target).len() && pointing_to(q, target)[j]
                == links[k].create_link_hash;
        assert(pointing_to(links, target)[j] == links[k].create_link_hash);
    } else {
        assert(pointing_to(links, target).last() == links[k].create_link_hash);
    }
}

/// Removal leaves no dangling link: once a deletion is recorded for every
/// live link of type `t` from `base` that points at `target` (the list
/// `links_to_remove` gives), and nothing new links from anywhere, no live link
/// of that type from `base` points at `target`. For a post this is its entry
/// in the all-posts index; for a comment, the link from its post.
pub proof fn lemma_removal_leaves_no_link(
    s: Seq<Record>,
    added: Seq<Record>,
    base: u64,
    t: LinkType,
    target: u64,
)
    requires
        forall|j: int| 0 <= j < added.len() ==> !((#[trigger] added[j]).action.kind is CreateLink),
        forall|h: u64|
            pointing_to(live_links(s, s, base, t), target).contains(h) ==> exists|j: int|
                0 <= j < added.len() && #[trigger] deletes_link(added[j], h),
    ensures
        forall|k: int|
            0 <= k < live_links(s + added, s + added, base, t).len() ==> (#[trigger] live_links(
                s + added,
                s + added,
                base,
                t,
            )[k]).target != Linkable::Action(target),
{
    let s2 = s + added;
    let after = live_links(s2, s2, base, t);
    assert forall|k: int| 0 <= k < after.len() implies (#[trigger] after[k]).target
        != Linkable::Action(target) by {
        if after[k].target == Linkable::Action(target) {
            lemma_live_link_source(s2, s2, base, t, k);
            let i = choose|i: int|
                0 <= i < s2.len() && is_live_link(s2, #[trigger] s2[i], base, t) && link_of(s2[i])
                    == after[k];
            if i >= s.len() {
                assert(s2[i] == added[i - s.len()]);
            } else {
                let r = s[i];
                assert(s2[i] == r);
                if link_deleted(s, r.hash) {
                    let j = choose|j: int| 0 <= j < s.len() && #[trigger] deletes_link(s[j], r.hash);
                    assert(s2[j] == s[j]);
                }
                assert(is_live_link(s, r, base, t));
                lemma_live_link_listed(s, s, base, t, i);
                let before = live_links(s, s, base, t);
                let m = choose|m: int| 0 <= m < before.len() && #[trigger] before[m] == link_of(s[i]);
                lemma_pointing_listed(before, target, m);
                let j = choose|j: int| 0 <= j < added.len() && #[trigger] deletes_link(added[j], r.hash);
                assert(s2[s.len() + j] == added[j]);
            }
        }
    }
}

/// A link whose creating record is added to the store, and whose hash no
/// record deletes yet (as holds of a new action's hash), is admitted and is
/// then listed among the live links of its base and type. A post created
/// with its index link is thereby listed in the all-posts index.
pub proof fn lemma_created_link_listed(s: Seq<Record>, r: Record)
    requires
        r.action.kind is CreateLink,
        forall|j: int| 0 <= j < s.len() ==> !(#[trigger] deletes_link(s[j], r.hash)),
    ensures
        verdict(s, Op::StoreRecord { record: r }) == Ok::<Outcome, ValidationError>(
            Outcome::Valid,
        ),
        live_links(s.push(r), s.push(r), link_of(r).base, link_of(r).link_type).contains(
            link_of(r),
        ),
{
    let s2 = s.push(r);
    let base = link_of(r).base;
    let t = link_of(r).link_type;
    assert(s2.drop_last() =~= s);
    assert(s2.last() == r);
    assert(!link_deleted(s2, r.hash)) by {
        if link_deleted(s2, r.hash) {
            let j = choose|j: int| 0 <= j < s2.len() && #[trigger] deletes_link(s2[j], r.hash);
            if j < s.len() {
                assert(s2[j] == s[j]);
            }
        }
    }
    let after = live_links(s2, s2, base, t);
    assert(after[after.len() - 1] == link_of(r));
}

proof fn lemma_lookup_unique(s: Seq<Record>, i: int, m: int)
    requires
        0 <= m <= i < s.len(),
        forall|a: int, b: int| 0 <= a < b < s.len() ==> s[a].hash != s[b].hash,
    ensures
        find_from(s, s[i].hash, m) == Some(s[i]),
    decreases i - m,
{
    if m < i {
        lemma_lookup_unique(s, i, m + 1);
    }
}

/// The indexes are append-only: where no two records share a hash, adding a
/// record that the classifier admits keeps every live link of the all-posts
/// and post-updates indexes listed.
pub proof fn lemma_admitted_record_keeps_index_links(
    s: Seq<Record>,
    rec: Record,
    base: u64,
    t: LinkType,
    k: int,
)
    requires
        t == LinkType::AllPosts || t == LinkType::PostUpdates,
        forall|a: int, b: int| 0 <= a < b < s.len() ==> s[a].hash != s[b].hash,
        verdict(s, Op::StoreRecord { record: rec }) == Ok::<Outcome, ValidationError>(
            Outcome::Valid,
        ),
        0 <= k < live_links(s, s, base, t).len(),
    ensures
        live_links(s.push(rec), s.push(rec), base, t).contains(live_links(s, s, base, t)[k]),
{
    let s2 = s.push(rec);
    let l = live_links(s, s, base, t)[k];
    lemma_live_link_source(s, s, base, t, k);
    let i = choose|i: int|
        0 <= i < s.len() && is_live_link(s, #[trigger] s[i], base, t) && link_of(s[i]) == l;
    let h = s[i].hash;
    assert(s2[i] == s[i]);
    assert(!link_deleted(s2, h)) by {
        if link_deleted(s2, h) {
            let j = choose|j: int| 0 <= j < s2.len() && #[trigger] deletes_link(s2[j], h);
            if j < s.len() {
                assert(s2[j] == s[j]);
                assert(link_deleted(s, h));
            } else {
                assert(s2[j] == rec);
                lemma_lookup_unique(s, i, 0);
            }
        }
    }
    assert(is_live_link(s2, s2[i], base, t));
    lemma_live_link_listed(s2, s2, base, t, i);
    let m = choose|m: int|
        0 <= m < live_links(s2, s2, base, t).len() && #[trigger] live_links(s2, s2, base, t)[m]
            == link_of(s2[i]);
    assert(live_links(s2, s2, base, t)[m] == l);
}

} // verus!
