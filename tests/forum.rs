use posts::{
    all_deletes, all_revisions, classify_and_validate, deleted_children, get_all_posts, latest,
    links_pointing_to, links_to_remove, oldest_delete, pick_latest, pick_oldest,
    revisions_from_links, validate_update_comment, Action, ActionKind, Comment, Entry, EntryKind,
    EntryType, HashedAction, Link, LinkType, Linkable, Malformed, Op, Outcome, Post, Reason,
    Record, ResolveError, Store, ValidationError,
};

const AGENT: u64 = 7;
const ANCHOR: u64 = 1000;

fn action(seq: u32, timestamp: i64, kind: ActionKind) -> Action {
    Action { author: AGENT, seq, timestamp, prev_action: None, kind }
}

fn post(title: &str, content: &str) -> Entry {
    Entry::Post(Post { title: title.to_string(), content: content.to_string() })
}

fn comment(text: &str, post_hash: u64) -> Entry {
    Entry::Comment(Comment { comment: text.to_string(), post_hash })
}

fn create(hash: u64, timestamp: i64, entry: Entry) -> Record {
    let t = entry.entry_type();
    Record {
        hash,
        action: action(hash as u32, timestamp, ActionKind::Create { entry_kind: EntryKind::App(t) }),
        entry: Some(entry),
    }
}

fn update(hash: u64, timestamp: i64, original: u64, entry: Entry) -> Record {
    let t = entry.entry_type();
    Record {
        hash,
        action: action(
            hash as u32,
            timestamp,
            ActionKind::Update { original_action: original, entry_kind: EntryKind::App(t) },
        ),
        entry: Some(entry),
    }
}

fn delete(hash: u64, timestamp: i64, original: u64) -> Record {
    Record {
        hash,
        action: action(hash as u32, timestamp, ActionKind::Delete { deletes_address: original }),
        entry: None,
    }
}

fn create_link(hash: u64, timestamp: i64, base: u64, target: u64, link_type: LinkType) -> Record {
    Record {
        hash,
        action: action(
            hash as u32,
            timestamp,
            ActionKind::CreateLink { base, target: Linkable::Action(target), link_type },
        ),
        entry: None,
    }
}

fn delete_link(hash: u64, timestamp: i64, create: u64, base: u64) -> Record {
    Record {
        hash,
        action: action(
            hash as u32,
            timestamp,
            ActionKind::DeleteLink { link_add_address: create, base },
        ),
        entry: None,
    }
}

fn store_of(records: Vec<Record>) -> Store {
    let mut s = Store::new();
    for r in records {
        s.add(r);
    }
    s
}

fn link(create_link_hash: u64, timestamp: i64, target: Linkable) -> Link {
    Link {
        create_link_hash,
        author: AGENT,
        timestamp,
        base: 1,
        target,
        link_type: LinkType::PostUpdates,
    }
}

fn deleted(hash: u64, timestamp: i64) -> HashedAction {
    HashedAction {
        hash,
        action: action(1, timestamp, ActionKind::Delete { deletes_address: 1 }),
    }
}

#[test]
fn creations_of_posts_and_comments_are_accepted() {
    let store = Store::new();
    let p = create(1, 10, post("t", "c"));
    let c = create(2, 11, comment("hi", 1));
    for r in [p, c] {
        let op = Op::StoreEntry { action: r.action, entry: r.entry.clone() };
        assert_eq!(classify_and_validate(&store, &op), Ok(Outcome::Valid));
        let op = Op::StoreRecord { record: r };
        assert_eq!(classify_and_validate(&store, &op), Ok(Outcome::Valid));
    }
}

#[test]
fn private_and_agent_creations_are_accepted() {
    let store = Store::new();
    for kind in [EntryKind::PrivateApp(EntryType::Post), EntryKind::CapGrant, EntryKind::CapClaim] {
        let op = Op::StoreEntry {
            action: action(1, 1, ActionKind::Create { entry_kind: kind }),
            entry: None,
        };
        assert_eq!(classify_and_validate(&store, &op), Ok(Outcome::Valid));
    }
}

#[test]
fn payload_of_another_type_is_malformed() {
    let store = Store::new();
    let op = Op::StoreEntry {
        action: action(1, 1, ActionKind::Create { entry_kind: EntryKind::App(EntryType::Post) }),
        entry: Some(comment("x", 3)),
    };
    assert_eq!(
        classify_and_validate(&store, &op),
        Err(ValidationError::Malformed(Malformed::PayloadDoesNotFitAction))
    );
    let op = Op::StoreEntry {
        action: action(1, 1, ActionKind::Create { entry_kind: EntryKind::App(EntryType::Post) }),
        entry: None,
    };
    assert_eq!(
        classify_and_validate(&store, &op),
        Err(ValidationError::Malformed(Malformed::PayloadDoesNotFitAction))
    );
}

#[test]
fn updating_a_comment_is_refused() {
    let store = store_of(vec![create(2, 10, comment("first", 1))]);
    let u = update(3, 11, 2, comment("second", 1));
    let ops = vec![
        Op::RegisterUpdate { action: u.action, entry: u.entry.clone() },
        Op::StoreEntry { action: u.action, entry: u.entry.clone() },
        Op::StoreRecord { record: u },
    ];
    for op in ops {
        assert_eq!(
            classify_and_validate(&store, &op),
            Ok(Outcome::Invalid(Reason::CommentsCannotBeUpdated))
        );
    }
    // the stored comment is untouched
    match &store.records[0].entry {
        Some(Entry::Comment(c)) => assert_eq!(c.comment, "first"),
        _ => panic!("comment missing"),
    }
    assert_eq!(Reason::CommentsCannotBeUpdated.message(), "Comments cannot be updated");
}

#[test]
fn updating_a_post_is_accepted() {
    let store = store_of(vec![create(1, 10, post("a", "b"))]);
    let u = update(2, 11, 1, post("a", "c"));
    let op = Op::RegisterUpdate { action: u.action, entry: u.entry.clone() };
    assert_eq!(classify_and_validate(&store, &op), Ok(Outcome::Valid));
    assert_eq!(classify_and_validate(&store, &Op::StoreRecord { record: u }), Ok(Outcome::Valid));
}

#[test]
fn update_changing_type_is_refused() {
    let store = store_of(vec![create(1, 10, post("a", "b"))]);
    let u = update(2, 11, 1, comment("c", 1));
    let op = Op::RegisterUpdate { action: u.action, entry: u.entry };
    assert_eq!(
        classify_and_validate(&store, &op),
        Ok(Outcome::Invalid(Reason::EntryTypesDiffer))
    );
    assert_eq!(
        Reason::EntryTypesDiffer.message(),
        "Original and updated entry types must be the same"
    );
}

#[test]
fn update_of_a_non_entry_action_is_refused() {
    let store = store_of(vec![create_link(5, 10, 1, 2, LinkType::AllPosts)]);
    let u = update(6, 11, 5, post("a", "b"));
    let op = Op::RegisterUpdate { action: u.action, entry: u.entry };
    assert_eq!(
        classify_and_validate(&store, &op),
        Ok(Outcome::Invalid(Reason::UpdateOriginalNotEntryCreation))
    );
}

#[test]
fn update_of_an_unknown_original_is_unresolvable() {
    let store = Store::new();
    let u = update(2, 11, 1, post("a", "c"));
    let op = Op::RegisterUpdate { action: u.action, entry: u.entry };
    assert_eq!(classify_and_validate(&store, &op), Err(ValidationError::Unresolvable(1)));
}

#[test]
fn operation_with_a_foreign_action_is_malformed() {
    let store = Store::new();
    let op = Op::RegisterDelete { action: action(1, 1, ActionKind::Dna) };
    assert_eq!(
        classify_and_validate(&store, &op),
        Err(ValidationError::Malformed(Malformed::ActionDoesNotFitOperation))
    );
}

#[test]
fn deletions_of_posts_and_comments_are_accepted() {
    let store = store_of(vec![create(1, 10, post("a", "b")), create(2, 11, comment("c", 1))]);
    for original in [1, 2] {
        let d = delete(10 + original, 20, original);
        let op = Op::RegisterDelete { action: d.action };
        assert_eq!(classify_and_validate(&store, &op), Ok(Outcome::Valid));
        assert_eq!(classify_and_validate(&store, &Op::StoreRecord { record: d }), Ok(Outcome::Valid));
    }
}

#[test]
fn delete_of_a_non_entry_action_is_refused() {
    let store = store_of(vec![create_link(5, 10, 1, 2, LinkType::AllPosts)]);
    let op = Op::RegisterDelete { action: delete(6, 11, 5).action };
    assert_eq!(
        classify_and_validate(&store, &op),
        Ok(Outcome::Invalid(Reason::DeleteOriginalNotEntryCreation))
    );
}

#[test]
fn delete_of_an_entry_not_held_is_unresolvable() {
    let mut original = create(1, 10, post("a", "b"));
    original.entry = None;
    let store = store_of(vec![original]);
    let op = Op::RegisterDelete { action: delete(2, 11, 1).action };
    assert_eq!(classify_and_validate(&store, &op), Err(ValidationError::Unresolvable(1)));
    let u = update(3, 12, 1, post("a", "c"));
    let op = Op::RegisterUpdate { action: u.action, entry: u.entry };
    assert_eq!(classify_and_validate(&store, &op), Err(ValidationError::Unresolvable(1)));
}

#[test]
fn delete_of_an_unknown_entry_is_unresolvable() {
    let store = Store::new();
    let op = Op::RegisterDelete { action: delete(2, 11, 9).action };
    assert_eq!(classify_and_validate(&store, &op), Err(ValidationError::Unresolvable(9)));
}

#[test]
fn link_creations_are_accepted() {
    let store = Store::new();
    for t in [LinkType::AllPosts, LinkType::PostUpdates, LinkType::PostToComments] {
        let r = create_link(5, 10, 1, 2, t);
        assert_eq!(
            classify_and_validate(&store, &Op::RegisterCreateLink { action: r.action }),
            Ok(Outcome::Valid)
        );
        assert_eq!(classify_and_validate(&store, &Op::StoreRecord { record: r }), Ok(Outcome::Valid));
    }
}

#[test]
fn deleting_the_index_link_of_a_post_is_refused() {
    let store = store_of(vec![create(1, 10, post("a", "b")), create_link(2, 11, ANCHOR, 1, LinkType::AllPosts)]);
    let d = delete_link(3, 12, 2, ANCHOR);
    let expected = Ok(Outcome::Invalid(Reason::AllPostsLinksCannotBeDeleted));
    assert_eq!(classify_and_validate(&store, &Op::RegisterDeleteLink { action: d.action }), expected);
    assert_eq!(classify_and_validate(&store, &Op::StoreRecord { record: d }), expected);
    assert_eq!(Reason::AllPostsLinksCannotBeDeleted.message(), "AllPosts links cannot be deleted");
}

#[test]
fn deleting_update_links_is_refused_and_comment_links_allowed() {
    let store = store_of(vec![
        create_link(2, 11, 1, 5, LinkType::PostUpdates),
        create_link(3, 12, 1, 6, LinkType::PostToComments),
    ]);
    let d = delete_link(4, 13, 2, 1);
    assert_eq!(
        classify_and_validate(&store, &Op::RegisterDeleteLink { action: d.action }),
        Ok(Outcome::Invalid(Reason::PostUpdatesLinksCannotBeDeleted))
    );
    let d = delete_link(5, 13, 3, 1);
    assert_eq!(
        classify_and_validate(&store, &Op::RegisterDeleteLink { action: d.action }),
        Ok(Outcome::Valid)
    );
    assert_eq!(
        Reason::PostUpdatesLinksCannotBeDeleted.message(),
        "PostUpdates links cannot be deleted"
    );
}

#[test]
fn deleting_a_link_through_a_non_link_action_is_malformed() {
    let store = store_of(vec![create(1, 10, post("a", "b"))]);
    let d = delete_link(4, 13, 1, 1);
    assert_eq!(
        classify_and_validate(&store, &Op::RegisterDeleteLink { action: d.action }),
        Err(ValidationError::Malformed(Malformed::DeleteLinkTargetNotCreateLink))
    );
    let d = delete_link(4, 13, 99, 1);
    assert_eq!(
        classify_and_validate(&store, &Op::RegisterDeleteLink { action: d.action }),
        Err(ValidationError::Unresolvable(99))
    );
}

#[test]
fn new_agent_needs_validation_package_before_it() {
    let pkg = Record {
        hash: 1,
        action: action(2, 1, ActionKind::AgentValidationPkg { membrane_proof: None }),
        entry: None,
    };
    let dna = Record { hash: 2, action: action(1, 0, ActionKind::Dna), entry: None };
    let store = store_of(vec![pkg, dna]);
    let mut agent = action(3, 2, ActionKind::Create { entry_kind: EntryKind::AgentKey });
    agent.prev_action = Some(1);
    assert_eq!(
        classify_and_validate(&store, &Op::RegisterAgentActivity { action: agent }),
        Ok(Outcome::Valid)
    );
    agent.prev_action = Some(2);
    assert_eq!(
        classify_and_validate(&store, &Op::RegisterAgentActivity { action: agent }),
        Ok(Outcome::Invalid(Reason::PreviousNotValidationPackage))
    );
    agent.prev_action = Some(3);
    assert_eq!(
        classify_and_validate(&store, &Op::RegisterAgentActivity { action: agent }),
        Err(ValidationError::Unresolvable(3))
    );
    agent.prev_action = None;
    assert_eq!(
        classify_and_validate(&store, &Op::RegisterAgentActivity { action: agent }),
        Err(ValidationError::Malformed(Malformed::NoPreviousAction))
    );
    let other = action(4, 3, ActionKind::OpenChain);
    assert_eq!(
        classify_and_validate(&store, &Op::RegisterAgentActivity { action: other }),
        Ok(Outcome::Valid)
    );
}

#[test]
fn structural_records_are_accepted() {
    let store = Store::new();
    for kind in [ActionKind::Dna, ActionKind::InitZomesComplete, ActionKind::OpenChain, ActionKind::CloseChain] {
        let r = Record { hash: 1, action: action(1, 1, kind), entry: None };
        assert_eq!(classify_and_validate(&store, &Op::StoreRecord { record: r }), Ok(Outcome::Valid));
    }
}

#[test]
fn direct_comment_update_rule_refuses() {
    let a = action(1, 1, ActionKind::Dna);
    let c = Comment { comment: "x".to_string(), post_hash: 1 };
    assert_eq!(
        validate_update_comment(&a, &c, &a, &c),
        Outcome::Invalid(Reason::CommentsCannotBeUpdated)
    );
}

#[test]
fn document_lifecycle() {
    let mut store = store_of(vec![create(1, 10, post("D1", "body"))]);
    assert_eq!(all_revisions(&store, 1), Ok(vec![1]));
    assert_eq!(latest(&store, 1), Ok(1));
    store.add(update(2, 20, 1, post("D2", "body")));
    store.add(create_link(3, 21, 1, 2, LinkType::PostUpdates));
    assert_eq!(latest(&store, 1), Ok(2));
    assert_eq!(all_revisions(&store, 1), Ok(vec![1, 2]));
    assert_eq!(oldest_delete(&store, 1), None);
    store.add(delete(4, 30, 2));
    let deletes = all_deletes(&store, 1).unwrap();
    assert_eq!(deletes.len(), 1);
    assert_eq!(deletes[0].hash, 4);
    assert_eq!(oldest_delete(&store, 1).map(|d| d.hash), Some(4));
}

#[test]
fn deletes_span_every_revision() {
    let store = store_of(vec![
        create(1, 10, post("a", "b")),
        update(2, 20, 1, post("a", "c")),
        create_link(3, 21, 1, 2, LinkType::PostUpdates),
        create(9, 22, post("other", "x")),
        delete(4, 40, 2),
        delete(5, 35, 9),
        delete(6, 30, 1),
    ]);
    let hashes: Vec<u64> = all_deletes(&store, 1).unwrap().iter().map(|d| d.hash).collect();
    assert_eq!(hashes, vec![4, 6]);
    assert_eq!(oldest_delete(&store, 1).map(|d| d.hash), Some(6));
    assert_eq!(all_deletes(&store, 2).unwrap().len(), 1);
}

#[test]
fn revisions_of_an_unknown_entry_are_empty() {
    let store = Store::new();
    assert_eq!(all_revisions(&store, 1), Ok(vec![]));
    assert!(all_deletes(&store, 1).is_none());
    assert!(oldest_delete(&store, 1).is_none());
}

#[test]
fn latest_takes_the_newest_update_link() {
    let links = vec![
        link(10, 5, Linkable::Action(100)),
        link(11, 9, Linkable::Action(101)),
        link(12, 7, Linkable::Action(102)),
    ];
    assert_eq!(pick_latest(1, &links), Ok(101));
    assert_eq!(pick_latest(1, &vec![]), Ok(1));
}

#[test]
fn latest_takes_the_last_of_equally_new_links() {
    let links = vec![link(10, 9, Linkable::Action(100)), link(11, 9, Linkable::Action(101))];
    assert_eq!(pick_latest(1, &links), Ok(101));
}

#[test]
fn latest_through_a_non_action_target_fails() {
    let links = vec![link(10, 9, Linkable::Entry(100))];
    assert_eq!(pick_latest(1, &links), Err(ResolveError::TargetNotAction));
}

#[test]
fn revisions_keep_link_order() {
    let links = vec![
        link(10, 9, Linkable::Action(100)),
        link(11, 5, Linkable::Action(101)),
        link(12, 7, Linkable::Action(102)),
    ];
    assert_eq!(revisions_from_links(1, &links), Ok(vec![1, 100, 101, 102]));
    let bad = vec![link(10, 9, Linkable::Action(100)), link(11, 5, Linkable::External(3))];
    assert_eq!(revisions_from_links(1, &bad), Err(ResolveError::TargetNotAction));
}

#[test]
fn oldest_delete_is_the_first_of_the_oldest() {
    let deletes = vec![deleted(1, 30), deleted(2, 10), deleted(3, 20), deleted(4, 10)];
    assert_eq!(pick_oldest(&deletes).map(|d| d.hash), Some(2));
    assert_eq!(pick_oldest(&vec![]), None);
}

#[test]
fn deleting_a_post_unlinks_it_from_the_index() {
    let mut store = store_of(vec![
        create(1, 10, post("a", "b")),
        create_link(2, 11, ANCHOR, 1, LinkType::AllPosts),
        create(3, 12, post("c", "d")),
        create_link(4, 13, ANCHOR, 3, LinkType::AllPosts),
    ]);
    let plan = links_to_remove(&store, ANCHOR, LinkType::AllPosts, 1);
    assert_eq!(plan, vec![2]);
    let mut next: u64 = 50;
    for h in plan {
        store.add(delete_link(next, 20, h, ANCHOR));
        next += 1;
    }
    store.add(delete(next, 21, 1));
    let left: Vec<Linkable> = get_all_posts(&store, ANCHOR).iter().map(|l| l.target).collect();
    assert_eq!(left, vec![Linkable::Action(3)]);
}

#[test]
fn deleting_a_comment_unlinks_it_from_its_post() {
    let mut store = store_of(vec![
        create(1, 10, post("a", "b")),
        create(2, 11, comment("x", 1)),
        create_link(3, 12, 1, 2, LinkType::PostToComments),
        create(4, 13, comment("y", 1)),
        create_link(5, 14, 1, 4, LinkType::PostToComments),
    ]);
    let plan = links_to_remove(&store, 1, LinkType::PostToComments, 2);
    assert_eq!(plan, vec![3]);
    store.add(delete_link(6, 20, 3, 1));
    let details = deleted_children(&store, 1);
    assert_eq!(details.len(), 1);
    assert_eq!(details[0].create.hash, 3);
    assert_eq!(details[0].deletes.len(), 1);
    assert_eq!(details[0].deletes[0].hash, 6);
    assert_eq!(links_to_remove(&store, 1, LinkType::PostToComments, 2), Vec::<u64>::new());
}

#[test]
fn links_pointing_to_keeps_only_the_target() {
    let links = vec![
        link(10, 1, Linkable::Action(5)),
        link(11, 2, Linkable::Entry(5)),
        link(12, 3, Linkable::Action(6)),
        link(13, 4, Linkable::Action(5)),
    ];
    assert_eq!(links_pointing_to(&links, 5), vec![10, 13]);
}
