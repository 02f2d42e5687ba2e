//! The operation classifier: decides which structural case an operation is,
//! fetches from the store the history that case needs, and routes it to the
//! rule of the entry or link type concerned.
use vstd::prelude::*;
use crate::types::{
    Action, ActionKind, Entry, EntryKind, LinkType, Malformed, Outcome, Reason, Record, ValidationError,
};
use crate::validators::{
    create_outcome, update_outcome, delete_outcome, create_link_outcome, delete_link_outcome,
    validate_create_entry, validate_update_entry, validate_delete_entry, validate_create_link,
    validate_delete_link, validate_agent_joining,
};
use crate::store::{Store, lookup};

verus! {

/// An operation as observed on the network: an action, with the payload that
/// came with it.
#[derive(Clone, Debug)]
pub enum Op {
    /// An entry was stored; `action` creates or updates it.
    StoreEntry { action: Action, entry: Option<Entry> },
    /// A whole record was stored.
    StoreRecord { record: Record },
    /// An update was registered against the action it updates.
    RegisterUpdate { action: Action, entry: Option<Entry> },
    /// A deletion was registered against the action it deletes.
    RegisterDelete { action: Action },
    /// A link was registered at its base.
    RegisterCreateLink { action: Action },
    /// A link's deletion was registered at its base.
    RegisterDeleteLink { action: Action },
    /// An action was registered on its author's chain.
    RegisterAgentActivity { action: Action },
}

/// What an entry-creating action (a create or an update) says it stores.
pub open spec fn created_kind(k: ActionKind) -> Option<EntryKind> {
    match k {
        ActionKind::Create { entry_kind } => Some(entry_kind),
        ActionKind::Update { entry_kind, .. } => Some(entry_kind),
        _ => None,
    }
}

/// Whether `entry` is the payload that an action declaring `kind` must carry.
pub open spec fn payload_fits(kind: EntryKind, entry: Option<Entry>) -> bool {
    match kind {
        EntryKind::App(t) => entry is Some && entry->Some_0.entry_type_spec() == t,
        _ => true,
    }
}

/// Verdict on creating an entry of kind `kind` with payload `entry`.
pub open spec fn create_verdict(kind: EntryKind, entry: Option<Entry>) -> Result<
    Outcome,
    ValidationError,
> {
    if !payload_fits(kind, entry) {
        Err(ValidationError::Malformed(Malformed::PayloadDoesNotFitAction))
    } else if kind is App {
        Ok(create_outcome(entry->Some_0))
    } else {
        Ok(Outcome::Valid)
    }
}

/// Verdict on updating the action `original` by an entry of kind `kind` with
/// payload `entry`.
pub open spec fn update_verdict(
    s: Seq<Record>,
    kind: EntryKind,
    entry: Option<Entry>,
    original: u64,
) -> Result<Outcome, ValidationError> {
    if !payload_fits(kind, entry) {
        Err(ValidationError::Malformed(Malformed::PayloadDoesNotFitAction))
    } else if !(kind is App) {
        Ok(Outcome::Valid)
    } else {
        match lookup(s, original) {
            None => Err(ValidationError::Unresolvable(original)),
            Some(rec) => if created_kind(rec.action.kind) is None {
                Ok(Outcome::Invalid(Reason::UpdateOriginalNotEntryCreation))
            } else {
                match rec.entry {
                    None => Err(ValidationError::Unresolvable(original)),
                    Some(o) => Ok(update_outcome(entry->Some_0, o)),
                }
            },
        }
    }
}

/// Verdict on deleting what the action `original` created.
pub open spec fn delete_verdict(s: Seq<Record>, original: u64) -> Result<Outcome, ValidationError> {
    match lookup(s, original) {
        None => Err(ValidationError::Unresolvable(original)),
        Some(rec) => match created_kind(rec.action.kind) {
            None => Ok(Outcome::Invalid(Reason::DeleteOriginalNotEntryCreation)),
            Some(EntryKind::App(_)) => match rec.entry {
                None => Err(ValidationError::Unresolvable(original)),
                Some(o) => Ok(delete_outcome(o)),
            },
            Some(_) => Ok(Outcome::Valid),
        },
    }
}

/// Verdict on deleting the link that the action `create_link` created.
pub open spec fn delete_link_verdict(s: Seq<Record>, create_link: u64) -> Result<
    Outcome,
    ValidationError,
> {
    match lookup(s, create_link) {
        None => Err(ValidationError::Unresolvable(create_link)),
        Some(rec) => match rec.action.kind {
            ActionKind::CreateLink { link_type, .. } => Ok(delete_link_outcome(link_type)),
            _ => Err(ValidationError::Malformed(Malformed::DeleteLinkTargetNotCreateLink)),
        },
    }
}

/// Verdict on an agent publishing its key, where `prev` is the action before
/// it on its chain: that must be the agent's validation package.
pub open spec fn new_agent_verdict(s: Seq<Record>, prev: Option<u64>) -> Result<
    Outcome,
    ValidationError,
> {
    match prev {
        None => Err(ValidationError::Malformed(Malformed::NoPreviousAction)),
        Some(p) => match lookup(s, p) {
            None => Err(ValidationError::Unresolvable(p)),
            Some(rec) => if rec.action.kind is AgentValidationPkg {
                Ok(Outcome::Valid)
            } else {
                Ok(Outcome::Invalid(Reason::PreviousNotValidationPackage))
            },
        },
    }
}

/// Verdict on a whole record.
pub open spec fn record_verdict(s: Seq<Record>, r: Record) -> Result<Outcome, ValidationError> {
    match r.action.kind {
        ActionKind::Create { entry_kind } => create_verdict(entry_kind, r.entry),
        ActionKind::Update { original_action, entry_kind } => update_verdict(
            s,
            entry_kind,
            r.entry,
            original_action,
        ),
        ActionKind::Delete { deletes_address } => delete_verdict(s, deletes_address),
        ActionKind::CreateLink { link_type, .. } => Ok(create_link_outcome(link_type)),
        ActionKind::DeleteLink { link_add_address, .. } => delete_link_verdict(s, link_add_address),
        _ => Ok(Outcome::Valid),
    }
}

/// The verdict on operation `op`, given the records `s` the store holds.
pub open spec fn verdict(s: Seq<Record>, op: Op) -> Result<Outcome, ValidationError> {
    let misfit = Err(ValidationError::Malformed(Malformed::ActionDoesNotFitOperation));
    match op {
        Op::StoreEntry { action, entry } => match action.kind {
            ActionKind::Create { entry_kind } => create_verdict(entry_kind, entry),
            ActionKind::Update { original_action, entry_kind } => update_verdict(
                s,
                entry_kind,
                entry,
                original_action,
            ),
            _ => misfit,
        },
        Op::StoreRecord { record } => record_verdict(s, record),
        Op::RegisterUpdate { action, entry } => match action.kind {
            ActionKind::Update { original_action, entry_kind } => update_verdict(
                s,
                entry_kind,
                entry,
                original_action,
            ),
            _ => misfit,
        },
        Op::RegisterDelete { action } => match action.kind {
            ActionKind::Delete { deletes_address } => delete_verdict(s, deletes_address),
            _ => misfit,
        },
        Op::RegisterCreateLink { action } => match action.kind {
            ActionKind::CreateLink { link_type, .. } => Ok(create_link_outcome(link_type)),
            _ => misfit,
        },
        Op::RegisterDeleteLink { action } => match action.kind {
            ActionKind::DeleteLink { link_add_address, .. } => delete_link_verdict(
                s,
                link_add_address,
            ),
            _ => misfit,
        },
        Op::RegisterAgentActivity { action } => match action.kind {
            ActionKind::Create { entry_kind: EntryKind::AgentKey } => new_agent_verdict(
                s,
                action.prev_action,
            ),
            _ => Ok(Outcome::Valid),
        },
    }
}

fn check_payload<'a>(kind: EntryKind, entry: &'a Option<Entry>) -> (r: Result<
    Option<&'a Entry>,
    ValidationError,
>)
    ensures
        payload_fits(kind, *entry) <==> r is Ok,
        r matches Ok(p) ==> (kind is App <==> p is Some),
        r matches Ok(Some(e)) ==> *entry == Some(*e),
        r is Err ==> r == Err::<Option<&Entry>, _>(
            ValidationError::Malformed(Malformed::PayloadDoesNotFitAction),
        ),
{
    match kind {
        EntryKind::App(t) => match entry {
            Some(e) => {
                if e.entry_type() == t {
                    Ok(Some(e))
                } else {
                    Err(ValidationError::Malformed(Malformed::PayloadDoesNotFitAction))
                }
            },
            None => Err(ValidationError::Malformed(Malformed::PayloadDoesNotFitAction)),
        },
        _ => Ok(None),
    }
}

fn check_create(action: &Action, kind: EntryKind, entry: &Option<Entry>) -> (r: Result<
    Outcome,
    ValidationError,
>)
    ensures
        r == create_verdict(kind, *entry),
{
    match check_payload(kind, entry) {
        Err(e) => Err(e),
        Ok(None) => Ok(Outcome::Valid),
        Ok(Some(e)) => Ok(validate_create_entry(action, e)),
    }
}

fn check_update(
    store: &Store,
    action: &Action,
    kind: EntryKind,
    entry: &Option<Entry>,
    original: u64,
) -> (r: Result<Outcome, ValidationError>)
    ensures
        r == update_verdict(store.records@, kind, *entry, original),
{
    let e = match check_payload(kind, entry) {
        Err(err) => return Err(err),
        Ok(None) => return Ok(Outcome::Valid),
        Ok(Some(e)) => e,
    };
    let rec = match store.get_record(original) {
        None => return Err(ValidationError::Unresolvable(original)),
        Some(rec) => rec,
    };
    match rec.action.kind {
        ActionKind::Create { .. } | ActionKind::Update { .. } => {},
        _ => return Ok(Outcome::Invalid(Reason::UpdateOriginalNotEntryCreation)),
    }
    match &rec.entry {
        None => Err(ValidationError::Unresolvable(original)),
        Some(o) => Ok(validate_update_entry(action, e, &rec.action, o)),
    }
}

fn check_delete(store: &Store, action: &Action, original: u64) -> (r: Result<
    Outcome,
    ValidationError,
>)
    ensures
        r == delete_verdict(store.records@, original),
{
    let rec = match store.get_record(original) {
        None => return Err(ValidationError::Unresolvable(original)),
        Some(rec) => rec,
    };
    let kind = match rec.action.kind {
        ActionKind::Create { entry_kind } => entry_kind,
        ActionKind::Update { entry_kind, .. } => entry_kind,
        _ => return Ok(Outcome::Invalid(Reason::DeleteOriginalNotEntryCreation)),
    };
    match kind {
        EntryKind::App(_) => match &rec.entry {
            None => Err(ValidationError::Unresolvable(original)),
            Some(o) => Ok(validate_delete_entry(action, &rec.action, o)),
        },
        _ => Ok(Outcome::Valid),
    }
}

fn check_delete_link(store: &Store, action: &Action, create_link: u64) -> (r: Result<
    Outcome,
    ValidationError,
>)
    ensures
        r == delete_link_verdict(store.records@, create_link),
{
    let rec = match store.get_record(create_link) {
        None => return Err(ValidationError::Unresolvable(create_link)),
        Some(rec) => rec,
    };
    match rec.action.kind {
        ActionKind::CreateLink { base, target, link_type } => Ok(
            validate_delete_link(action, &rec.action, link_type, base, target),
        ),
        _ => Err(ValidationError::Malformed(Malformed::DeleteLinkTargetNotCreateLink)),
    }
}

fn check_new_agent(store: &Store, action: &Action) -> (r: Result<Outcome, ValidationError>)
    ensures
        r == new_agent_verdict(store.records@, action.prev_action),
{
    let p = match action.prev_action {
        None => return Err(ValidationError::Malformed(Malformed::NoPreviousAction)),
        Some(p) => p,
    };
    let rec = match store.get_record(p) {
        None => return Err(ValidationError::Unresolvable(p)),
        Some(rec) => rec,
    };
    match rec.action.kind {
        ActionKind::AgentValidationPkg { membrane_proof } => Ok(
            validate_agent_joining(action.author, membrane_proof),
        ),
        _ => Ok(Outcome::Invalid(Reason::PreviousNotValidationPackage)),
    }
}

fn check_record(store: &Store, record: &Record) -> (r: Result<Outcome, ValidationError>)
    ensures
        r == record_verdict(store.records@, *record),
{
    let action = &record.action;
    match action.kind {
        ActionKind::Create { entry_kind } => check_create(action, entry_kind, &record.entry),
        ActionKind::Update { original_action, entry_kind } => check_update(
            store,
            action,
            entry_kind,
            &record.entry,
            original_action,
        ),
        ActionKind::Delete { deletes_address } => check_delete(store, action, deletes_address),
        ActionKind::CreateLink { base, target, link_type } => Ok(
            validate_create_link(action, link_type, base, target),
        ),
        ActionKind::DeleteLink { link_add_address, .. } => check_delete_link(
            store,
            action,
            link_add_address,
        ),
        _ => Ok(Outcome::Valid),
    }
}

/// Decides whether `op` may be admitted, fetching from `store` the records it
/// refers to. `Ok` carries the rule's verdict; `Err` says that a record is
/// missing or that the operation has a shape no honest peer produces.
pub fn classify_and_validate(store: &Store, op: &Op) -> (r: Result<Outcome, ValidationError>)
    ensures
        r == verdict(store.records@, *op),
{
    let misfit = ValidationError::Malformed(Malformed::ActionDoesNotFitOperation);
    match op {
        Op::StoreEntry { action, entry } => match action.kind {
            ActionKind::Create { entry_kind } => check_create(action, entry_kind, entry),
            ActionKind::Update { original_action, entry_kind } => check_update(
                store,
                action,
                entry_kind,
                entry,
                original_action,
            ),
            _ => Err(misfit),
        },
        Op::StoreRecord { record } => check_record(store, record),
        Op::RegisterUpdate { action, entry } => match action.kind {
            ActionKind::Update { original_action, entry_kind } => check_update(
                store,
                action,
                entry_kind,
                entry,
                original_action,
            ),
            _ => Err(misfit),
        },
        Op::RegisterDelete { action } => match action.kind {
            ActionKind::Delete { deletes_address } => check_delete(store, action, deletes_address),
            _ => Err(misfit),
        },
        Op::RegisterCreateLink { action } => match action.kind {
            ActionKind::CreateLink { base, target, link_type } => Ok(
                validate_create_link(action, link_type, base, target),
            ),
            _ => Err(misfit),
        },
        Op::RegisterDeleteLink { action } => match action.kind {
            ActionKind::DeleteLink { link_add_address, .. } => check_delete_link(
                store,
                action,
                link_add_address,
            ),
            _ => Err(misfit),
        },
        Op::RegisterAgentActivity { action } => match action.kind {
            ActionKind::Create { entry_kind: EntryKind::AgentKey } => check_new_agent(store, action),
            _ => Ok(Outcome::Valid),
        },
    }
}

/// Creating a post or a comment is accepted, whether the creation is seen as a
/// stored entry or as a stored record, provided its payload is the entry its
/// action declares.
pub proof fn lemma_creations_accepted(s: Seq<Record>, hash: u64, action: Action, e: Entry)
    requires
        action.kind == (ActionKind::Create { entry_kind: EntryKind::App(e.entry_type_spec()) }),
    ensures
        verdict(s, Op::StoreEntry { action, entry: Some(e) }) == Ok::<Outcome, ValidationError>(
            Outcome::Valid,
        ),
        verdict(s, Op::StoreRecord { record: Record { hash, action, entry: Some(e) } }) == Ok::<
            Outcome,
            ValidationError,
        >(Outcome::Valid),
{
}

/// An update whose original resolves to a created entry of its own type is
/// refused with the fixed reason when that type is a comment, and accepted
/// when it is a post, however the update reaches the classifier.
pub proof fn lemma_updates_by_type(
    s: Seq<Record>,
    hash: u64,
    action: Action,
    e: Entry,
    original: Record,
)
    requires
        action.kind == (ActionKind::Update {
            original_action: original.hash,
            entry_kind: EntryKind::App(e.entry_type_spec()),
        }),
        lookup(s, original.hash) == Some(original),
        created_kind(original.action.kind) is Some,
        original.entry is Some,
        original.entry->Some_0.entry_type_spec() == e.entry_type_spec(),
    ensures
        ({
            let expected = if e is Comment {
                Ok::<Outcome, ValidationError>(Outcome::Invalid(Reason::CommentsCannotBeUpdated))
            } else {
                Ok::<Outcome, ValidationError>(Outcome::Valid)
            };
            &&& verdict(s, Op::StoreEntry { action, entry: Some(e) }) == expected
            &&& verdict(s, Op::RegisterUpdate { action, entry: Some(e) }) == expected
            &&& verdict(s, Op::StoreRecord { record: Record { hash, action, entry: Some(e) } })
                == expected
        }),
{
}

/// Deleting a post or a comment whose creating record the store holds is
/// accepted.
pub proof fn lemma_deletions_accepted(s: Seq<Record>, hash: u64, action: Action, original: Record)
    requires
        action.kind == (ActionKind::Delete { deletes_address: original.hash }),
        lookup(s, original.hash) == Some(original),
        created_kind(original.action.kind) matches Some(EntryKind::App(t)),
        original.entry is Some,
    ensures
        verdict(s, Op::RegisterDelete { action }) == Ok::<Outcome, ValidationError>(
            Outcome::Valid,
        ),
        verdict(s, Op::StoreRecord { record: Record { hash, action, entry: None } }) == Ok::<
            Outcome,
            ValidationError,
        >(Outcome::Valid),
{
}

/// Creating a link of any type is accepted.
pub proof fn lemma_link_creations_accepted(s: Seq<Record>, hash: u64, action: Action)
    requires
        action.kind is CreateLink,
    ensures
        verdict(s, Op::RegisterCreateLink { action }) == Ok::<Outcome, ValidationError>(
            Outcome::Valid,
        ),
        verdict(s, Op::StoreRecord { record: Record { hash, action, entry: None } }) == Ok::<
            Outcome,
            ValidationError,
        >(Outcome::Valid),
{
}

/// Deleting a link of either index (all posts, post updates) is refused with
/// the fixed reason of that index.
pub proof fn lemma_index_links_undeletable(s: Seq<Record>, hash: u64, action: Action, created: Record)
    requires
        action.kind matches ActionKind::DeleteLink { link_add_address, .. } && link_add_address
            == created.hash,
        lookup(s, created.hash) == Some(created),
        created.action.kind matches ActionKind::CreateLink { link_type, .. } && (link_type
            == LinkType::AllPosts || link_type == LinkType::PostUpdates),
    ensures
        ({
            let expected = if created.action.kind->link_type == LinkType::AllPosts {
                Ok::<Outcome, ValidationError>(
                    Outcome::Invalid(Reason::AllPostsLinksCannotBeDeleted),
                )
            } else {
                Ok::<Outcome, ValidationError>(
                    Outcome::Invalid(Reason::PostUpdatesLinksCannotBeDeleted),
                )
            };
            &&& verdict(s, Op::RegisterDeleteLink { action }) == expected
            &&& verdict(s, Op::StoreRecord { record: Record { hash, action, entry: None } })
                == expected
        }),
{
}

} // verus!
