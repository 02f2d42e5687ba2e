//! The rules of each entry type and link type. Creating anything is allowed;
//! posts may be updated and comments may not; entries may be deleted. The two
//! indexes, all posts and post updates, are append-only: their links may not
//! be deleted.
//!
//! Open question: whether a post-to-comment link may be deleted. The rule
//! sets this forum has had disagree, one refusing every such deletion and one
//! allowing it. This library allows it, so that deleting a comment can also
//! remove the link to it from its post and leave no dangling link; whether
//! these links should rather be append-only is left to the forum's owners.
use vstd::prelude::*;
use crate::types::{Action, Comment, Entry, LinkType, Linkable, Outcome, Post, Reason};

verus! {

/// Verdict on creating an application entry.
pub open spec fn create_outcome(e: Entry) -> Outcome {
    Outcome::Valid
}

/// Verdict on replacing `original` by `updated`, once `updated` passes as a
/// creation: the two must be of one type, and only posts may change.
pub open spec fn update_outcome(updated: Entry, original: Entry) -> Outcome {
    if create_outcome(updated) != Outcome::Valid {
        create_outcome(updated)
    } else {
        match (updated, original) {
            (Entry::Post(_), Entry::Post(_)) => Outcome::Valid,
            (Entry::Comment(_), Entry::Comment(_)) => Outcome::Invalid(
                Reason::CommentsCannotBeUpdated,
            ),
            _ => Outcome::Invalid(Reason::EntryTypesDiffer),
        }
    }
}

/// Verdict on deleting an application entry.
pub open spec fn delete_outcome(original: Entry) -> Outcome {
    Outcome::Valid
}

/// Verdict on creating a link of type `t`.
pub open spec fn create_link_outcome(t: LinkType) -> Outcome {
    Outcome::Valid
}

/// Verdict on deleting a link of type `t`.
pub open spec fn delete_link_outcome(t: LinkType) -> Outcome {
    match t {
        LinkType::PostUpdates => Outcome::Invalid(Reason::PostUpdatesLinksCannotBeDeleted),
        LinkType::PostToComments => Outcome::Valid,
        LinkType::AllPosts => Outcome::Invalid(Reason::AllPostsLinksCannotBeDeleted),
    }
}

pub fn validate_create_post(action: &Action, post: &Post) -> (r: Outcome)
    ensures
        r == Outcome::Valid,
{
    Outcome::Valid
}

pub fn validate_update_post(
    action: &Action,
    post: &Post,
    original_action: &Action,
    original_post: &Post,
) -> (r: Outcome)
    ensures
        r == Outcome::Valid,
{
    Outcome::Valid
}

pub fn validate_delete_post(action: &Action, original_action: &Action, original_post: &Post) -> (r:
    Outcome)
    ensures
        r == Outcome::Valid,
{
    Outcome::Valid
}

pub fn validate_create_comment(action: &Action, comment: &Comment) -> (r: Outcome)
    ensures
        r == Outcome::Valid,
{
    Outcome::Valid
}

pub fn validate_update_comment(
    action: &Action,
    comment: &Comment,
    original_action: &Action,
    original_comment: &Comment,
) -> (r: Outcome)
    ensures
        r == Outcome::Invalid(Reason::CommentsCannotBeUpdated),
{
    Outcome::Invalid(Reason::CommentsCannotBeUpdated)
}

pub fn validate_delete_comment(
    action: &Action,
    original_action: &Action,
    original_comment: &Comment,
) -> (r: Outcome)
    ensures
        r == Outcome::Valid,
{
    Outcome::Valid
}

pub fn validate_create_link_post_updates(action: &Action, base: u64, target: Linkable) -> (r:
    Outcome)
    ensures
        r == Outcome::Valid,
{
    Outcome::Valid
}

pub fn validate_delete_link_post_updates(
    action: &Action,
    original_action: &Action,
    base: u64,
    target: Linkable,
) -> (r: Outcome)
    ensures
        r == Outcome::Invalid(Reason::PostUpdatesLinksCannotBeDeleted),
{
    Outcome::Invalid(Reason::PostUpdatesLinksCannotBeDeleted)
}

pub fn validate_create_link_all_posts(action: &Action, base: u64, target: Linkable) -> (r:
    Outcome)
    ensures
        r == Outcome::Valid,
{
    Outcome::Valid
}

pub fn validate_delete_link_all_posts(
    action: &Action,
    original_action: &Action,
    base: u64,
    target: Linkable,
) -> (r: Outcome)
    ensures
        r == Outcome::Invalid(Reason::AllPostsLinksCannotBeDeleted),
{
    Outcome::Invalid(Reason::AllPostsLinksCannotBeDeleted)
}

pub fn validate_create_link_post_to_comments(action: &Action, base: u64, target: Linkable) -> (r:
    Outcome)
    ensures
        r == Outcome::Valid,
{
    Outcome::Valid
}

pub fn validate_delete_link_post_to_comments(
    action: &Action,
    original_action: &Action,
    base: u64,
    target: Linkable,
) -> (r: Outcome)
    ensures
        r == Outcome::Valid,
{
    Outcome::Valid
}

/// Admission of a new agent, given the membrane proof it joined with: every
/// agent is admitted.
pub fn validate_agent_joining(agent: u64, membrane_proof: Option<u64>) -> (r: Outcome)
    ensures
        r == Outcome::Valid,
{
    Outcome::Valid
}

/// Routes the creation of `entry` to the rule of its type.
pub fn validate_create_entry(action: &Action, entry: &Entry) -> (r: Outcome)
    ensures
        r == create_outcome(*entry),
{
    match entry {
        Entry::Post(p) => validate_create_post(action, p),
        Entry::Comment(c) => validate_create_comment(action, c),
    }
}

/// Routes an update to the rule of the entries' type: the new entry must
/// first pass as a creation, then both must be of one type.
pub fn validate_update_entry(
    action: &Action,
    entry: &Entry,
    original_action: &Action,
    original_entry: &Entry,
) -> (r: Outcome)
    ensures
        r == update_outcome(*entry, *original_entry),
{
    let created = validate_create_entry(action, entry);
    if created != Outcome::Valid {
        return created;
    }
    match (entry, original_entry) {
        (Entry::Post(p), Entry::Post(o)) => validate_update_post(action, p, original_action, o),
        (Entry::Comment(c), Entry::Comment(o)) => validate_update_comment(
            action,
            c,
            original_action,
            o,
        ),
        _ => Outcome::Invalid(Reason::EntryTypesDiffer),
    }
}

/// Routes the deletion of `original_entry` to the rule of its type.
pub fn validate_delete_entry(action: &Action, original_action: &Action, original_entry: &Entry) -> (r:
    Outcome)
    ensures
        r == delete_outcome(*original_entry),
{
    match original_entry {
        Entry::Post(p) => validate_delete_post(action, original_action, p),
        Entry::Comment(c) => validate_delete_comment(action, original_action, c),
    }
}

/// Routes the creation of a link to the rule of its type.
pub fn validate_create_link(action: &Action, link_type: LinkType, base: u64, target: Linkable) -> (r:
    Outcome)
    ensures
        r == create_link_outcome(link_type),
{
    match link_type {
        LinkType::PostUpdates => validate_create_link_post_updates(action, base, target),
        LinkType::PostToComments => validate_create_link_post_to_comments(action, base, target),
        LinkType::AllPosts => validate_create_link_all_posts(action, base, target),
    }
}

/// Routes the deletion of a link to the rule of its type.
pub fn validate_delete_link(
    action: &Action,
    original_action: &Action,
    link_type: LinkType,
    base: u64,
    target: Linkable,
) -> (r: Outcome)
    ensures
        r == delete_link_outcome(link_type),
{
    match link_type {
        LinkType::PostUpdates => validate_delete_link_post_updates(
            action,
            original_action,
            base,
            target,
        ),
        LinkType::PostToComments => validate_delete_link_post_to_comments(
            action,
            original_action,
            base,
            target,
        ),
        LinkType::AllPosts => validate_delete_link_all_posts(action, original_action, base, target),
    }
}

} // verus!
