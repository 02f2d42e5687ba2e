//! Validation and revision resolution for a forum of posts and comments kept
//! in an append-only, content-addressed record store.
//!
//! Every operation observed on the network is classified and routed to the
//! validation rule of the entry or link type it concerns (`classify`), and the
//! current state of a post is resolved from the update and delete actions
//! attached to it (`revisions`). The store is seen through a snapshot of its
//! records (`store`); all hashes are plain integers.
pub mod types;
pub mod validators;
pub mod store;
pub mod classify;
pub mod revisions;

pub use types::{
    Action, ActionKind, Comment, Entry, EntryKind, EntryType, HashedAction, Link, LinkType,
    Linkable, Malformed, Outcome, Post, Reason, Record, ResolveError, ValidationError,
};
pub use validators::{
    validate_agent_joining, validate_create_comment, validate_create_entry, validate_create_link,
    validate_create_link_all_posts, validate_create_link_post_to_comments,
    validate_create_link_post_updates, validate_create_post, validate_delete_comment,
    validate_delete_entry, validate_delete_link, validate_delete_link_all_posts,
    validate_delete_link_post_to_comments, validate_delete_link_post_updates,
    validate_delete_post, validate_update_comment, validate_update_entry, validate_update_post,
};
pub use store::Store;
pub use classify::{classify_and_validate, Op};
pub use revisions::{
    all_deletes, all_revisions, deleted_children, get_all_posts, latest, links_pointing_to, links_to_remove,
    oldest_delete, pick_latest, pick_oldest, revisions_from_links, LinkDetails,
};
