use vstd::prelude::*;

verus! {

/// The kinds of application entries.
#[derive(Clone, Copy, Debug, PartialEq, Eq, Structural)]
pub enum EntryType {
    Post,
    Comment,
}

/// The kinds of links between addresses.
#[derive(Clone, Copy, Debug, PartialEq, Eq, Structural)]
pub enum LinkType {
    /// From an original post to every action that updated it.
    PostUpdates,
    /// From a post to every comment on it.
    PostToComments,
    /// From the `all_posts` anchor to every post.
    AllPosts,
}

/// What an entry-creating action declares it stores.
#[derive(Clone, Copy, Debug, PartialEq, Eq, Structural)]
pub enum EntryKind {
    /// A public application entry, whose payload is published with it.
    App(EntryType),
    /// A private application entry, whose payload stays on its author's chain.
    PrivateApp(EntryType),
    /// An agent's public key.
    AgentKey,
    CapClaim,
    CapGrant,
}

/// An address that a link can point from or to.
#[derive(Clone, Copy, Debug, PartialEq, Eq, Structural)]
pub enum Linkable {
    Action(u64),
    Entry(u64),
    External(u64),
}

/// The kinds of actions on an agent's chain, with what each refers to.
#[derive(Clone, Copy, Debug, PartialEq, Eq, Structural)]
pub enum ActionKind {
    Dna,
    AgentValidationPkg { membrane_proof: Option<u64> },
    InitZomesComplete,
    OpenChain,
    CloseChain,
    Create { entry_kind: EntryKind },
    Update { original_action: u64, entry_kind: EntryKind },
    Delete { deletes_address: u64 },
    CreateLink { base: u64, target: Linkable, link_type: LinkType },
    DeleteLink { link_add_address: u64, base: u64 },
}

/// An action: author, position on the author's chain, time, and what it does.
#[derive(Clone, Copy, Debug, PartialEq, Eq, Structural)]
pub struct Action {
    pub author: u64,
    pub seq: u32,
    /// Microseconds since the epoch.
    pub timestamp: i64,
    pub prev_action: Option<u64>,
    pub kind: ActionKind,
}

/// An action together with its hash.
#[derive(Clone, Copy, Debug, PartialEq, Eq, Structural)]
pub struct HashedAction {
    pub hash: u64,
    pub action: Action,
}

/// A top-level forum document.
#[derive(Clone, Debug)]
pub struct Post {
    pub title: String,
    pub content: String,
}

/// A comment on a post.
#[derive(Clone, Debug)]
pub struct Comment {
    pub comment: String,
    pub post_hash: u64,
}

/// A decoded application entry.
#[derive(Clone, Debug)]
pub enum Entry {
    Post(Post),
    Comment(Comment),
}

impl Entry {
    pub open spec fn entry_type_spec(self) -> EntryType {
        match self {
            Entry::Post(_) => EntryType::Post,
            Entry::Comment(_) => EntryType::Comment,
        }
    }

    /// The type of this entry.
    pub fn entry_type(&self) -> (r: EntryType)
        ensures
            r == self.entry_type_spec(),
    {
        match self {
            Entry::Post(_) => EntryType::Post,
            Entry::Comment(_) => EntryType::Comment,
        }
    }
}

/// A stored action, its hash, and the application entry it carries. `entry`
/// is `None` when the entry is not held locally; the rules then treat it as
/// not found, never as a reason to refuse.
#[derive(Clone, Debug)]
pub struct Record {
    pub hash: u64,
    pub action: Action,
    pub entry: Option<Entry>,
}

/// A live link, as read back from the store.
#[derive(Clone, Copy, Debug, PartialEq, Eq, Structural)]
pub struct Link {
    /// Hash of the action that created the link.
    pub create_link_hash: u64,
    pub author: u64,
    pub timestamp: i64,
    pub base: u64,
    pub target: Linkable,
    pub link_type: LinkType,
}

/// Why a rule refused an operation. Each has a fixed message.
#[derive(Clone, Copy, Debug, PartialEq, Eq, Structural)]
pub enum Reason {
    CommentsCannotBeUpdated,
    PostUpdatesLinksCannotBeDeleted,
    AllPostsLinksCannotBeDeleted,
    EntryTypesDiffer,
    UpdateOriginalNotEntryCreation,
    DeleteOriginalNotEntryCreation,
    PreviousNotValidationPackage,
}

impl Reason {
    /// The message that goes with this reason.
    pub fn message(&self) -> (r: &'static str)
        ensures
            r@ == self.message_spec()@,
    {
        match self {
            Reason::CommentsCannotBeUpdated => "Comments cannot be updated",
            Reason::PostUpdatesLinksCannotBeDeleted => "PostUpdates links cannot be deleted",
            Reason::AllPostsLinksCannotBeDeleted => "AllPosts links cannot be deleted",
            Reason::EntryTypesDiffer => "Original and updated entry types must be the same",
            Reason::UpdateOriginalNotEntryCreation =>
                "Original action for an update must be a Create or Update action",
            Reason::DeleteOriginalNotEntryCreation =>
                "Original action for a delete must be a Create or Update action",
            Reason::PreviousNotValidationPackage =>
                "The previous action for a `CreateAgent` action must be an `AgentValidationPkg`",
        }
    }

    pub open spec fn message_spec(self) -> &'static str {
        match self {
            Reason::CommentsCannotBeUpdated => "Comments cannot be updated",
            Reason::PostUpdatesLinksCannotBeDeleted => "PostUpdates links cannot be deleted",
            Reason::AllPostsLinksCannotBeDeleted => "AllPosts links cannot be deleted",
            Reason::EntryTypesDiffer => "Original and updated entry types must be the same",
            Reason::UpdateOriginalNotEntryCreation =>
                "Original action for an update must be a Create or Update action",
            Reason::DeleteOriginalNotEntryCreation =>
                "Original action for a delete must be a Create or Update action",
            Reason::PreviousNotValidationPackage =>
                "The previous action for a `CreateAgent` action must be an `AgentValidationPkg`",
        }
    }
}

/// The verdict of a validation rule.
#[derive(Clone, Copy, Debug, PartialEq, Eq, Structural)]
pub enum Outcome {
    Valid,
    Invalid(Reason),
}

/// Shapes that no well-formed operation has.
#[derive(Clone, Copy, Debug, PartialEq, Eq, Structural)]
pub enum Malformed {
    /// The operation's action is not of the kind the operation carries.
    ActionDoesNotFitOperation,
    /// A public application entry's payload is missing or of another type
    /// than its action declares.
    PayloadDoesNotFitAction,
    /// The action that a link deletion refers to is not a link creation.
    DeleteLinkTargetNotCreateLink,
    /// An agent's key was published with no action before it.
    NoPreviousAction,
}

/// Why no verdict could be reached on an operation.
#[derive(Clone, Copy, Debug, PartialEq, Eq, Structural)]
pub enum ValidationError {
    /// The store holds no record for this hash, or not the entry of the
    /// record (yet): worth retrying.
    Unresolvable(u64),
    Malformed(Malformed),
}

/// Why a revision query could not be answered.
#[derive(Clone, Copy, Debug, PartialEq, Eq, Structural)]
pub enum ResolveError {
    /// A revision link points at something other than an action.
    TargetNotAction,
}

} // verus!
