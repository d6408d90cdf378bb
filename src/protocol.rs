use vstd::prelude::*;

use crate::address::Address;
use crate::authority::{bind_authority, program_address_of, signer_seeds, signer_seeds_of, TreeAuthority};
use crate::codec::{create_note_log, encode_leaf, leaf_of, note_fits, note_log_bytes, same_text, text_bytes};
use crate::error::NoteError;

verus! {

/// One call into the tree engine or the side-log, as a value.
#[derive(Clone, Debug)]
pub enum EngineCall {
    /// Allocate and zero the tree with this shape.
    InitTree { max_depth: u32, max_buffer_size: u32 },
    /// Append a leaf at the next free index.
    Append { leaf: [u8; 32] },
    /// Confirm that `leaf` is at `index` under `root`.
    VerifyLeaf { root: [u8; 32], leaf: [u8; 32], index: u32 },
    /// Swap `old_leaf` for `new_leaf` at `index`, expecting `root`.
    ReplaceLeaf { root: [u8; 32], old_leaf: [u8; 32], new_leaf: [u8; 32], index: u32 },
    /// Write a serialized record to the side-log.
    EmitLog { record: Vec<u8> },
}

/// The mathematical form of an engine call.
pub enum Call {
    Init { max_depth: nat, max_buffer_size: nat },
    Append { leaf: Seq<u8> },
    Verify { root: Seq<u8>, leaf: Seq<u8>, index: nat },
    Replace { root: Seq<u8>, old_leaf: Seq<u8>, new_leaf: Seq<u8>, index: nat },
    Emit { record: Seq<u8> },
}

impl View for EngineCall {
    type V = Call;

    open spec fn view(&self) -> Call {
        match self {
            EngineCall::InitTree { max_depth, max_buffer_size } => Call::Init {
                max_depth: *max_depth as nat,
                max_buffer_size: *max_buffer_size as nat,
            },
            EngineCall::Append { leaf } => Call::Append { leaf: leaf@ },
            EngineCall::VerifyLeaf { root, leaf, index } => Call::Verify {
                root: root@,
                leaf: leaf@,
                index: *index as nat,
            },
            EngineCall::ReplaceLeaf { root, old_leaf, new_leaf, index } => Call::Replace {
                root: root@,
                old_leaf: old_leaf@,
                new_leaf: new_leaf@,
                index: *index as nat,
            },
            EngineCall::EmitLog { record } => Call::Emit { record: record@ },
        }
    }
}

/// What the engine reports when a call fails.
#[derive(Clone, Copy, Debug, PartialEq, Eq, Structural)]
pub enum EngineFailure {
    /// The tree account already holds a tree.
    AlreadyInitialized,
    /// The depth and buffer size are not a supported pair.
    UnsupportedShape,
    /// No leaf index is left.
    TreeFull,
    /// Too many changes are in flight.
    BufferSaturated,
    /// The leaf or root given does not match the tree.
    LeafMismatch,
    /// Any other failure.
    Other,
}

/// The calls that an operation makes, in order, and the seeds with which
/// the program signs them. The calls run one after the other; the first
/// failure aborts the rest.
#[derive(Clone, Debug)]
pub struct Plan {
    pub seeds: Vec<Vec<u8>>,
    pub calls: Vec<EngineCall>,
}

impl Plan {
    pub open spec fn calls_view(&self) -> Seq<Call> {
        self.calls@.map_values(|c: EngineCall| c@)
    }

    pub open spec fn seeds_view(&self) -> Seq<Seq<u8>> {
        self.seeds@.map_values(|v: Vec<u8>| v@)
    }
}

/// The accounts of a message operation.
#[derive(Clone, Copy, Debug)]
pub struct MessageAccounts {
    /// The tree account.
    pub merkle_tree: Address,
    /// The authority account, which must be the one derived for the tree.
    pub tree_authority: Address,
    /// The author of the message.
    pub sender: Address,
    /// The addressee of the message.
    pub recipient: Address,
    /// The tree engine's program.
    pub compression_program: Address,
    /// The side-log program.
    pub log_wrapper: Address,
    /// This program, under which the authority is derived.
    pub program_id: Address,
}

/// The accounts of a note-tree creation.
#[derive(Clone, Copy, Debug)]
pub struct NoteAccounts {
    /// The payer, who owns the notes.
    pub owner: Address,
    /// The authority account, which must be the one derived for the tree.
    pub tree_authority: Address,
    /// The tree account.
    pub merkle_tree: Address,
    /// The side-log program.
    pub log_wrapper: Address,
    /// The tree engine's program.
    pub compression_program: Address,
    /// This program, under which the authority is derived.
    pub program_id: Address,
}

/// The bump of the authority bound to `tree`, or why none is.
pub open spec fn authority_outcome(tree: Seq<u8>, given: Seq<u8>, program: Seq<u8>) -> Result<u8, NoteError> {
    match program_address_of(tree, program) {
        Some((a, bump)) => if a == given {
            Ok(bump)
        } else {
            Err(NoteError::AuthorityMismatch)
        },
        None => Err(NoteError::AuthorityDerivationError),
    }
}

/// The calls that create a tree.
pub open spec fn create_calls(max_depth: nat, max_buffer_size: nat) -> Seq<Call> {
    seq![Call::Init { max_depth, max_buffer_size }]
}

/// The calls that append the leaf `leaf` of the text `text`: the record
/// first, then the leaf.
pub open spec fn append_leaf_calls(leaf: Seq<u8>, sender: Seq<u8>, text: Seq<u8>) -> Seq<Call> {
    seq![Call::Emit { record: note_log_bytes(leaf, sender, text) }, Call::Append { leaf }]
}

/// The calls that append a message.
pub open spec fn append_calls(content: Seq<char>, sender: Seq<u8>) -> Seq<Call> {
    append_leaf_calls(leaf_of(text_bytes(content), sender), sender, text_bytes(content))
}

/// The calls that replace `old_leaf` by `new_leaf`, the leaf of `new_text`:
/// verify the old leaf, then log the new record, then replace the leaf.
pub open spec fn replace_calls(
    index: nat,
    root: Seq<u8>,
    old_leaf: Seq<u8>,
    new_leaf: Seq<u8>,
    sender: Seq<u8>,
    new_text: Seq<u8>,
) -> Seq<Call> {
    seq![
        Call::Verify { root, leaf: old_leaf, index },
        Call::Emit { record: note_log_bytes(new_leaf, sender, new_text) },
        Call::Replace { root, old_leaf, new_leaf, index },
    ]
}

/// The calls that update a message: none when the text is unchanged, else
/// those that replace the old leaf by the new.
pub open spec fn update_calls(
    index: nat,
    root: Seq<u8>,
    old_content: Seq<char>,
    new_content: Seq<char>,
    sender: Seq<u8>,
) -> Seq<Call> {
    if old_content == new_content {
        seq![]
    } else {
        replace_calls(
            index,
            root,
            leaf_of(text_bytes(old_content), sender),
            leaf_of(text_bytes(new_content), sender),
            sender,
            text_bytes(new_content),
        )
    }
}

/// What a plan-building operation returns: the authority's failure if any,
/// else `NoteTooLong` when the text does not fit a record, else a plan of
/// these calls signed with the tree's seeds.
pub open spec fn plan_matches(
    r: Result<Plan, NoteError>,
    tree: Seq<u8>,
    auth: Result<u8, NoteError>,
    fits: bool,
    calls: Seq<Call>,
) -> bool {
    match auth {
        Err(e) => r == Err::<Plan, NoteError>(e),
        Ok(bump) => if !fits {
            r == Err::<Plan, NoteError>(NoteError::NoteTooLong)
        } else {
            r matches Ok(p) && p.calls_view() == calls && p.seeds_view() == signer_seeds_of(tree, bump)
        },
    }
}

fn signed_plan(tree: &Address, authority: &TreeAuthority, calls: Vec<EngineCall>) -> (r: Plan)
    ensures
        r.calls_view() == calls@.map_values(|c: EngineCall| c@),
        r.seeds_view() == signer_seeds_of(tree@, authority.bump),
{
    let seeds = signer_seeds(tree, authority);
    let plan = Plan { seeds, calls };
    assert(plan.seeds_view() =~= signer_seeds_of(tree@, authority.bump));
    plan
}

/// Plans the creation of a tree of the given shape, under its authority.
pub fn plan_create(tree: &Address, authority: &TreeAuthority, max_depth: u32, max_buffer_size: u32) -> (r: Plan)
    ensures
        r.calls_view() == create_calls(max_depth as nat, max_buffer_size as nat),
        r.seeds_view() == signer_seeds_of(tree@, authority.bump),
{
    let calls: Vec<EngineCall> = vec![EngineCall::InitTree { max_depth, max_buffer_size }];
    assert(calls@.map_values(|c: EngineCall| c@) =~= create_calls(max_depth as nat, max_buffer_size as nat));
    signed_plan(tree, authority, calls)
}

/// Plans the append of `leaf`, the leaf of `message` by `sender`.
pub fn plan_append(tree: &Address, authority: &TreeAuthority, sender: &Address, leaf: [u8; 32], message: String) -> (r: Result<Plan, NoteError>)
    ensures
        plan_matches(
            r,
            tree@,
            Ok(authority.bump),
            note_fits(text_bytes(message@).len()),
            append_leaf_calls(leaf@, sender@, text_bytes(message@)),
        ),
{
    let ghost text = text_bytes(message@);
    let log = create_note_log(leaf, *sender, message);
    let record = match log.to_bytes() {
        Ok(v) => v,
        Err(e) => {
            return Err(e);
        },
    };
    let mut calls: Vec<EngineCall> = Vec::new();
    calls.push(EngineCall::EmitLog { record });
    calls.push(EngineCall::Append { leaf });
    assert(calls@.map_values(|c: EngineCall| c@) =~= append_leaf_calls(leaf@, sender@, text));
    Ok(signed_plan(tree, authority, calls))
}

/// Plans the replacement of `old_leaf` at `index` under `root` by
/// `new_leaf`, the leaf of `new_message` by `sender`.
pub fn plan_replace(
    tree: &Address,
    authority: &TreeAuthority,
    sender: &Address,
    index: u32,
    root: [u8; 32],
    old_leaf: [u8; 32],
    new_leaf: [u8; 32],
    new_message: String,
) -> (r: Result<Plan, NoteError>)
    ensures
        plan_matches(
            r,
            tree@,
            Ok(authority.bump),
            note_fits(text_bytes(new_message@).len()),
            replace_calls(index as nat, root@, old_leaf@, new_leaf@, sender@, text_bytes(new_message@)),
        ),
{
    let ghost text = text_bytes(new_message@);
    let log = create_note_log(new_leaf, *sender, new_message);
    let record = match log.to_bytes() {
        Ok(v) => v,
        Err(e) => {
            return Err(e);
        },
    };
    let mut calls: Vec<EngineCall> = Vec::new();
    calls.push(EngineCall::VerifyLeaf { root, leaf: old_leaf, index });
    calls.push(EngineCall::EmitLog { record });
    calls.push(EngineCall::ReplaceLeaf { root, old_leaf, new_leaf, index });
    assert(calls@.map_values(|c: EngineCall| c@) =~= replace_calls(
        index as nat,
        root@,
        old_leaf@,
        new_leaf@,
        sender@,
        text,
    ));
    Ok(signed_plan(tree, authority, calls))
}

/// Plans the creation of a message tree of the given shape.
pub fn create_messages_tree(accounts: &MessageAccounts, max_depth: u32, max_buffer_size: u32) -> (r: Result<Plan, NoteError>)
    ensures
        plan_matches(
            r,
            accounts.merkle_tree@,
            authority_outcome(accounts.merkle_tree@, accounts.tree_authority@, accounts.program_id@),
            true,
            create_calls(max_depth as nat, max_buffer_size as nat),
        ),
{
    let authority = bind_authority(&accounts.merkle_tree, &accounts.tree_authority, &accounts.program_id)?;
    Ok(plan_create(&accounts.merkle_tree, &authority, max_depth, max_buffer_size))
}

/// Plans the creation of a note tree of the given shape.
pub fn create_note_tree(accounts: &NoteAccounts, max_depth: u32, max_buffer_size: u32) -> (r: Result<Plan, NoteError>)
    ensures
        plan_matches(
            r,
            accounts.merkle_tree@,
            authority_outcome(accounts.merkle_tree@, accounts.tree_authority@, accounts.program_id@),
            true,
            create_calls(max_depth as nat, max_buffer_size as nat),
        ),
{
    let authority = bind_authority(&accounts.merkle_tree, &accounts.tree_authority, &accounts.program_id)?;
    Ok(plan_create(&accounts.merkle_tree, &authority, max_depth, max_buffer_size))
}

/// Plans the append of a message: its record goes to the side-log, then its
/// leaf is appended. Fails when the authority account is not the tree's, or
/// when the text is too long for a record.
pub fn append_message(accounts: &MessageAccounts, message: String) -> (r: Result<Plan, NoteError>)
    ensures
        plan_matches(
            r,
            accounts.merkle_tree@,
            authority_outcome(accounts.merkle_tree@, accounts.tree_authority@, accounts.program_id@),
            note_fits(text_bytes(message@).len()),
            append_calls(message@, accounts.sender@),
        ),
{
    let authority = bind_authority(&accounts.merkle_tree, &accounts.tree_authority, &accounts.program_id)?;
    let leaf = encode_leaf(message.as_str(), &accounts.sender);
    plan_append(&accounts.merkle_tree, &authority, &accounts.sender, leaf, message)
}

/// Plans the update of the message at `index` under `root`. When the text
/// is unchanged the plan is empty: nothing is verified, logged or replaced.
/// Otherwise the old leaf is verified first, the new record is logged, and
/// the leaf is replaced; the record is thus written before the replacement
/// commits, and an indexer must treat it as provisional until the root moves.
pub fn update_message(
    accounts: &MessageAccounts,
    index: u32,
    root: [u8; 32],
    old_message: String,
    new_message: String,
) -> (r: Result<Plan, NoteError>)
    ensures
        old_message@ == new_message@ ==> (r matches Ok(p) && p.calls@.len() == 0 && p.seeds@.len() == 0),
        old_message@ != new_message@ ==> plan_matches(
            r,
            accounts.merkle_tree@,
            authority_outcome(accounts.merkle_tree@, accounts.tree_authority@, accounts.program_id@),
            note_fits(text_bytes(new_message@).len()),
            update_calls(index as nat, root@, old_message@, new_message@, accounts.sender@),
        ),
{
    if same_text(old_message.as_str(), new_message.as_str()) {
        return Ok(Plan { seeds: Vec::new(), calls: Vec::new() });
    }
    let authority = bind_authority(&accounts.merkle_tree, &accounts.tree_authority, &accounts.program_id)?;
    let old_leaf = encode_leaf(old_message.as_str(), &accounts.sender);
    let new_leaf = encode_leaf(new_message.as_str(), &accounts.sender);
    plan_replace(&accounts.merkle_tree, &authority, &accounts.sender, index, root, old_leaf, new_leaf, new_message)
}

/// The error an operation reports when `call` fails with `failure`.
pub open spec fn failure_error_of(call: Call, failure: EngineFailure) -> NoteError {
    match failure {
        EngineFailure::AlreadyInitialized => NoteError::TreeAlreadyInitialized,
        EngineFailure::UnsupportedShape => NoteError::InvalidTreeParameters,
        EngineFailure::TreeFull => NoteError::TreeCapacityExceeded,
        EngineFailure::BufferSaturated => NoteError::ConcurrentModificationLimitExceeded,
        EngineFailure::LeafMismatch => match call {
            Call::Verify { .. } => NoteError::LeafVerificationFailed,
            Call::Replace { .. } => NoteError::ConcurrentRootMismatch,
            _ => NoteError::EngineFailure,
        },
        EngineFailure::Other => NoteError::EngineFailure,
    }
}

/// Maps the failure of one call of a plan to the operation's error.
pub fn failure_error(call: &EngineCall, failure: EngineFailure) -> (r: NoteError)
    ensures
        r == failure_error_of(call@, failure),
{
    match failure {
        EngineFailure::AlreadyInitialized => NoteError::TreeAlreadyInitialized,
        EngineFailure::UnsupportedShape => NoteError::InvalidTreeParameters,
        EngineFailure::TreeFull => NoteError::TreeCapacityExceeded,
        EngineFailure::BufferSaturated => NoteError::ConcurrentModificationLimitExceeded,
        EngineFailure::LeafMismatch => match call {
            EngineCall::VerifyLeaf { .. } => NoteError::LeafVerificationFailed,
            EngineCall::ReplaceLeaf { .. } => NoteError::ConcurrentRootMismatch,
            _ => NoteError::EngineFailure,
        },
        EngineFailure::Other => NoteError::EngineFailure,
    }
}

} // verus!
