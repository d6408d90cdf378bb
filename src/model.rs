//! A state model of the tree engine as the protocol sees it, and the laws
//! that the operations' plans obey when run against it.
use vstd::arithmetic::power2::pow2;
use vstd::prelude::*;

use crate::codec::{leaf_of, leaf_preimage, note_log_bytes, text_bytes};
use crate::error::{ErrorClass, NoteError};
use crate::protocol::{
    append_calls, create_calls, failure_error_of, update_calls, Call, EngineFailure,
};

verus! {

/// What the engine holds for one tree, and the side-log beside it.
pub struct TreeModel {
    /// Whether the tree has been created.
    pub initialized: bool,
    /// The (depth, buffer size) pairs the engine accepts.
    pub supported: Set<(nat, nat)>,
    pub max_depth: nat,
    pub max_buffer_size: nat,
    /// The leaves, by index.
    pub leaves: Seq<Seq<u8>>,
    /// The current root.
    pub root: Seq<u8>,
    /// Every root the tree has had.
    pub seen_roots: Set<Seq<u8>>,
    /// The records written to the side-log.
    pub log: Seq<Seq<u8>>,
}

impl TreeModel {
    /// A created tree's current root is among the roots it has had.
    pub open spec fn wf(&self) -> bool {
        self.initialized ==> self.seen_roots.contains(self.root)
    }

    /// Whether `leaf` is at `index` under `root`, `root` being current.
    pub open spec fn attests(&self, root: Seq<u8>, leaf: Seq<u8>, index: nat) -> bool {
        &&& self.initialized
        &&& root == self.root
        &&& index < self.leaves.len()
        &&& self.leaves[index as int] == leaf
    }

    /// The model with `root` as its new current root.
    pub open spec fn with_root(self, root: Seq<u8>) -> TreeModel {
        TreeModel { root, seen_roots: self.seen_roots.insert(root), ..self }
    }
}

/// The effect of one call; `fresh` is the root the engine gives the tree
/// if the call changes it.
pub open spec fn step(s: TreeModel, c: Call, fresh: Seq<u8>) -> Result<TreeModel, EngineFailure> {
    match c {
        Call::Init { max_depth, max_buffer_size } => if s.initialized {
            Err(EngineFailure::AlreadyInitialized)
        } else if !s.supported.contains((max_depth, max_buffer_size)) {
            Err(EngineFailure::UnsupportedShape)
        } else {
            Ok(TreeModel { initialized: true, max_depth, max_buffer_size, leaves: seq![], ..s }.with_root(fresh))
        },
        Call::Append { leaf } => if !s.initialized {
            Err(EngineFailure::Other)
        } else if s.leaves.len() >= pow2(s.max_depth) {
            Err(EngineFailure::TreeFull)
        } else {
            Ok(TreeModel { leaves: s.leaves.push(leaf), ..s }.with_root(fresh))
        },
        Call::Verify { root, leaf, index } => if s.attests(root, leaf, index) {
            Ok(s)
        } else {
            Err(EngineFailure::LeafMismatch)
        },
        Call::Replace { root, old_leaf, new_leaf, index } => if s.attests(root, old_leaf, index) {
            Ok(TreeModel { leaves: s.leaves.update(index as int, new_leaf), ..s }.with_root(fresh))
        } else {
            Err(EngineFailure::LeafMismatch)
        },
        Call::Emit { record } => Ok(TreeModel { log: s.log.push(record), ..s }),
    }
}

/// Runs calls in order, call `i` getting `fresh[i]`; stops at the first
/// failure, which is returned with the position of the failing call.
pub open spec fn run(s: TreeModel, calls: Seq<Call>, fresh: Seq<Seq<u8>>) -> (TreeModel, Option<(nat, EngineFailure)>)
    decreases calls.len(),
{
    if calls.len() == 0 {
        (s, None)
    } else {
        match step(s, calls[0], fresh[0]) {
            Err(f) => (s, Some((0nat, f))),
            Ok(t) => {
                let (u, f) = run(t, calls.drop_first(), fresh.drop_first());
                (u, match f {
                    Some((i, e)) => Some((i + 1, e)),
                    None => None,
                })
            },
        }
    }
}

/// Roots that the engine may hand out: distinct, and new to the tree.
pub open spec fn fresh_for(s: TreeModel, fresh: Seq<Seq<u8>>) -> bool {
    &&& forall|i: int| 0 <= i < fresh.len() ==> !s.seen_roots.contains(#[trigger] fresh[i])
    &&& forall|i: int, j: int| 0 <= i < j < fresh.len() ==> fresh[i] != fresh[j]
}

/// The preimage of a leaf determines the note text and the sender, since
/// senders have a fixed length: a leaf depends on nothing else, and two
/// different notes never share a preimage.
pub proof fn leaf_preimage_unambiguous(c1: Seq<char>, s1: Seq<u8>, c2: Seq<char>, s2: Seq<u8>)
    requires
        s1.len() == 32,
        s2.len() == 32,
    ensures
        (leaf_preimage(text_bytes(c1), s1) == leaf_preimage(text_bytes(c2), s2)) <==> (c1 == c2 && s1 == s2),
        (c1 == c2 && s1 == s2) ==> leaf_of(text_bytes(c1), s1) == leaf_of(text_bytes(c2), s2),
{
    let left = leaf_preimage(text_bytes(c1), s1);
    let right = leaf_preimage(text_bytes(c2), s2);
    if left == right {
        let n = text_bytes(c1).len();
        assert(left.len() == n + 32);
        assert(right.len() == text_bytes(c2).len() + 32);
        assert(text_bytes(c2).len() == n);
        assert(text_bytes(c1) =~= left.subrange(0, n as int));
        assert(text_bytes(c2) =~= right.subrange(0, n as int));
        assert(s1 =~= left.subrange(n as int, left.len() as int));
        assert(s2 =~= right.subrange(n as int, right.len() as int));
        vstd::utf8::encode_utf8_decode_utf8(c1);
        vstd::utf8::encode_utf8_decode_utf8(c2);
    }
}

/// An update whose new text equals the old makes no call and changes
/// nothing.
pub proof fn unchanged_text_update_is_noop(
    s: TreeModel,
    index: nat,
    root: Seq<u8>,
    text: Seq<char>,
    sender: Seq<u8>,
    fresh: Seq<Seq<u8>>,
)
    ensures
        update_calls(index, root, text, text, sender).len() == 0,
        run(s, update_calls(index, root, text, text, sender), fresh) == (s, None::<(nat, EngineFailure)>),
{
}

/// An update whose claimed root is not the tree's current root fails at
/// verification, before any record or mutation, and the operation reports a
/// concurrency conflict.
pub proof fn stale_root_update_conflicts(
    s: TreeModel,
    index: nat,
    root: Seq<u8>,
    old_content: Seq<char>,
    new_content: Seq<char>,
    sender: Seq<u8>,
    fresh: Seq<Seq<u8>>,
)
    requires
        root != s.root,
        old_content != new_content,
    ensures
        run(s, update_calls(index, root, old_content, new_content, sender), fresh)
            == (s, Some((0nat, EngineFailure::LeafMismatch))),
        failure_error_of(update_calls(index, root, old_content, new_content, sender)[0], EngineFailure::LeafMismatch)
            == NoteError::LeafVerificationFailed,
        NoteError::LeafVerificationFailed.spec_class() == ErrorClass::ConcurrencyConflict,
{
}

/// An update whose old text is not the leaf at the index fails at
/// verification and leaves the tree, its root and the side-log unchanged.
pub proof fn mismatched_old_content_fails(
    s: TreeModel,
    index: nat,
    root: Seq<u8>,
    old_content: Seq<char>,
    new_content: Seq<char>,
    sender: Seq<u8>,
    fresh: Seq<Seq<u8>>,
)
    requires
        old_content != new_content,
        index >= s.leaves.len() || s.leaves[index as int] != leaf_of(text_bytes(old_content), sender),
    ensures
        run(s, update_calls(index, root, old_content, new_content, sender), fresh)
            == (s, Some((0nat, EngineFailure::LeafMismatch))),
{
}

/// Creating a tree a second time fails with a configuration error and
/// leaves the shape that the first creation fixed.
pub proof fn create_twice_fails(
    s: TreeModel,
    max_depth: nat,
    max_buffer_size: nat,
    depth_again: nat,
    buffer_again: nat,
    fresh: Seq<Seq<u8>>,
    fresh_again: Seq<Seq<u8>>,
)
    requires
        !s.initialized,
        s.supported.contains((max_depth, max_buffer_size)),
    ensures
        ({
            let (s1, f1) = run(s, create_calls(max_depth, max_buffer_size), fresh);
            let (s2, f2) = run(s1, create_calls(depth_again, buffer_again), fresh_again);
            &&& f1 is None
            &&& s1.initialized
            &&& s1.max_depth == max_depth
            &&& s1.max_buffer_size == max_buffer_size
            &&& f2 == Some((0nat, EngineFailure::AlreadyInitialized))
            &&& s2 == s1
            &&& failure_error_of(create_calls(depth_again, buffer_again)[0], EngineFailure::AlreadyInitialized).spec_class()
                == ErrorClass::Configuration
        }),
{
    reveal_with_fuel(run, 2);
}

/// A message just appended can be updated at once, by its index and the
/// root the append produced: the update succeeds, and the root changes.
pub proof fn append_then_update_succeeds(
    s: TreeModel,
    content: Seq<char>,
    new_content: Seq<char>,
    sender: Seq<u8>,
    fresh: Seq<Seq<u8>>,
)
    requires
        s.wf(),
        s.initialized,
        s.leaves.len() < pow2(s.max_depth),
        content != new_content,
        fresh.len() == 5,
        fresh_for(s, fresh),
    ensures
        ({
            let index = s.leaves.len();
            let (s1, f1) = run(s, append_calls(content, sender), fresh.subrange(0, 2));
            let (s2, f2) = run(
                s1,
                update_calls(index, s1.root, content, new_content, sender),
                fresh.subrange(2, 5),
            );
            let new_leaf = leaf_of(text_bytes(new_content), sender);
            &&& f1 is None
            &&& s1.leaves == s.leaves.push(leaf_of(text_bytes(content), sender))
            &&& s1.root != s.root
            &&& f2 is None
            &&& s2.root != s1.root
            &&& s2.leaves == s1.leaves.update(index as int, new_leaf)
            &&& s2.log == s1.log.push(note_log_bytes(new_leaf, sender, text_bytes(new_content)))
        }),
{
    reveal_with_fuel(run, 4);
    let index = s.leaves.len();
    let a = append_calls(content, sender);
    let fa = fresh.subrange(0, 2);
    let t0 = step(s, a[0], fa[0]);
    let t1 = step(t0->Ok_0, a[1], fa[1]);
    assert(a.drop_first().drop_first() =~= seq![]);
    let s1 = t1->Ok_0;
    let u = update_calls(index, s1.root, content, new_content, sender);
    let fu = fresh.subrange(2, 5);
    assert(u.drop_first().drop_first().drop_first() =~= seq![]);
}

/// A root captured before an append is stale once the append lands: an
/// update that claims it fails at verification and changes nothing.
pub proof fn append_makes_prior_root_stale(
    s: TreeModel,
    content: Seq<char>,
    sender: Seq<u8>,
    index: nat,
    old_content: Seq<char>,
    new_content: Seq<char>,
    fresh: Seq<Seq<u8>>,
    fresh_after: Seq<Seq<u8>>,
)
    requires
        s.wf(),
        s.initialized,
        s.leaves.len() < pow2(s.max_depth),
        old_content != new_content,
        fresh.len() == 2,
        fresh_for(s, fresh),
    ensures
        ({
            let (s1, f1) = run(s, append_calls(content, sender), fresh);
            &&& f1 is None
            &&& run(s1, update_calls(index, s.root, old_content, new_content, sender), fresh_after)
                == (s1, Some((0nat, EngineFailure::LeafMismatch)))
        }),
{
    reveal_with_fuel(run, 3);
    let a = append_calls(content, sender);
    assert(a.drop_first().drop_first() =~= seq![]);
}

} // verus!
