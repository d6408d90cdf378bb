use anchor_lang::prelude::Pubkey;
use anchor_lang::solana_program::keccak;
use compressed_notes::address::Address;
use compressed_notes::authority::{bind_authority, derive_authority, signer_seeds};
use compressed_notes::codec::{create_note_log, encode_leaf, same_text};
use compressed_notes::error::{ErrorClass, NoteError};
use compressed_notes::protocol::{
    append_message, create_messages_tree, create_note_tree, failure_error, plan_append,
    plan_create, plan_replace, update_message,
    EngineCall, EngineFailure, MessageAccounts, NoteAccounts, Plan,
};

fn addr(b: u8) -> Address {
    Address::new([b; 32])
}

fn program() -> Address {
    addr(200)
}

fn tree() -> Address {
    addr(100)
}

fn authority_of(tree: &Address) -> Address {
    let (key, _) = Pubkey::find_program_address(
        &[tree.bytes.as_slice()],
        &Pubkey::new_from_array(program().bytes),
    );
    Address::new(key.to_bytes())
}

fn accounts(sender: u8, recipient: u8) -> MessageAccounts {
    MessageAccounts {
        merkle_tree: tree(),
        tree_authority: authority_of(&tree()),
        sender: addr(sender),
        recipient: addr(recipient),
        compression_program: addr(7),
        log_wrapper: addr(8),
        program_id: program(),
    }
}

fn record(leaf: [u8; 32], owner: &Address, text: &str) -> Vec<u8> {
    let mut v = leaf.to_vec();
    v.extend_from_slice(&owner.bytes);
    v.extend_from_slice(&(text.len() as u32).to_le_bytes());
    v.extend_from_slice(text.as_bytes());
    v
}

fn expect_leaf(text: &str, sender: &Address) -> [u8; 32] {
    keccak::hash(&[text.as_bytes(), &sender.bytes].concat()).to_bytes()
}

fn seeds_ok(plan: &Plan) {
    let (_, bump) = Pubkey::find_program_address(
        &[tree().bytes.as_slice()],
        &Pubkey::new_from_array(program().bytes),
    );
    assert_eq!(plan.seeds, vec![tree().bytes.to_vec(), vec![bump]]);
}

#[test]
fn leaf_is_keccak_of_text_then_sender() {
    let a = addr(1);
    assert_eq!(encode_leaf("hello", &a), expect_leaf("hello", &a));
    assert_ne!(encode_leaf("hello", &a), [0u8; 32]);
    assert_eq!(encode_leaf("", &a), keccak::hash(&a.bytes).to_bytes());
}

#[test]
fn leaf_is_deterministic_and_distinct_over_many_pairs() {
    let texts = ["", "a", "b", "ab", "hello", "world", "x", "hello world", "héllo"];
    let mut seen: Vec<[u8; 32]> = Vec::new();
    for s in 0u8..8 {
        for t in texts.iter() {
            let leaf = encode_leaf(t, &addr(s));
            assert_eq!(leaf, encode_leaf(t, &addr(s)));
            assert!(!seen.contains(&leaf));
            seen.push(leaf);
        }
    }
    assert_eq!(seen.len(), 8 * texts.len());
}

#[test]
fn note_log_wire_bytes() {
    let owner = addr(3);
    let log = create_note_log([9u8; 32], owner, "hi".to_string());
    let bytes = log.to_bytes().unwrap();
    assert_eq!(bytes.len(), 32 + 32 + 4 + 2);
    assert_eq!(&bytes[64..68], &[2, 0, 0, 0]);
    assert_eq!(bytes, record([9u8; 32], &owner, "hi"));
}

#[test]
fn same_text_compares_exactly() {
    assert!(same_text("abc", "abc"));
    assert!(!same_text("abc", "abd"));
    assert!(!same_text("abc", "ab"));
    assert!(same_text("", ""));
}

#[test]
fn authority_matches_program_address() {
    let t = derive_authority(&tree(), &program()).unwrap();
    assert_eq!(t.address, authority_of(&tree()));
    assert_ne!(t.address, tree());
    let other = derive_authority(&addr(101), &program()).unwrap();
    assert_ne!(other.address, t.address);
    let seeds = signer_seeds(&tree(), &t);
    assert_eq!(seeds, vec![tree().bytes.to_vec(), vec![t.bump]]);
}

#[test]
fn wrong_authority_account_is_refused() {
    assert_eq!(
        bind_authority(&tree(), &addr(5), &program()),
        Err(NoteError::AuthorityMismatch)
    );
    let mut acc = accounts(1, 2);
    acc.tree_authority = addr(5);
    assert_eq!(
        append_message(&acc, "hello".to_string()).unwrap_err(),
        NoteError::AuthorityMismatch
    );
    assert_eq!(NoteError::AuthorityMismatch.class(), ErrorClass::Authorization);
}

#[test]
fn create_plans_one_init_call() {
    let plan = create_messages_tree(&accounts(1, 2), 14, 64).unwrap();
    seeds_ok(&plan);
    assert_eq!(plan.calls.len(), 1);
    assert!(matches!(
        plan.calls[0],
        EngineCall::InitTree { max_depth: 14, max_buffer_size: 64 }
    ));
    let notes = NoteAccounts {
        owner: addr(1),
        tree_authority: authority_of(&tree()),
        merkle_tree: tree(),
        log_wrapper: addr(8),
        compression_program: addr(7),
        program_id: program(),
    };
    let plan = create_note_tree(&notes, 3, 8).unwrap();
    assert!(matches!(
        plan.calls[0],
        EngineCall::InitTree { max_depth: 3, max_buffer_size: 8 }
    ));
}

#[test]
fn append_logs_then_appends() {
    let acc = accounts(1, 2);
    let plan = append_message(&acc, "hello".to_string()).unwrap();
    seeds_ok(&plan);
    let leaf = expect_leaf("hello", &addr(1));
    assert_eq!(plan.calls.len(), 2);
    match &plan.calls[0] {
        EngineCall::EmitLog { record: r } => assert_eq!(r, &record(leaf, &addr(1), "hello")),
        _ => panic!("the record comes first"),
    }
    match &plan.calls[1] {
        EngineCall::Append { leaf: l } => assert_eq!(l, &leaf),
        _ => panic!("the append comes second"),
    }
}

#[test]
fn update_with_same_text_makes_no_call() {
    let plan = update_message(&accounts(1, 2), 0, [4u8; 32], "same".to_string(), "same".to_string())
        .unwrap();
    assert!(plan.calls.is_empty());
    assert!(plan.seeds.is_empty());
}

#[test]
fn update_verifies_then_logs_then_replaces() {
    let root = [4u8; 32];
    let plan = update_message(&accounts(1, 2), 3, root, "hello".to_string(), "world".to_string())
        .unwrap();
    seeds_ok(&plan);
    let old_leaf = expect_leaf("hello", &addr(1));
    let new_leaf = expect_leaf("world", &addr(1));
    assert_eq!(plan.calls.len(), 3);
    match &plan.calls[0] {
        EngineCall::VerifyLeaf { root: r, leaf, index } => {
            assert_eq!((r, leaf, *index), (&root, &old_leaf, 3));
        }
        _ => panic!("verification comes first"),
    }
    match &plan.calls[1] {
        EngineCall::EmitLog { record: r } => assert_eq!(r, &record(new_leaf, &addr(1), "world")),
        _ => panic!("the record comes second"),
    }
    match &plan.calls[2] {
        EngineCall::ReplaceLeaf { root: r, old_leaf: o, new_leaf: n, index } => {
            assert_eq!((r, o, n, *index), (&root, &old_leaf, &new_leaf, 3));
        }
        _ => panic!("the replacement comes last"),
    }
}

#[test]
fn failures_map_to_errors_and_classes() {
    let verify = EngineCall::VerifyLeaf { root: [0; 32], leaf: [0; 32], index: 0 };
    let replace = EngineCall::ReplaceLeaf { root: [0; 32], old_leaf: [0; 32], new_leaf: [1; 32], index: 0 };
    let init = EngineCall::InitTree { max_depth: 14, max_buffer_size: 64 };
    let append = EngineCall::Append { leaf: [0; 32] };
    assert_eq!(failure_error(&verify, EngineFailure::LeafMismatch), NoteError::LeafVerificationFailed);
    assert_eq!(failure_error(&replace, EngineFailure::LeafMismatch), NoteError::ConcurrentRootMismatch);
    assert_eq!(failure_error(&init, EngineFailure::AlreadyInitialized), NoteError::TreeAlreadyInitialized);
    assert_eq!(failure_error(&init, EngineFailure::UnsupportedShape), NoteError::InvalidTreeParameters);
    assert_eq!(failure_error(&append, EngineFailure::TreeFull), NoteError::TreeCapacityExceeded);
    assert_eq!(
        failure_error(&append, EngineFailure::BufferSaturated),
        NoteError::ConcurrentModificationLimitExceeded
    );
    assert_eq!(failure_error(&append, EngineFailure::Other), NoteError::EngineFailure);
    assert_eq!(failure_error(&append, EngineFailure::LeafMismatch), NoteError::EngineFailure);
    assert_eq!(NoteError::LeafVerificationFailed.class(), ErrorClass::ConcurrencyConflict);
    assert_eq!(NoteError::ConcurrentRootMismatch.class(), ErrorClass::ConcurrencyConflict);
    assert_eq!(NoteError::TreeAlreadyInitialized.class(), ErrorClass::Configuration);
    assert_eq!(NoteError::InvalidTreeParameters.class(), ErrorClass::Configuration);
    assert_eq!(NoteError::TreeCapacityExceeded.class(), ErrorClass::Capacity);
    assert_eq!(NoteError::AuthorityDerivationError.class(), ErrorClass::Authorization);
    assert!(NoteError::ConcurrentRootMismatch.is_retryable());
    assert!(!NoteError::TreeCapacityExceeded.is_retryable());
}

#[test]
fn scenario_create_append_update_then_stale_update() {
    let acc = accounts(1, 2);
    let create = create_messages_tree(&acc, 14, 64).unwrap();
    assert!(matches!(
        create.calls[0],
        EngineCall::InitTree { max_depth: 14, max_buffer_size: 64 }
    ));
    let append = append_message(&acc, "hello".to_string()).unwrap();
    assert!(matches!(append.calls[1], EngineCall::Append { .. }));
    let r1 = [11u8; 32];
    let update = update_message(&acc, 0, r1, "hello".to_string(), "world".to_string()).unwrap();
    match &update.calls[1] {
        EngineCall::EmitLog { record: r } => {
            assert_eq!(&r[..32], &expect_leaf("world", &addr(1)));
        }
        _ => panic!("the record comes after verification"),
    }
    let stale = update_message(&acc, 0, r1, "world".to_string(), "x".to_string()).unwrap();
    let err = failure_error(&stale.calls[0], EngineFailure::LeafMismatch);
    assert_eq!(err, NoteError::LeafVerificationFailed);
    assert_eq!(err.class(), ErrorClass::ConcurrencyConflict);
}

#[test]
fn plans_from_given_leaves() {
    let t = derive_authority(&tree(), &program()).unwrap();
    let sender = addr(1);
    let plan = plan_append(&tree(), &t, &sender, [5u8; 32], "note".to_string()).unwrap();
    seeds_ok(&plan);
    match (&plan.calls[0], &plan.calls[1]) {
        (EngineCall::EmitLog { record: r }, EngineCall::Append { leaf }) => {
            assert_eq!(r, &record([5u8; 32], &sender, "note"));
            assert_eq!(leaf, &[5u8; 32]);
        }
        _ => panic!("record, then append"),
    }
    let plan = plan_replace(&tree(), &t, &sender, 9, [6u8; 32], [7u8; 32], [8u8; 32], "new".to_string())
        .unwrap();
    assert_eq!(plan.calls.len(), 3);
    match (&plan.calls[0], &plan.calls[1], &plan.calls[2]) {
        (
            EngineCall::VerifyLeaf { root, leaf, index },
            EngineCall::EmitLog { record: r },
            EngineCall::ReplaceLeaf { root: root2, old_leaf, new_leaf, index: index2 },
        ) => {
            assert_eq!((root, leaf, *index), (&[6u8; 32], &[7u8; 32], 9));
            assert_eq!(r, &record([8u8; 32], &sender, "new"));
            assert_eq!((root2, old_leaf, new_leaf, *index2), (&[6u8; 32], &[7u8; 32], &[8u8; 32], 9));
        }
        _ => panic!("verify, record, replace"),
    }
    let plan = plan_create(&tree(), &t, 5, 8);
    seeds_ok(&plan);
    assert!(matches!(plan.calls[0], EngineCall::InitTree { max_depth: 5, max_buffer_size: 8 }));
}

#[test]
fn update_with_wrong_authority_fails_before_any_call() {
    let mut acc = accounts(1, 2);
    acc.tree_authority = tree();
    assert_eq!(
        update_message(&acc, 0, [0u8; 32], "a".to_string(), "b".to_string()).unwrap_err(),
        NoteError::AuthorityMismatch
    );
    assert_eq!(
        create_messages_tree(&acc, 14, 64).unwrap_err(),
        NoteError::AuthorityMismatch
    );
}
