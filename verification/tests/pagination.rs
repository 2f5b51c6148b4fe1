use notion_export::block::Block;
use notion_export::fetch::{ChildFetch, CursorPage};

#[test]
fn two_cursor_linked_batches_yield_two_blocks_and_two_calls() {
    let mut fetch = ChildFetch::new();
    let first = CursorPage {
        results: vec![Block::Divider],
        next_cursor: Some("c1".to_string()),
    };
    let second = CursorPage { results: vec![Block::Breadcrumb], next_cursor: None };

    let cont = fetch.absorb(first);
    assert_eq!(cont, Some("c1".to_string()));
    let cont = fetch.absorb(second);
    assert_eq!(cont, None);

    assert_eq!(fetch.calls, 2);
    let blocks = fetch.into_blocks();
    assert_eq!(blocks.len(), 2);
    assert_eq!(blocks, vec![Block::Divider, Block::Breadcrumb]);
}

#[test]
fn output_is_concatenation_of_batches_in_received_order() {
    let mut fetch = ChildFetch::new();
    let first = CursorPage {
        results: vec![Block::Divider, Block::Unknown],
        next_cursor: Some("next".to_string()),
    };
    let second = CursorPage { results: vec![Block::Unsupported], next_cursor: None };
    fetch.absorb(first);
    fetch.absorb(second);
    assert_eq!(
        fetch.into_blocks(),
        vec![Block::Divider, Block::Unknown, Block::Unsupported]
    );
}

#[test]
fn single_batch_without_cursor_is_one_call() {
    let mut fetch = ChildFetch::new();
    let only = CursorPage { results: Vec::new(), next_cursor: None };
    let cont = fetch.absorb(only);
    assert_eq!(cont, None);
    assert_eq!(fetch.calls, 1);
    assert!(fetch.into_blocks().is_empty());
}
