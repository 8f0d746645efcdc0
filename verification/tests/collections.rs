use std::borrow::Cow;
use std::collections::HashMap;

use bluetape_rs::collections::iter::{
    chunked_by, chunks, frequencies, group_by, partition_results, sliding_windows, windows,
};
use bluetape_rs::collections::map::{map_values, try_map_values};
use bluetape_rs::collections::slice::{clamped_subslice, pad_to};
use bluetape_rs::collections::{CollectionError, Page, PageError, DEFAULT_PAGE_SIZE};

#[test]
fn invalid_size_formats_public_error_message() {
    let error = CollectionError::InvalidSize {
        parameter: "window_size",
        value: 0,
    };

    assert_eq!(error.message(), "window_size must be positive, got 0");
}

#[test]
fn chunks_yields_non_overlapping_vectors() {
    let actual: Vec<_> = chunks((1..=5).collect(), 2).unwrap().collect();
    assert_eq!(actual, vec![vec![1, 2], vec![3, 4], vec![5]]);
}

#[test]
fn chunks_rejects_zero_size() {
    let error = chunks(vec![1, 2, 3], 0).unwrap_err();
    assert_eq!(
        error,
        CollectionError::InvalidSize {
            parameter: "size",
            value: 0
        }
    );
}

#[test]
fn windows_yields_exact_overlapping_windows() {
    let actual: Vec<_> = windows(vec![1, 2, 3, 4], 3).unwrap().collect();
    assert_eq!(actual, vec![vec![1, 2, 3], vec![2, 3, 4]]);
}

#[test]
fn windows_returns_empty_when_input_is_shorter_than_size() {
    let actual: Vec<_> = windows(vec![1, 2], 3).unwrap().collect();
    assert!(actual.is_empty());
}

#[test]
fn sliding_windows_can_include_partial_tails() {
    let actual: Vec<_> = sliding_windows(vec![1, 2, 3, 4], 3, true)
        .unwrap()
        .collect();
    assert_eq!(
        actual,
        vec![vec![1, 2, 3], vec![2, 3, 4], vec![3, 4], vec![4]]
    );
}

#[test]
fn sliding_windows_rejects_zero_size() {
    let error = sliding_windows(vec![1, 2, 3], 0, true).unwrap_err();
    assert_eq!(
        error,
        CollectionError::InvalidSize {
            parameter: "size",
            value: 0
        }
    );
}

#[test]
fn chunked_by_starts_new_chunk_at_matching_item() {
    let actual = chunked_by(vec![1, 2, 3, 4, 5], |value: &i32| *value == 3);
    assert_eq!(actual, vec![vec![1, 2], vec![3, 4, 5]]);
}

#[test]
fn chunked_by_returns_empty_for_empty_input() {
    let actual = chunked_by(Vec::<i32>::new(), |_: &i32| true);
    assert!(actual.is_empty());
}

#[test]
fn chunked_by_does_not_emit_empty_leading_chunk() {
    let actual = chunked_by(vec![1, 2, 3], |value: &i32| *value == 1);
    assert_eq!(actual, vec![vec![1, 2, 3]]);
}

#[test]
fn frequencies_counts_items() {
    let actual = frequencies(vec!["a", "b", "a"]);
    assert_eq!(actual.get("a"), Some(&2));
    assert_eq!(actual.get("b"), Some(&1));
}

#[test]
fn group_by_groups_items_by_selected_key() {
    let actual = group_by(vec!["ape", "ant", "bear"], |value: &&str| {
        value.chars().next().unwrap()
    });

    assert_eq!(actual.get(&'a'), Some(&vec!["ape", "ant"]));
    assert_eq!(actual.get(&'b'), Some(&vec!["bear"]));
}

#[test]
fn sliding_windows_can_include_partial_windows_when_input_is_short() {
    let actual: Vec<_> = sliding_windows(vec![1, 2], 3, true).unwrap().collect();
    assert_eq!(actual, vec![vec![1, 2], vec![2]]);
}

#[test]
fn partition_results_unwraps_successes_and_errors() {
    let items: Vec<Result<i32, &str>> = vec![Ok(1), Err("bad"), Ok(2)];
    let actual = partition_results(items);
    assert_eq!(actual, (vec![1, 2], vec!["bad"]));
}

#[test]
fn map_values_preserves_keys_and_transforms_values() {
    let map = HashMap::from([("a", 1), ("b", 2)]);
    let actual = map_values(map, |value: i32| value * 10);

    assert_eq!(actual.get("a"), Some(&10));
    assert_eq!(actual.get("b"), Some(&20));
}

#[test]
fn try_map_values_returns_transformed_map() {
    let map = HashMap::from([("a", "1"), ("b", "2")]);
    let actual = try_map_values(map, str::parse::<i32>).unwrap();

    assert_eq!(actual.get("a"), Some(&1));
    assert_eq!(actual.get("b"), Some(&2));
}

#[test]
fn try_map_values_stops_on_first_error() {
    let map = HashMap::from([("a", "1"), ("b", "not-a-number")]);
    let actual = try_map_values(map, str::parse::<i32>);

    assert!(actual.is_err());
}

#[test]
fn new_uses_first_page_and_default_size() {
    let page = Page::new(vec![1, 2, 3], 100).unwrap();

    assert_eq!(page.page_number(), 0);
    assert_eq!(page.page_size(), DEFAULT_PAGE_SIZE);
    assert_eq!(page.total_items(), 100);
    assert_eq!(page.total_pages(), 10);
    assert_eq!(page.items(), &[1, 2, 3]);
}

#[test]
fn with_meta_rounds_total_pages_up_for_remainder() {
    let page = Page::with_meta(vec![1, 2], 1, 10, 25).unwrap();

    assert_eq!(page.page_number(), 1);
    assert_eq!(page.total_pages(), 3);
}

#[test]
fn with_meta_keeps_exact_total_page_count() {
    let page = Page::with_meta(vec![1, 2], 0, 10, 20).unwrap();

    assert_eq!(page.total_pages(), 2);
}

#[test]
fn total_pages_is_zero_for_empty_result_sets() {
    let page = Page::<i32>::with_meta(Vec::new(), 0, 10, 0).unwrap();

    assert_eq!(page.total_pages(), 0);
    assert!(page.is_empty());
}

#[test]
fn with_meta_rejects_zero_page_size() {
    let actual = Page::with_meta(vec![1], 0, 0, 1);

    assert_eq!(actual, Err(PageError::InvalidPageSize { value: 0 }));
}

#[test]
fn into_items_returns_owned_items() {
    let page = Page::with_meta(vec!["a", "b"], 0, 2, 2).unwrap();

    assert_eq!(page.len(), 2);
    assert_eq!(page.into_items(), vec!["a", "b"]);
}

#[test]
fn clamped_subslice_clamps_negative_start() {
    let values = [1, 2, 3, 4, 5];
    assert_eq!(clamped_subslice(&values, -10, 3), &[1, 2, 3]);
}

#[test]
fn clamped_subslice_clamps_end_past_len() {
    let values = [1, 2, 3, 4, 5];
    assert_eq!(clamped_subslice(&values, 2, 99), &[3, 4, 5]);
}

#[test]
fn clamped_subslice_returns_empty_when_end_is_before_start() {
    let values = [1, 2, 3, 4, 5];
    assert_eq!(clamped_subslice(&values, 4, 1), &[] as &[i32]);
}

#[test]
fn clamped_subslice_handles_empty_input() {
    let values: [i32; 0] = [];
    assert_eq!(clamped_subslice(&values, -1, 10), &[] as &[i32]);
}

#[test]
fn pad_to_returns_borrowed_slice_when_no_padding_is_needed() {
    let values = [1, 2, 3];
    let padded = pad_to(&values, 2, 0);

    assert!(matches!(padded, Cow::Borrowed(_)));
    assert_eq!(&*padded, &[1, 2, 3]);
}

#[test]
fn pad_to_returns_owned_vec_when_padding_is_needed() {
    let values = [1, 2, 3];
    let padded = pad_to(&values, 5, 0);

    assert!(matches!(padded, Cow::Owned(_)));
    assert_eq!(&*padded, &[1, 2, 3, 0, 0]);
}

#[test]
fn pad_to_can_pad_empty_slice() {
    let values: [i32; 0] = [];
    assert_eq!(&*pad_to(&values, 3, 7), &[7, 7, 7]);
}

#[test]
fn page_reports_invalid_size_message_and_page_bounds() {
    assert_eq!(
        PageError::InvalidPageSize { value: 0 }.message(),
        "page_size must be positive, got 0"
    );
    let page = Page::with_meta(vec![0u8; 3], 2, 3, 7).unwrap();
    assert_eq!(page.total_pages(), 3);
    assert_eq!(Page::with_meta(vec![1], 0, 1, u64::MAX).unwrap().total_pages(), u64::MAX);
}

#[test]
fn chunks_hand_out_chunks_one_at_a_time() {
    let mut c = chunks(vec![1, 2, 3], 2).unwrap();
    assert_eq!(c.next(), Some(vec![1, 2]));
    assert_eq!(c.next(), Some(vec![3]));
    assert_eq!(c.next(), None);
    assert_eq!(c.next(), None);
}

#[test]
fn frequencies_counts_integer_items() {
    let actual = frequencies(vec![3u64, 1, 3, 3]);
    assert_eq!(actual.len(), 2);
    assert_eq!(actual.get(&3), Some(&3));
    assert_eq!(actual.get(&1), Some(&1));
}

#[test]
fn chunks_joined_give_back_every_item_in_order() {
    let items: Vec<u32> = (0..23).collect();
    let chunked = chunks(items.clone(), 5).unwrap().collect();
    assert_eq!(chunked.len(), 5);
    assert!(chunked[..4].iter().all(|c| c.len() == 5));
    assert_eq!(chunked[4].len(), 3);
    let joined: Vec<u32> = chunked.into_iter().flatten().collect();
    assert_eq!(joined, items);
}

#[test]
fn chunked_by_joined_gives_back_every_item_in_order() {
    let items = vec![1, 2, 10, 3, 11, 12, 4];
    let groups = chunked_by(items.clone(), |v: &i32| *v >= 10);
    assert_eq!(groups, vec![vec![1, 2], vec![10, 3], vec![11], vec![12, 4]]);
    assert!(groups.iter().all(|g| !g.is_empty()));
    let joined: Vec<i32> = groups.into_iter().flatten().collect();
    assert_eq!(joined, items);
}
