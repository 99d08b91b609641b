use log_store::page::{extract_data, Pagination};

#[test]
fn page_from_first_offset() {
    let v = vec![1, 2, 3, 4, 5];
    assert_eq!(extract_data(&v, 2, 1), &[1, 2]);
}

#[test]
fn page_from_middle_offset() {
    let v = vec![1, 2, 3, 4, 5];
    assert_eq!(extract_data(&v, 2, 3), &[3, 4]);
}

#[test]
fn page_clipped_at_end() {
    let v = vec![1, 2, 3, 4, 5];
    assert_eq!(extract_data(&v, 10, 4), &[4, 5]);
}

#[test]
fn page_length_is_min_of_limit_and_rest() {
    let v: Vec<u32> = (0..20).collect();
    for offset in 1..20u32 {
        for limit in 0..25u32 {
            let page = extract_data(&v, limit, offset);
            let expected = std::cmp::min(limit as usize, 20 - offset as usize + 1);
            assert_eq!(page.len(), expected);
            if expected > 0 {
                assert_eq!(page[0], offset - 1);
            }
        }
    }
}

#[test]
fn page_empty_at_or_past_end() {
    let v = vec![1, 2, 3];
    assert!(extract_data(&v, 10, 3).is_empty());
    assert!(extract_data(&v, 10, 4).is_empty());
    assert!(extract_data(&v, 10, u32::MAX).is_empty());
    let e: Vec<i32> = vec![];
    assert!(extract_data(&e, 10, 1).is_empty());
}

#[test]
fn page_zero_limit_is_empty() {
    let v = vec![1, 2, 3];
    assert!(extract_data(&v, 0, 1).is_empty());
}

#[test]
fn page_large_limit_does_not_overflow() {
    let v = vec![1, 2, 3];
    assert_eq!(extract_data(&v, u32::MAX, 2), &[2, 3]);
}

#[test]
fn pagination_offset_must_be_positive() {
    assert_eq!(Pagination { offset: 0, limit: 5 }.validate(), Err("offset".to_string()));
    assert_eq!(Pagination { offset: 1, limit: 0 }.validate(), Ok(()));
}
