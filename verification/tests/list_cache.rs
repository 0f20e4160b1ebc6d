use woocraft::list_cache::{IndexPath, RowEntry, RowsCache};

fn cache_of(sections: Vec<usize>) -> RowsCache {
    let mut cache = RowsCache::new();
    cache.prepare_if_needed(sections, false);
    cache
}

#[test]
fn test_prev_next() {
    let row_cache = cache_of(vec![2, 4, 3]);

    assert_eq!(
        row_cache.next(Some(IndexPath::new(0).section(0))),
        IndexPath::new(1).section(0)
    );
    assert_eq!(
        row_cache.next(Some(IndexPath::new(1).section(0))),
        IndexPath::new(0).section(1)
    );
    assert_eq!(
        row_cache.next(Some(IndexPath::new(0).section(1))),
        IndexPath::new(1).section(1)
    );
    assert_eq!(
        row_cache.next(Some(IndexPath::new(3).section(1))),
        IndexPath::new(0).section(2)
    );
    assert_eq!(
        row_cache.next(Some(IndexPath::new(0).section(2))),
        IndexPath::new(1).section(2)
    );
    assert_eq!(
        row_cache.next(Some(IndexPath::new(1).section(2))),
        IndexPath::new(2).section(2)
    );
    assert_eq!(
        row_cache.next(Some(IndexPath::new(2).section(2))),
        IndexPath::new(0).section(0)
    );

    assert_eq!(
        row_cache.prev(Some(IndexPath::new(0).section(0))),
        IndexPath::new(2).section(2)
    );
    assert_eq!(
        row_cache.prev(Some(IndexPath::new(1).section(0))),
        IndexPath::new(0).section(0)
    );
    assert_eq!(
        row_cache.prev(Some(IndexPath::new(0).section(1))),
        IndexPath::new(1).section(0)
    );
    assert_eq!(
        row_cache.prev(Some(IndexPath::new(1).section(1))),
        IndexPath::new(0).section(1)
    );
    assert_eq!(
        row_cache.prev(Some(IndexPath::new(3).section(1))),
        IndexPath::new(2).section(1)
    );
    assert_eq!(
        row_cache.prev(Some(IndexPath::new(0).section(2))),
        IndexPath::new(3).section(1)
    );
}

#[test]
fn empty_sections_get_no_rows() {
    let cache = cache_of(vec![0, 2, 0]);
    assert_eq!(cache.len(), 4);
    assert_eq!(cache.items_count(), 2);
    assert_eq!(cache.get(0), Some(RowEntry::SectionHeader(1)));
    assert_eq!(cache.get(1), Some(RowEntry::Entry(IndexPath::new(0).section(1))));
    assert_eq!(cache.get(3), Some(RowEntry::SectionFooter(1)));
    assert_eq!(cache.get(4), None);
}

#[test]
fn navigation_skips_empty_sections_and_wraps() {
    let cache = cache_of(vec![1, 0, 1]);
    let first = IndexPath::new(0).section(0);
    let last = IndexPath::new(0).section(2);
    assert_eq!(cache.next(Some(first)), last);
    assert_eq!(cache.next(Some(last)), first);
    assert_eq!(cache.prev(Some(first)), last);
    assert_eq!(cache.prev(Some(last)), first);
}

#[test]
fn without_a_current_item_next_starts_at_the_default_and_prev_at_the_last() {
    let cache = cache_of(vec![2, 3]);
    assert_eq!(cache.next(None), IndexPath::default());
    assert_eq!(cache.prev(None), IndexPath::new(2).section(1));
    let unknown = IndexPath::new(9).section(9);
    assert_eq!(cache.next(Some(unknown)), IndexPath::new(0).section(0));
    assert_eq!(cache.prev(Some(unknown)), IndexPath::new(2).section(1));
}

#[test]
fn prepare_rebuilds_only_on_change() {
    let mut cache = RowsCache::new();
    assert!(cache.prepare_if_needed(vec![2, 1], false));
    assert!(!cache.prepare_if_needed(vec![2, 1], false));
    assert!(cache.prepare_if_needed(vec![2, 1], true));
    assert!(cache.prepare_if_needed(vec![3], false));
    assert_eq!(cache.items_count(), 3);
    assert_eq!(cache.len(), 5);
}

#[test]
fn position_of_finds_item_rows_only() {
    let cache = cache_of(vec![2]);
    assert_eq!(cache.position_of(&IndexPath::new(1).section(0)), Some(2));
    assert_eq!(cache.position_of(&IndexPath::new(2).section(0)), None);
}

#[test]
fn row_entries_report_their_paths() {
    let header = RowEntry::SectionHeader(3);
    assert_eq!(header.index(), IndexPath::new(0).section(3));
    assert!(!header.is_entry());
    let entry = RowEntry::Entry(IndexPath::new(4).section(1).column(2));
    assert!(entry.is_entry());
    assert!(entry.eq_index_path(&IndexPath::new(4).section(1).column(2)));
    assert!(!entry.eq_index_path(&IndexPath::new(4).section(1)));
    assert!(!header.eq_index_path(&IndexPath::new(0).section(3)));
}
