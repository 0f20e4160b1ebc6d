use woocraft::pagination::{calculate_page_range, PageItem};

#[test]
fn test_calculate_page_range() {
    let result = calculate_page_range(1, 10, 7);
    let expected = vec![
        PageItem::Page(1),
        PageItem::Page(2),
        PageItem::Page(3),
        PageItem::Page(4),
        PageItem::Ellipsis(5..10),
        PageItem::Page(10),
    ];
    assert_eq!(result, expected);

    let result = calculate_page_range(5, 10, 7);
    let expected = vec![
        PageItem::Page(1),
        PageItem::Ellipsis(2..3),
        PageItem::Page(3),
        PageItem::Page(4),
        PageItem::Page(5),
        PageItem::Page(6),
        PageItem::Page(7),
        PageItem::Ellipsis(8..10),
        PageItem::Page(10),
    ];
    assert_eq!(result, expected);

    let result = calculate_page_range(10, 10, 7);
    let expected = vec![
        PageItem::Page(1),
        PageItem::Ellipsis(2..7),
        PageItem::Page(7),
        PageItem::Page(8),
        PageItem::Page(9),
        PageItem::Page(10),
    ];
    assert_eq!(result, expected);
}

#[test]
fn a_single_page_shows_no_bar() {
    assert_eq!(calculate_page_range(1, 1, 7), Vec::<PageItem>::new());
    assert_eq!(calculate_page_range(1, 0, 7), Vec::<PageItem>::new());
}

#[test]
fn few_pages_are_all_shown() {
    let expected: Vec<PageItem> = (1..=5).map(PageItem::Page).collect();
    assert_eq!(calculate_page_range(3, 5, 7), expected);
}

#[test]
fn every_page_is_shown_or_hidden_in_an_ellipsis_once() {
    for total in 2..40usize {
        for current in 1..=total {
            let items = calculate_page_range(current, total, 7);
            let mut next = 1;
            for item in &items {
                match item {
                    PageItem::Page(p) => {
                        assert_eq!(*p, next);
                        next += 1;
                    }
                    PageItem::Ellipsis(range) => {
                        assert_eq!(range.start, next);
                        assert!(range.end > range.start);
                        next = range.end;
                    }
                }
            }
            assert_eq!(next, total + 1);
        }
    }
}

#[test]
fn the_largest_page_count_is_handled() {
    let items = calculate_page_range(5, usize::MAX, 7);
    assert_eq!(items.first(), Some(&PageItem::Page(1)));
    assert_eq!(items.last(), Some(&PageItem::Page(usize::MAX)));
    assert!(items.contains(&PageItem::Page(5)));
}
