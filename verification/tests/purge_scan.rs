use automod_bot::events::purge::{PageEntry, PurgeAction, PurgeScan, PURGE_MAX_PAGES};

fn page(entries: &[(u64, u64)]) -> Vec<PageEntry> {
    entries.iter().map(|&(id, author_id)| PageEntry { id, author_id }).collect()
}

#[test]
fn scan_deletes_only_the_authors_messages() {
    let mut scan = PurgeScan::new(77, 42);
    let first = scan.next_fetch().expect("first page");
    assert_eq!(first.channel_id, 77);
    assert_eq!(first.before, None);
    assert_eq!(first.limit, 100);
    match scan.on_page(&page(&[(10, 42), (9, 1), (8, 42), (7, 42)])) {
        PurgeAction::DeleteMany { channel_id, message_ids } => {
            assert_eq!(channel_id, 77);
            assert_eq!(message_ids, vec![10, 8, 7]);
            scan.record_deleted(message_ids.len());
        }
        _ => panic!("expected a bulk delete"),
    }
    let second = scan.next_fetch().expect("second page");
    assert_eq!(second.before, Some(7));
    match scan.on_page(&page(&[(6, 3), (5, 42)])) {
        PurgeAction::DeleteOne { channel_id, message_id } => {
            assert_eq!((channel_id, message_id), (77, 5));
            scan.record_deleted(1);
        }
        _ => panic!("expected a single delete"),
    }
    assert!(matches!(scan.on_page(&page(&[(4, 3)])), PurgeAction::Nothing));
    assert_eq!(scan.total_deleted(), 4);
    assert!(matches!(scan.on_page(&page(&[])), PurgeAction::Nothing));
    assert!(scan.next_fetch().is_none());
}

#[test]
fn scan_reads_at_most_ten_pages() {
    let mut scan = PurgeScan::new(1, 2);
    let mut pages = 0;
    while let Some(_req) = scan.next_fetch() {
        pages += 1;
        let _ = scan.on_page(&page(&[(100 - pages, 9)]));
    }
    assert_eq!(pages as usize, PURGE_MAX_PAGES);
}
