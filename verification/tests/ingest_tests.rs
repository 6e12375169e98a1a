use quilore::cursored_data::{seed_of, IngestError};
use quilore::ingest::{scan_page, CursoredData, PageEntry, STREAK_THRESHOLD};
use quilore::json::Json;
use quilore::like::LikedPost;
use quilore::meta::GlobalVal;
use quilore::record::RecordId;
use quilore::table::Table;

fn globals() -> GlobalVal {
    GlobalVal { save_dir: Some("/save".to_string()) }
}

fn entry(id: i64) -> String {
    format!(
        r#"{{"entryId":"tweet-{id}","content":{{"itemContent":{{"tweet_results":{{"result":{{
            "rest_id":"{id}",
            "core":{{"user_results":{{"result":{{"legacy":{{
                "profile_image_url_https":"https://pbs.twimg.com/profile_images/1/me.jpg",
                "screen_name":"alice","name":"Alice"}}}}}}}},
            "legacy":{{"created_at":"Mon Jan 01","full_text":"post {id}","lang":"en"}}
        }}}}}}}}}}"#
    )
}

fn tombstone(id: i64) -> String {
    format!(
        r#"{{"entryId":"tweet-{id}","content":{{"itemContent":{{"tweet_results":{{"result":{{"__typename":"TweetTombstone"}}}}}}}}}}"#
    )
}

fn page(entries: &[String], cursor: Option<&str>) -> Json {
    let mut all: Vec<String> = vec![r#"{"entryId":"cursor-top-1","content":{"value":"top"}}"#.to_string()];
    all.extend(entries.iter().cloned());
    if let Some(c) = cursor {
        all.push(format!(r#"{{"entryId":"cursor-bottom-1","content":{{"value":"{c}"}}}}"#));
    }
    let text = format!(
        r#"{{"data":{{"user":{{"result":{{"timeline":{{"timeline":{{"instructions":[{{"type":"TimelineAddEntries","entries":[{}]}}]}}}}}}}}}}}}"#,
        all.join(",")
    );
    Json::parse(&text).expect("the page is JSON")
}

fn ids(data: &CursoredData<LikedPost>) -> Vec<i64> {
    data.list.iter().map(|l| l.post.rest_id).collect()
}

fn keys(posts: &[i64]) -> Vec<RecordId> {
    posts.iter().map(|n| RecordId::numbered(Table::Post, *n)).collect()
}

#[test]
fn overlapping_pages_give_no_post_twice() {
    let first = page(&(1..=6).map(entry).collect::<Vec<_>>(), Some("c1"));
    let mut known: Vec<RecordId> = Vec::new();
    let one = CursoredData::from_response_at(&first, 1000, &known, &globals()).unwrap();
    assert_eq!(ids(&one), vec![1, 2, 3, 4, 5, 6]);
    assert_eq!(one.next, "c1");
    assert!(!one.is_end);
    known.extend(one.list.iter().map(|l| l.post_key()));

    // the second page begins with the last three posts of the first
    let second = page(&[4, 5, 6, 7, 8].map(entry), Some("c2"));
    let last = one.list.last().unwrap().sortidx;
    let two = CursoredData::from_response_at(&second, last as u64, &known, &globals()).unwrap();
    assert_eq!(ids(&two), vec![7, 8]);
    assert_eq!(two.next, "c2");
    // three known posts in a row are tolerated
    assert!(!two.is_end);
    for post in &two.list {
        assert!(!known.iter().any(|k| k.same(&post.post_key())));
    }
    // and the order of the two pages is kept
    let all: Vec<u32> = one.list.iter().chain(two.list.iter()).map(|l| l.sortidx).collect();
    assert_eq!(all, vec![999, 998, 997, 996, 995, 994, 993, 992]);
}

#[test]
fn five_known_posts_in_a_row_end_the_scan() {
    let known = keys(&[1, 2, 3, 4, 5]);
    let data = CursoredData::from_response_at(
        &page(&[9, 1, 2, 3, 4, 5, 10].map(entry), Some("next")),
        50,
        &known,
        &globals(),
    )
    .unwrap();
    assert_eq!(STREAK_THRESHOLD, 5);
    assert_eq!(ids(&data), vec![9]);
    assert!(data.is_end);
    // the scan stopped before the cursor at the bottom
    assert_eq!(data.next, "");
}

#[test]
fn a_new_post_ends_a_streak() {
    let known = keys(&[1, 2, 3, 4, 5, 6]);
    let data = CursoredData::from_response_at(
        &page(&[1, 2, 3, 4, 9, 5, 6, 10].map(entry), Some("n")),
        50,
        &known,
        &globals(),
    )
    .unwrap();
    assert_eq!(ids(&data), vec![9, 10]);
    assert!(!data.is_end);
    assert_eq!(data.next, "n");
}

#[test]
fn unreadable_entries_are_skipped_and_leave_the_streak() {
    let known = keys(&[1, 2, 3, 4, 5]);
    let entries = vec![entry(1), entry(2), tombstone(77), entry(3), entry(4), entry(5), entry(8)];
    let data = CursoredData::from_response_at(&page(&entries, Some("n")), 50, &known, &globals()).unwrap();
    assert!(data.list.is_empty());
    assert!(data.is_end);
}

#[test]
fn empty_page_ends_the_scan() {
    let text = r#"{"data":{"user":{"result":{"timeline":{"timeline":{"instructions":[{"type":"TimelineAddEntries","entries":[]}]}}}}}}"#;
    let data =
        CursoredData::from_response_at(&Json::parse(text).unwrap(), 10, &Vec::new(), &globals()).unwrap();
    assert!(data.is_end);
    assert!(data.list.is_empty());
    assert_eq!(data.next, "");
    // a page with markers only is no empty page
    let data = CursoredData::from_response_at(&page(&[], Some("c")), 10, &Vec::new(), &globals()).unwrap();
    assert!(!data.is_end);
    assert_eq!(data.next, "c");
}

#[test]
fn instructions_are_found_at_the_second_place_too() {
    let text = format!(
        r#"{{"data":{{"user":{{"result":{{"timeline":{{"instructions":[{{"type":"TimelineAddEntries","entries":[{}]}}]}}}}}}}}}}"#,
        entry(5)
    );
    let data =
        CursoredData::from_response_at(&Json::parse(&text).unwrap(), 10, &Vec::new(), &globals()).unwrap();
    assert_eq!(ids(&data), vec![5]);
    assert_eq!(data.list[0].sortidx, 9);
}

#[test]
fn responses_without_a_page_are_refused() {
    let g = globals();
    let none = Json::parse(r#"{"data":{}}"#).unwrap();
    assert_eq!(
        CursoredData::from_response_at(&none, 10, &Vec::new(), &g).err(),
        Some(IngestError::NoInstruction)
    );
    let other = Json::parse(
        r#"{"data":{"user":{"result":{"timeline":{"timeline":{"instructions":[{"type":"TimelineClearCache"}]}}}}}}"#,
    )
    .unwrap();
    assert_eq!(
        CursoredData::from_response_at(&other, 10, &Vec::new(), &g).err(),
        Some(IngestError::NotAddEntries)
    );
    let bare = Json::parse(
        r#"{"data":{"user":{"result":{"timeline":{"timeline":{"instructions":[{"type":"TimelineAddEntries"}]}}}}}}"#,
    )
    .unwrap();
    assert_eq!(
        CursoredData::from_response_at(&bare, 10, &Vec::new(), &g).err(),
        Some(IngestError::NoEntries)
    );
    assert_eq!(IngestError::NoInstruction.message(), "can not find timeline.instructions[0]");
    assert_eq!(
        IngestError::NotAddEntries.message(),
        "timeline.instructions[0].type is not TimelineAddEntries"
    );
    assert_eq!(IngestError::NoEntries.message(), "cannot find timeline.instructions[0].entries");
}

#[test]
fn sort_indices_run_out_below_zero() {
    let p = page(&[1, 2, 3].map(entry), None);
    assert_eq!(
        CursoredData::from_response_at(&p, 2, &Vec::new(), &globals()).err(),
        Some(IngestError::SortIndexExhausted)
    );
    let data = CursoredData::from_response_at(&p, 3, &Vec::new(), &globals()).unwrap();
    assert_eq!(data.list.iter().map(|l| l.sortidx).collect::<Vec<_>>(), vec![2, 1, 0]);
    assert_eq!(
        CursoredData::from_response(&p, Some(0), &Vec::new(), &globals()).err(),
        Some(IngestError::SortIndexExhausted)
    );
}

#[test]
fn a_continued_scan_numbers_below_the_last_index() {
    let p = page(&[1, 2].map(entry), Some("c"));
    let data = CursoredData::from_response(&p, Some(700), &Vec::new(), &globals()).unwrap();
    assert_eq!(data.list.iter().map(|l| l.sortidx).collect::<Vec<_>>(), vec![699, 698]);
}

#[test]
fn a_fresh_scan_numbers_downwards_from_the_clock() {
    let p = page(&[1, 2, 3].map(entry), Some("c"));
    let data = CursoredData::from_response(&p, None, &Vec::new(), &globals()).unwrap();
    assert_eq!(data.list.len(), 3);
    assert_eq!(data.list[0].sortidx - 1, data.list[1].sortidx);
    assert_eq!(data.list[1].sortidx - 1, data.list[2].sortidx);
}

#[test]
fn the_seed_is_one_above_the_time_cut_to_32_bits() {
    assert_eq!(seed_of(0), 1);
    assert_eq!(seed_of(41), 42);
    assert_eq!(seed_of(0x1_0000_0005), 6);
    assert_eq!(seed_of(0xffff_ffff), 0x1_0000_0000);
}

#[test]
fn without_a_save_directory_no_post_can_be_read() {
    let p = page(&[1, 2].map(entry), Some("c"));
    let data =
        CursoredData::from_response_at(&p, 10, &Vec::new(), &GlobalVal { save_dir: None }).unwrap();
    assert!(data.list.is_empty());
    assert!(!data.is_end);
}

#[test]
fn scan_page_takes_what_is_new() {
    let seen = vec![RecordId::numbered(Table::Post, 2)];
    let entries = vec![
        PageEntry::TopCursor,
        PageEntry::Item { key: RecordId::numbered(Table::Post, 1), item: "one" },
        PageEntry::Item { key: RecordId::numbered(Table::Post, 2), item: "two" },
        PageEntry::Unreadable,
        PageEntry::Item { key: RecordId::numbered(Table::Post, 3), item: "three" },
        PageEntry::BottomCursor(None),
        PageEntry::BottomCursor(Some("next".to_string())),
    ];
    let data = scan_page(entries, &seen);
    assert_eq!(data.list, vec!["one", "three"]);
    assert_eq!(data.next, "next");
    assert!(!data.is_end);
}

#[test]
fn scan_page_stops_at_the_fifth_known_post() {
    let seen: Vec<RecordId> = (1..=5).map(|n| RecordId::numbered(Table::Post, n)).collect();
    let mut entries: Vec<PageEntry<i64>> =
        (1..=5).map(|n| PageEntry::Item { key: RecordId::numbered(Table::Post, n), item: n }).collect();
    entries.push(PageEntry::Item { key: RecordId::numbered(Table::Post, 6), item: 6 });
    entries.push(PageEntry::BottomCursor(Some("late".to_string())));
    let data = scan_page(entries, &seen);
    assert!(data.list.is_empty());
    assert!(data.is_end);
    assert_eq!(data.next, "");
    let none: Vec<PageEntry<i64>> = Vec::new();
    assert!(scan_page(none, &seen).is_end);
}

#[test]
fn same_record_ids_are_told_by_table_and_key() {
    assert!(RecordId::numbered(Table::Post, 1).same(&RecordId::numbered(Table::Post, 1)));
    assert!(!RecordId::numbered(Table::Post, 1).same(&RecordId::numbered(Table::Reply, 1)));
    assert!(!RecordId::numbered(Table::Post, 1).same(&RecordId::named(Table::Post, "1")));
    assert!(RecordId::named(Table::User, "a").same(&RecordId::named(Table::User, "a").clone()));
    assert!(!RecordId::named(Table::User, "a").same(&RecordId::named(Table::User, "b")));
}
