use steam_bridge::consts::{CSteamID, EItemUpdateStatus, ERemoteStoragePublishedFileVisibility};
use steam_bridge::error::BridgeError;
use steam_bridge::progress::{Reading, WatchStep};
use steam_bridge::steamugc::{
    query_steps, ugc_result, update_item_with_callback, workshop_item, workshop_items, QueryEntry,
    QueryResult, QueryStep, UgcResult, UgcUpdate, UpdateProgress, UpdateStep, WorkshopItem,
    WorkshopItemQueryOptions,
};

fn text(s: &str) -> String {
    String::from(s)
}

fn owner() -> CSteamID {
    CSteamID { steam_id64: 76561197960287930, steam_id32: text("STEAM_0:0:11101"), account_id: 22202 }
}

fn result(id: u64, title: &str) -> QueryResult {
    QueryResult {
        published_file_id: id,
        creator_app_id: Some(480),
        consumer_app_id: None,
        title: text(title),
        description: text("a description"),
        owner: owner(),
        time_created: 1700000000,
        time_updated: 1700000500,
        banned: false,
        accepted_for_use: true,
        tags: vec![text("map"), text("coop")],
        tags_truncated: false,
        url: text("https://example.invalid/item"),
        num_upvotes: 12,
        num_downvotes: 3,
        num_children: 0,
    }
}

fn item(id: u64, title: &str, preview: Option<&str>) -> WorkshopItem {
    WorkshopItem {
        published_file_id: id,
        creator_app_id: Some(480),
        consumer_app_id: None,
        title: text(title),
        description: text("a description"),
        owner: owner(),
        time_created: 1700000000,
        time_updated: 1700000500,
        banned: false,
        accepted_for_use: true,
        tags: vec![text("map"), text("coop")],
        tags_truncated: false,
        url: text("https://example.invalid/item"),
        num_upvotes: 12,
        num_downvotes: 3,
        num_children: 0,
        preview_url: preview.map(text),
    }
}

#[test]
fn submit_orders_the_steps() {
    let update = UgcUpdate {
        title: Some(text("t")),
        description: Some(text("d")),
        change_note: Some(text("note")),
        preview_path: Some(text("/p.png")),
        content_path: Some(text("/content")),
        tags: Some(vec![text("a"), text("b")]),
        visibility: Some(ERemoteStoragePublishedFileVisibility::FriendsOnly),
    };
    let submission = update.submit();
    assert_eq!(
        submission.steps,
        vec![
            UpdateStep::Title(text("t")),
            UpdateStep::Description(text("d")),
            UpdateStep::PreviewPath(text("/p.png")),
            UpdateStep::Tags(vec![text("a"), text("b")]),
            UpdateStep::ContentPath(text("/content")),
            UpdateStep::Visibility(ERemoteStoragePublishedFileVisibility::FriendsOnly),
        ]
    );
    assert_eq!(submission.change_note, Some(text("note")));
}

#[test]
fn submit_skips_what_is_not_given() {
    let update = UgcUpdate {
        title: None,
        description: Some(text("d")),
        change_note: None,
        preview_path: None,
        content_path: Some(text("/content")),
        tags: None,
        visibility: None,
    };
    let submission = update.submit();
    assert_eq!(
        submission.steps,
        vec![UpdateStep::Description(text("d")), UpdateStep::ContentPath(text("/content"))]
    );
    assert_eq!(submission.change_note, None);
}

#[test]
fn submit_of_empty_update_has_no_steps() {
    let update = UgcUpdate {
        title: None,
        description: None,
        change_note: Some(text("only a note")),
        preview_path: None,
        content_path: None,
        tags: None,
        visibility: None,
    };
    let submission = update.submit();
    assert!(submission.steps.is_empty());
    assert_eq!(submission.change_note, Some(text("only a note")));
}

#[test]
fn submit_keeps_empty_values() {
    let update = UgcUpdate {
        title: Some(String::new()),
        description: None,
        change_note: None,
        preview_path: None,
        content_path: None,
        tags: Some(Vec::new()),
        visibility: Some(ERemoteStoragePublishedFileVisibility::Public),
    };
    assert_eq!(
        update.submit().steps,
        vec![
            UpdateStep::Title(String::new()),
            UpdateStep::Tags(Vec::new()),
            UpdateStep::Visibility(ERemoteStoragePublishedFileVisibility::Public),
        ]
    );
}

#[test]
fn query_steps_follow_the_options() {
    let options = WorkshopItemQueryOptions {
        cached_response_max_age: Some(60),
        include_metadata: Some(true),
        include_long_description: Some(false),
        language: Some(text("english")),
    };
    assert_eq!(
        query_steps(Some(options)),
        vec![
            QueryStep::AllowCachedResponse(60),
            QueryStep::IncludeMetadata(true),
            QueryStep::IncludeLongDesc(false),
            QueryStep::Language(text("english")),
        ]
    );
}

#[test]
fn query_steps_skip_what_is_not_given() {
    let options = WorkshopItemQueryOptions {
        cached_response_max_age: None,
        include_metadata: None,
        include_long_description: Some(true),
        language: None,
    };
    assert_eq!(query_steps(Some(options)), vec![QueryStep::IncludeLongDesc(true)]);
    assert_eq!(query_steps(None), Vec::<QueryStep>::new());
    let nothing = WorkshopItemQueryOptions {
        cached_response_max_age: None,
        include_metadata: None,
        include_long_description: None,
        language: None,
    };
    assert_eq!(query_steps(Some(nothing)), Vec::<QueryStep>::new());
}

#[test]
fn from_query_keeps_every_value() {
    assert_eq!(
        WorkshopItem::from_query(result(5, "five"), Some(text("https://example.invalid/p"))),
        item(5, "five", Some("https://example.invalid/p"))
    );
    assert_eq!(WorkshopItem::from_query(result(6, "six"), None), item(6, "six", None));
}

#[test]
fn workshop_item_is_none_where_nothing_was_found() {
    assert_eq!(
        workshop_item(QueryEntry { result: None, preview_url: Some(text("unused")) }),
        None
    );
    assert_eq!(
        workshop_item(QueryEntry { result: Some(result(1, "one")), preview_url: None }),
        Some(item(1, "one", None))
    );
}

#[test]
fn workshop_items_keep_positions() {
    let entries = vec![
        QueryEntry { result: Some(result(1, "one")), preview_url: Some(text("u1")) },
        QueryEntry { result: None, preview_url: None },
        QueryEntry { result: Some(result(3, "three")), preview_url: None },
    ];
    assert_eq!(
        workshop_items(entries),
        vec![Some(item(1, "one", Some("u1"))), None, Some(item(3, "three", None))]
    );
    assert_eq!(workshop_items(Vec::new()), Vec::<Option<WorkshopItem>>::new());
}

#[test]
fn ugc_result_names_the_values() {
    assert_eq!(
        ugc_result(Ok((123, true))),
        Ok(UgcResult { item_id: 123, needs_to_accept_agreement: true })
    );
    assert_eq!(
        ugc_result(Ok((u64::MAX, false))),
        Ok(UgcResult { item_id: u64::MAX, needs_to_accept_agreement: false })
    );
    assert_eq!(
        ugc_result(Err(BridgeError::NativeFailure(9))),
        Err(BridgeError::NativeFailure(9))
    );
    assert_eq!(ugc_result(Err(BridgeError::LaunchFailure)), Err(BridgeError::LaunchFailure));
}

#[test]
fn update_progress_is_a_plain_value() {
    let a = UpdateProgress { status: EItemUpdateStatus::UploadingContent, progress: 5, total: 10 };
    let b = a;
    assert_eq!(a, b);
    assert_eq!(b.progress, 5);
    assert_eq!(b.total, 10);
}

fn plain_update() -> UgcUpdate {
    UgcUpdate {
        title: Some(text("t")),
        description: None,
        change_note: Some(text("note")),
        preview_path: None,
        content_path: None,
        tags: None,
        visibility: None,
    }
}

#[test]
fn followed_update_is_prepared_like_a_submission() {
    let (submission, follow) = update_item_with_callback(plain_update(), true, None);
    assert_eq!(submission.steps, vec![UpdateStep::Title(text("t"))]);
    assert_eq!(submission.change_note, Some(text("note")));
    assert!(!follow.is_reported());
    assert!(follow.is_watching());
    let (_, unwatched) = update_item_with_callback(plain_update(), false, Some(5));
    assert!(!unwatched.is_watching());
    assert!(!unwatched.is_reported());
}

#[test]
fn followed_update_reports_its_result_once() {
    let (_, mut follow) = update_item_with_callback(plain_update(), false, None);
    assert_eq!(
        follow.on_submitted(Ok((42, true))),
        Some(Ok(UgcResult { item_id: 42, needs_to_accept_agreement: true }))
    );
    assert!(follow.is_reported());
    assert_eq!(follow.on_submitted(Ok((43, false))), None);
    assert_eq!(follow.on_submitted(Err(9)), None);
}

#[test]
fn followed_update_reports_a_translated_failure() {
    let (_, mut follow) = update_item_with_callback(plain_update(), true, None);
    assert_eq!(follow.on_submitted(Err(9)), Some(Err(BridgeError::NativeFailure(9))));
    let (_, mut other) = update_item_with_callback(plain_update(), true, None);
    assert_eq!(other.on_submitted(Err(0)), Some(Err(BridgeError::NativeFailure(2))));
}

#[test]
fn followed_update_hands_on_progress_until_the_result() {
    let (_, mut follow) = update_item_with_callback(plain_update(), true, Some(20));
    let sample = UpdateProgress { status: EItemUpdateStatus::UploadingContent, progress: 1, total: 4 };
    assert_eq!(
        follow.on_progress(Reading::Sample(sample)),
        WatchStep { deliver: Some(sample), sleep_ms: Some(20) }
    );
    assert!(follow.is_watching());
    follow.on_submitted(Ok((1, false)));
    assert!(!follow.is_watching());
    for _ in 0..3 {
        assert_eq!(
            follow.on_progress(Reading::Sample(sample)),
            WatchStep { deliver: None, sleep_ms: None }
        );
    }
}

#[test]
fn followed_update_stops_watching_at_the_final_sample() {
    let (_, mut follow) = update_item_with_callback(plain_update(), true, None);
    let last = UpdateProgress { status: EItemUpdateStatus::CommittingChanges, progress: 4, total: 4 };
    assert_eq!(
        follow.on_progress(Reading::Sample(last)),
        WatchStep { deliver: Some(last), sleep_ms: None }
    );
    assert!(!follow.is_watching());
    assert!(!follow.is_reported());
    assert_eq!(
        follow.on_submitted(Ok((7, false))),
        Some(Ok(UgcResult { item_id: 7, needs_to_accept_agreement: false }))
    );
}

#[test]
fn unwatched_update_hands_on_no_progress() {
    let (_, mut follow) = update_item_with_callback(plain_update(), false, None);
    let sample = UpdateProgress { status: EItemUpdateStatus::UploadingContent, progress: 1, total: 4 };
    assert_eq!(
        follow.on_progress(Reading::Sample(sample)),
        WatchStep { deliver: None, sleep_ms: None }
    );
}
