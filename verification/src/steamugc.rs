//! Workshop items: the values that cross the bridge, and what the bridge
//! decides about them.

use vstd::prelude::*;
use crate::consts::{CSteamID, EItemUpdateStatus, ERemoteStoragePublishedFileVisibility};
use crate::error::{BridgeError, translate, translate_spec};
use crate::progress::{ProgressWatcher, Reading, WatchState, WatchStep};

verus! {

/// What the creation or the update of a workshop item returned.
#[derive(Clone, Copy, Debug, PartialEq, Eq, Structural)]
pub struct UgcResult {
    /// The identifier of the item.
    pub item_id: u64,
    /// Whether the user still has to accept the workshop's legal agreement.
    pub needs_to_accept_agreement: bool,
}

/// One sample of the progress of an update.
#[derive(Clone, Copy, Debug, PartialEq, Eq, Structural)]
pub struct UpdateProgress {
    /// How far the update has come.
    pub status: EItemUpdateStatus,
    /// The number of bytes processed so far.
    pub progress: u64,
    /// The number of bytes to process, or zero as long as it is not known.
    pub total: u64,
}

/// What the native layer reports when the creation or the update of an item
/// has ended: the identifier of the item and whether the legal agreement is
/// still to be accepted.
pub open spec fn ugc_result_spec(outcome: Result<(u64, bool), BridgeError>) -> Result<
    UgcResult,
    BridgeError,
> {
    match outcome {
        Ok((item_id, needs_to_accept_agreement)) => Ok(
            UgcResult { item_id, needs_to_accept_agreement },
        ),
        Err(error) => Err(error),
    }
}

/// Turns the outcome of a creation or an update into what the host is
/// handed: the values under their names, an error as it is.
pub fn ugc_result(outcome: Result<(u64, bool), BridgeError>) -> (result: Result<
    UgcResult,
    BridgeError,
>)
    ensures
        result == ugc_result_spec(outcome),
{
    match outcome {
        Ok((item_id, needs_to_accept_agreement)) => Ok(
            UgcResult { item_id, needs_to_accept_agreement },
        ),
        Err(error) => Err(error),
    }
}

/// The changes to make to a workshop item. A field that is `None` is left
/// as it is on the item.
#[derive(Debug, PartialEq, Eq)]
pub struct UgcUpdate {
    /// The title.
    pub title: Option<String>,
    /// The description.
    pub description: Option<String>,
    /// The note that describes this change.
    pub change_note: Option<String>,
    /// The path of the preview image.
    pub preview_path: Option<String>,
    /// The path of the folder with the content.
    pub content_path: Option<String>,
    /// The tags.
    pub tags: Option<Vec<String>>,
    /// Who can see the item.
    pub visibility: Option<ERemoteStoragePublishedFileVisibility>,
}

/// One change to apply to a native update before it is submitted.
#[derive(Debug, PartialEq, Eq)]
pub enum UpdateStep {
    Title(String),
    Description(String),
    PreviewPath(String),
    Tags(Vec<String>),
    ContentPath(String),
    Visibility(ERemoteStoragePublishedFileVisibility),
}

/// An update that is ready to be submitted: the changes to apply, in order,
/// and the note to submit them with.
#[derive(Debug, PartialEq, Eq)]
pub struct UpdateSubmission {
    pub steps: Vec<UpdateStep>,
    pub change_note: Option<String>,
}

/// The step that `make` gives for `value`, or no step where there is no
/// value.
pub open spec fn step_if<T, S>(value: Option<T>, make: spec_fn(T) -> S) -> Seq<S> {
    match value {
        Some(value) => seq![make(value)],
        None => Seq::empty(),
    }
}

impl UgcUpdate {
    /// The changes that the update asks for: one step for each field that is
    /// given, in the order title, description, preview, tags, content,
    /// visibility.
    pub open spec fn steps(self) -> Seq<UpdateStep> {
        step_if(self.title, |title: String| UpdateStep::Title(title)) + step_if(
            self.description,
            |description: String| UpdateStep::Description(description),
        ) + step_if(self.preview_path, |path: String| UpdateStep::PreviewPath(path)) + step_if(
            self.tags,
            |tags: Vec<String>| UpdateStep::Tags(tags),
        ) + step_if(self.content_path, |path: String| UpdateStep::ContentPath(path)) + step_if(
            self.visibility,
            |visibility: ERemoteStoragePublishedFileVisibility| UpdateStep::Visibility(visibility),
        )
    }

    /// Makes the update ready to be submitted: the steps to apply to the
    /// native update, in order, and the change note that goes with the
    /// submission itself.
    pub fn submit(self) -> (submission: UpdateSubmission)
        ensures
            submission.steps@ == self.steps(),
            submission.change_note == self.change_note,
    {
        let ghost given = self;
        let UgcUpdate {
            title,
            description,
            change_note,
            preview_path,
            content_path,
            tags,
            visibility,
        } = self;
        let mut steps: Vec<UpdateStep> = Vec::new();
        if let Some(title) = title {
            steps.push(UpdateStep::Title(title));
        }
        let ghost after_title = steps@;
        assert(after_title == step_if(given.title, |title: String| UpdateStep::Title(title)));
        if let Some(description) = description {
            steps.push(UpdateStep::Description(description));
        }
        let ghost after_description = steps@;
        assert(after_description == after_title + step_if(
            given.description,
            |description: String| UpdateStep::Description(description),
        ));
        if let Some(preview_path) = preview_path {
            steps.push(UpdateStep::PreviewPath(preview_path));
        }
        let ghost after_preview = steps@;
        assert(after_preview == after_description + step_if(
            given.preview_path,
            |path: String| UpdateStep::PreviewPath(path),
        ));
        if let Some(tags) = tags {
            steps.push(UpdateStep::Tags(tags));
        }
        let ghost after_tags = steps@;
        assert(after_tags == after_preview + step_if(
            given.tags,
            |tags: Vec<String>| UpdateStep::Tags(tags),
        ));
        if let Some(content_path) = content_path {
            steps.push(UpdateStep::ContentPath(content_path));
        }
        let ghost after_content = steps@;
        assert(after_content == after_tags + step_if(
            given.content_path,
            |path: String| UpdateStep::ContentPath(path),
        ));
        if let Some(visibility) = visibility {
            steps.push(UpdateStep::Visibility(visibility));
        }
        assert(steps@ == after_content + step_if(
            given.visibility,
            |visibility: ERemoteStoragePublishedFileVisibility| UpdateStep::Visibility(visibility),
        ));
        UpdateSubmission { steps, change_note }
    }
}

/// What the native layer reports when an update has ended, as a result for
/// the host: the values under their names, a failure code translated.
pub open spec fn update_report(result: Result<(u64, bool), i32>) -> Result<UgcResult, BridgeError> {
    match result {
        Ok((item_id, needs_to_accept_agreement)) => Ok(
            UgcResult { item_id, needs_to_accept_agreement },
        ),
        Err(code) => Err(translate_spec(code)),
    }
}

/// The mathematical state of an update that is followed to its end.
pub struct ItemUpdateState {
    /// Whether the result of the update has been reported.
    pub reported: bool,
    /// The loop that follows the progress, where the caller asked for one.
    pub watcher: Option<WatchState>,
}

impl ItemUpdateState {
    /// Once the result has been reported, the loop that follows the progress
    /// has ended.
    pub open spec fn wf(self) -> bool {
        self.reported ==> (self.watcher matches Some(watcher) ==> !watcher.active)
    }

    /// The state of an update that was just submitted.
    pub open spec fn submitted(watches_progress: bool, interval_ms: Option<u32>) -> Self {
        ItemUpdateState {
            reported: false,
            watcher: if watches_progress {
                Some(WatchState::started(interval_ms, 0))
            } else {
                None
            },
        }
    }

    /// The state after the native layer announced the end of the update:
    /// the result counts as reported, and the loop that follows the progress
    /// has ended.
    pub open spec fn completed(self) -> Self {
        if self.reported {
            self
        } else {
            ItemUpdateState {
                reported: true,
                watcher: match self.watcher {
                    Some(watcher) => Some(watcher.ended()),
                    None => None,
                },
            }
        }
    }

    /// The state after a reading of the progress.
    pub open spec fn after_reading(self, reading: Reading) -> Self {
        ItemUpdateState {
            reported: self.reported,
            watcher: match self.watcher {
                Some(watcher) => Some(watcher.step(reading)),
                None => None,
            },
        }
    }

    /// What the loop does after a reading of the progress. Without a loop
    /// nothing is handed on and nothing is awaited.
    pub open spec fn progress(self, reading: Reading) -> WatchStep {
        match self.watcher {
            Some(watcher) => watcher.output(reading),
            None => WatchStep { deliver: None, sleep_ms: None },
        }
    }

    /// The state after all of `readings`, in order.
    pub open spec fn run(self, readings: Seq<Reading>) -> Self
        decreases readings.len(),
    {
        if readings.len() == 0 {
            self
        } else {
            self.run(readings.drop_last()).after_reading(readings.last())
        }
    }
}

/// An update of a workshop item from its submission to its end: the result
/// that is owed to the host once, and the loop that follows the progress
/// until then.
#[derive(Debug)]
pub struct ItemUpdate {
    reported: bool,
    watcher: Option<ProgressWatcher>,
}

impl View for ItemUpdate {
    type V = ItemUpdateState;

    closed spec fn view(&self) -> ItemUpdateState {
        ItemUpdateState {
            reported: self.reported,
            watcher: match self.watcher {
                Some(watcher) => Some(watcher@),
                None => None,
            },
        }
    }
}

/// Makes an update ready to be submitted and followed: the steps to apply to
/// the native update with the change note to submit them with, and the state
/// that follows the update to its end. The progress is followed where
/// `watches_progress` says so, every `progress_callback_interval_ms`
/// milliseconds, or every second.
pub fn update_item_with_callback(
    update_details: UgcUpdate,
    watches_progress: bool,
    progress_callback_interval_ms: Option<u32>,
) -> (prepared: (UpdateSubmission, ItemUpdate))
    ensures
        prepared.0.steps@ == update_details.steps(),
        prepared.0.change_note == update_details.change_note,
        prepared.1@ == ItemUpdateState::submitted(
            watches_progress,
            progress_callback_interval_ms,
        ),
        prepared.1@.wf(),
{
    let submission = update_details.submit();
    let watcher = if watches_progress {
        Some(ProgressWatcher::new(progress_callback_interval_ms, 0))
    } else {
        None
    };
    (submission, ItemUpdate { reported: false, watcher })
}

impl ItemUpdate {
    #[verifier::type_invariant]
    spec fn inv(self) -> bool {
        self.reported ==> (self.watcher matches Some(watcher) ==> !watcher@.active)
    }

    /// Whether the result of the update has been reported.
    pub fn is_reported(&self) -> (reported: bool)
        ensures
            reported == self@.reported,
            self@.wf(),
    {
        proof {
            use_type_invariant(self);
        }
        self.reported
    }

    /// Whether the loop that follows the progress goes on. It never does
    /// once the result has been reported.
    pub fn is_watching(&self) -> (watching: bool)
        ensures
            watching == (self@.watcher matches Some(watcher) && watcher.active),
            self@.wf(),
    {
        proof {
            use_type_invariant(self);
        }
        match &self.watcher {
            Some(watcher) => watcher.is_active(),
            None => false,
        }
    }

    /// Takes in the end of the update as the native layer announces it. The
    /// first announcement gives the result to report to the host, a success
    /// or an error, and ends the loop that follows the progress, so that no
    /// sample comes after the result. Every later announcement gives nothing.
    pub fn on_submitted(&mut self, result: Result<(u64, bool), i32>) -> (report: Option<
        Result<UgcResult, BridgeError>,
    >)
        ensures
            final(self)@ == old(self)@.completed(),
            report == (if old(self)@.reported {
                None
            } else {
                Some(update_report(result))
            }),
            final(self)@.wf(),
    {
        proof {
            use_type_invariant(&*self);
        }
        if self.reported {
            return None;
        }
        let mut watcher: Option<ProgressWatcher> = None;
        core::mem::swap(&mut watcher, &mut self.watcher);
        match watcher {
            Some(mut watcher) => {
                watcher.stop();
                self.watcher = Some(watcher);
            },
            None => {},
        }
        self.reported = true;
        match result {
            Ok((item_id, needs_to_accept_agreement)) => Some(
                Ok(UgcResult { item_id, needs_to_accept_agreement }),
            ),
            Err(code) => Some(Err(translate(code))),
        }
    }

    /// Takes in one reading of the progress and says what the loop does
    /// with it. Once the result has been reported, nothing is handed on.
    pub fn on_progress(&mut self, reading: Reading) -> (step: WatchStep)
        ensures
            final(self)@ == old(self)@.after_reading(reading),
            step == old(self)@.progress(reading),
            old(self)@.reported ==> step.deliver is None && step.sleep_ms is None,
            final(self)@.wf(),
    {
        proof {
            use_type_invariant(&*self);
        }
        let mut watcher: Option<ProgressWatcher> = None;
        core::mem::swap(&mut watcher, &mut self.watcher);
        match watcher {
            Some(mut watcher) => {
                let step = watcher.poll(reading);
                self.watcher = Some(watcher);
                step
            },
            None => WatchStep { deliver: None, sleep_ms: None },
        }
    }
}

/// Once the end of an update has been announced, the loop that follows its
/// progress hands on nothing more, however often it reads: the result is the
/// last that the host hears of the update.
pub proof fn lemma_no_progress_after_result(state: ItemUpdateState, readings: Seq<Reading>)
    requires
        !state.reported,
    ensures
        state.completed().run(readings) == state.completed(),
        forall|i: int|
            0 <= i < readings.len() ==> (#[trigger] state.completed().run(
                readings.take(i),
            ).progress(readings[i])).deliver is None,
    decreases readings.len(),
{
    if readings.len() > 0 {
        lemma_no_progress_after_result(state, readings.drop_last());
        assert forall|i: int| 0 <= i < readings.len() implies (#[trigger] state.completed().run(
            readings.take(i),
        ).progress(readings[i])).deliver is None by {
            lemma_no_progress_after_result(state, readings.take(i));
        }
    }
}

/// How a query for workshop items is to be answered. A field that is `None`
/// leaves the native default.
#[derive(Debug, PartialEq, Eq)]
pub struct WorkshopItemQueryOptions {
    /// The greatest age, in seconds, of a cached answer that will do.
    pub cached_response_max_age: Option<u32>,
    /// Whether the metadata that the developer gave the items are returned.
    pub include_metadata: Option<bool>,
    /// Whether the full description is returned, not only its beginning.
    pub include_long_description: Option<bool>,
    /// The language of the titles and descriptions.
    pub language: Option<String>,
}

/// One setting to apply to a native query before it is sent.
#[derive(Debug, PartialEq, Eq)]
pub enum QueryStep {
    AllowCachedResponse(u32),
    IncludeMetadata(bool),
    IncludeLongDesc(bool),
    Language(String),
}

impl WorkshopItemQueryOptions {
    /// The settings that the options ask for: one step for each field that
    /// is given, in the order cache age, metadata, long description,
    /// language.
    pub open spec fn steps(self) -> Seq<QueryStep> {
        step_if(self.cached_response_max_age, |age: u32| QueryStep::AllowCachedResponse(age))
            + step_if(self.include_metadata, |wanted: bool| QueryStep::IncludeMetadata(wanted))
            + step_if(
            self.include_long_description,
            |wanted: bool| QueryStep::IncludeLongDesc(wanted),
        ) + step_if(self.language, |language: String| QueryStep::Language(language))
    }
}

/// The settings to apply to a native query: those of `query`, and none where
/// the caller gave no options.
pub open spec fn query_steps_spec(query: Option<WorkshopItemQueryOptions>) -> Seq<QueryStep> {
    match query {
        Some(options) => options.steps(),
        None => Seq::empty(),
    }
}

/// The settings to apply to a native query before it is sent, in order.
pub fn query_steps(query: Option<WorkshopItemQueryOptions>) -> (steps: Vec<QueryStep>)
    ensures
        steps@ == query_steps_spec(query),
{
    let mut steps: Vec<QueryStep> = Vec::new();
    if let Some(options) = query {
        let ghost given = options;
        let WorkshopItemQueryOptions {
            cached_response_max_age,
            include_metadata,
            include_long_description,
            language,
        } = options;
        if let Some(age) = cached_response_max_age {
            steps.push(QueryStep::AllowCachedResponse(age));
        }
        let ghost after_age = steps@;
        assert(after_age == step_if(
            given.cached_response_max_age,
            |age: u32| QueryStep::AllowCachedResponse(age),
        ));
        if let Some(wanted) = include_metadata {
            steps.push(QueryStep::IncludeMetadata(wanted));
        }
        let ghost after_metadata = steps@;
        assert(after_metadata == after_age + step_if(
            given.include_metadata,
            |wanted: bool| QueryStep::IncludeMetadata(wanted),
        ));
        if let Some(wanted) = include_long_description {
            steps.push(QueryStep::IncludeLongDesc(wanted));
        }
        let ghost after_long = steps@;
        assert(after_long == after_metadata + step_if(
            given.include_long_description,
            |wanted: bool| QueryStep::IncludeLongDesc(wanted),
        ));
        if let Some(language) = language {
            steps.push(QueryStep::Language(language));
        }
        assert(steps@ == after_long + step_if(
            given.language,
            |language: String| QueryStep::Language(language),
        ));
    }
    steps
}

/// One workshop item as the native layer describes it in the answer to a
/// query.
#[derive(Debug, PartialEq, Eq)]
pub struct QueryResult {
    pub published_file_id: u64,
    pub creator_app_id: Option<u32>,
    pub consumer_app_id: Option<u32>,
    pub title: String,
    pub description: String,
    pub owner: CSteamID,
    pub time_created: u32,
    pub time_updated: u32,
    pub banned: bool,
    pub accepted_for_use: bool,
    pub tags: Vec<String>,
    pub tags_truncated: bool,
    pub url: String,
    pub num_upvotes: u32,
    pub num_downvotes: u32,
    pub num_children: u32,
}

/// One workshop item as the host is handed it.
#[derive(Debug, PartialEq, Eq)]
pub struct WorkshopItem {
    /// The identifier of the item.
    pub published_file_id: u64,
    /// The application that created the item.
    pub creator_app_id: Option<u32>,
    /// The application that will use the item.
    pub consumer_app_id: Option<u32>,
    /// The title.
    pub title: String,
    /// The description.
    pub description: String,
    /// The user who created the item.
    pub owner: CSteamID,
    /// When the item was created, in seconds since 1970.
    pub time_created: u32,
    /// When the item was last updated, in seconds since 1970.
    pub time_updated: u32,
    /// Whether the item is banned.
    pub banned: bool,
    /// Whether the developer has marked the item as accepted.
    pub accepted_for_use: bool,
    /// The tags of the item.
    pub tags: Vec<String>,
    /// Whether the list of tags was too long and has been cut.
    pub tags_truncated: bool,
    /// The address that belongs to the item.
    pub url: String,
    /// The number of votes for the item.
    pub num_upvotes: u32,
    /// The number of votes against the item.
    pub num_downvotes: u32,
    /// The number of items in the collection, or that the item depends on.
    pub num_children: u32,
    /// The address of the preview image.
    pub preview_url: Option<String>,
}

impl WorkshopItem {
    /// The item that the host is handed for `result`: every value as the
    /// native layer gave it, and the address of the preview beside them.
    pub open spec fn from_query_spec(result: QueryResult, preview_url: Option<String>) -> Self {
        WorkshopItem {
            published_file_id: result.published_file_id,
            creator_app_id: result.creator_app_id,
            consumer_app_id: result.consumer_app_id,
            title: result.title,
            description: result.description,
            owner: result.owner,
            time_created: result.time_created,
            time_updated: result.time_updated,
            banned: result.banned,
            accepted_for_use: result.accepted_for_use,
            tags: result.tags,
            tags_truncated: result.tags_truncated,
            url: result.url,
            num_upvotes: result.num_upvotes,
            num_downvotes: result.num_downvotes,
            num_children: result.num_children,
            preview_url,
        }
    }

    /// The item that the host is handed for `result`.
    pub fn from_query(result: QueryResult, preview_url: Option<String>) -> (item: Self)
        ensures
            item == Self::from_query_spec(result, preview_url),
    {
        WorkshopItem {
            published_file_id: result.published_file_id,
            creator_app_id: result.creator_app_id,
            consumer_app_id: result.consumer_app_id,
            title: result.title,
            description: result.description,
            owner: result.owner,
            time_created: result.time_created,
            time_updated: result.time_updated,
            banned: result.banned,
            accepted_for_use: result.accepted_for_use,
            tags: result.tags,
            tags_truncated: result.tags_truncated,
            url: result.url,
            num_upvotes: result.num_upvotes,
            num_downvotes: result.num_downvotes,
            num_children: result.num_children,
            preview_url,
        }
    }
}

/// One entry of the answer to a query: what the native layer found at one
/// position, and the address of the preview image at that position.
#[derive(Debug, PartialEq, Eq)]
pub struct QueryEntry {
    pub result: Option<QueryResult>,
    pub preview_url: Option<String>,
}

/// The item for one entry: none where the native layer found none at that
/// position.
pub open spec fn workshop_item_spec(entry: QueryEntry) -> Option<WorkshopItem> {
    match entry.result {
        Some(result) => Some(WorkshopItem::from_query_spec(result, entry.preview_url)),
        None => None,
    }
}

/// The item for one entry of the answer to a query.
pub fn workshop_item(entry: QueryEntry) -> (item: Option<WorkshopItem>)
    ensures
        item == workshop_item_spec(entry),
{
    let QueryEntry { result, preview_url } = entry;
    match result {
        Some(result) => Some(WorkshopItem::from_query(result, preview_url)),
        None => None,
    }
}

/// The items for the entries of the answer to a query: one for each entry,
/// at the position of the entry.
pub fn workshop_items(entries: Vec<QueryEntry>) -> (items: Vec<Option<WorkshopItem>>)
    ensures
        items@ == entries@.map_values(|entry: QueryEntry| workshop_item_spec(entry)),
{
    let ghost given = entries@;
    let mut items: Vec<Option<WorkshopItem>> = Vec::new();
    for entry in iter: entries
        invariant
            iter.seq() == given,
            items@ == given.take(iter.index() as int).map_values(
                |entry: QueryEntry| workshop_item_spec(entry),
            ),
    {
        items.push(workshop_item(entry));
    }
    assert(given.take(given.len() as int) == given);
    items
}

} // verus!
