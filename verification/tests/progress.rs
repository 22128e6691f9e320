use steam_bridge::consts::EItemUpdateStatus;
use steam_bridge::progress::{
    classify, ProgressWatcher, Reading, StatusClass, WatchStep, DEFAULT_INTERVAL_MS,
};
use steam_bridge::steamugc::UpdateProgress;

fn sample(status: EItemUpdateStatus, progress: u64, total: u64) -> UpdateProgress {
    UpdateProgress { status, progress, total }
}

const ENDED: WatchStep = WatchStep { deliver: None, sleep_ms: None };

#[test]
fn classify_sorts_every_status() {
    assert_eq!(classify(EItemUpdateStatus::Invalid), StatusClass::Invalid);
    assert_eq!(classify(EItemUpdateStatus::PreparingConfig), StatusClass::InProgress);
    assert_eq!(classify(EItemUpdateStatus::PreparingContent), StatusClass::InProgress);
    assert_eq!(classify(EItemUpdateStatus::UploadingContent), StatusClass::InProgress);
    assert_eq!(classify(EItemUpdateStatus::UploadingPreviewFile), StatusClass::InProgress);
    assert_eq!(classify(EItemUpdateStatus::CommittingChanges), StatusClass::Terminal);
}

#[test]
fn default_interval_is_one_second() {
    assert_eq!(DEFAULT_INTERVAL_MS, 1000);
    assert_eq!(ProgressWatcher::new(None, 0).interval_ms(), 1000);
    assert_eq!(ProgressWatcher::new(Some(250), 0).interval_ms(), 250);
    assert_eq!(ProgressWatcher::new(Some(0), 0).interval_ms(), 0);
    assert_eq!(ProgressWatcher::new(Some(u32::MAX), 0).interval_ms(), 4294967295);
}

#[test]
fn four_samples_ending_in_terminal_are_all_delivered_then_nothing() {
    let samples = [
        sample(EItemUpdateStatus::PreparingConfig, 0, 0),
        sample(EItemUpdateStatus::PreparingConfig, 0, 100),
        sample(EItemUpdateStatus::UploadingContent, 40, 100),
        sample(EItemUpdateStatus::CommittingChanges, 100, 100),
    ];
    let mut watcher = ProgressWatcher::new(Some(50), 0);
    let mut delivered = Vec::new();
    for (i, s) in samples.iter().enumerate() {
        assert!(watcher.is_active());
        let step = watcher.poll(Reading::Sample(*s));
        if let Some(d) = step.deliver {
            delivered.push(d);
        }
        if i < 3 {
            assert_eq!(step.sleep_ms, Some(50));
        } else {
            assert_eq!(step.sleep_ms, None);
        }
    }
    assert_eq!(delivered, samples.to_vec());
    assert_eq!(delivered.len(), 4);
    assert!(!watcher.is_active());
    assert_eq!(
        watcher.poll(Reading::Sample(sample(EItemUpdateStatus::UploadingContent, 1, 2))),
        ENDED
    );
}

#[test]
fn invalid_sample_stops_the_watcher_for_good() {
    let mut watcher = ProgressWatcher::new(None, 0);
    let first = sample(EItemUpdateStatus::PreparingContent, 1, 10);
    let second = sample(EItemUpdateStatus::Invalid, 0, 0);
    assert_eq!(
        watcher.poll(Reading::Sample(first)),
        WatchStep { deliver: Some(first), sleep_ms: Some(1000) }
    );
    assert_eq!(
        watcher.poll(Reading::Sample(second)),
        WatchStep { deliver: Some(second), sleep_ms: None }
    );
    assert!(!watcher.is_active());
    for _ in 0..3 {
        assert_eq!(watcher.poll(Reading::Sample(first)), ENDED);
        assert_eq!(watcher.poll(Reading::Sample(second)), ENDED);
        assert_eq!(watcher.poll(Reading::Failed), ENDED);
    }
}

#[test]
fn first_sample_may_be_final() {
    let mut watcher = ProgressWatcher::new(None, 0);
    let only = sample(EItemUpdateStatus::CommittingChanges, 5, 5);
    assert_eq!(
        watcher.poll(Reading::Sample(only)),
        WatchStep { deliver: Some(only), sleep_ms: None }
    );
    assert!(!watcher.is_active());
}

#[test]
fn stop_ends_the_loop_between_samples() {
    let mut watcher = ProgressWatcher::new(Some(10), 0);
    let s = sample(EItemUpdateStatus::UploadingContent, 1, 2);
    assert_eq!(
        watcher.poll(Reading::Sample(s)),
        WatchStep { deliver: Some(s), sleep_ms: Some(10) }
    );
    watcher.stop();
    assert!(!watcher.is_active());
    assert_eq!(watcher.poll(Reading::Sample(s)), ENDED);
    watcher.stop();
    assert!(!watcher.is_active());
}

#[test]
fn failed_read_is_retried() {
    let mut watcher = ProgressWatcher::new(Some(10), 3);
    let retry = WatchStep { deliver: None, sleep_ms: Some(10) };
    assert_eq!(watcher.poll(Reading::Failed), retry);
    assert_eq!(watcher.poll(Reading::Failed), retry);
    assert!(watcher.is_active());
    let s = sample(EItemUpdateStatus::UploadingContent, 1, 2);
    assert_eq!(
        watcher.poll(Reading::Sample(s)),
        WatchStep { deliver: Some(s), sleep_ms: Some(10) }
    );
    assert_eq!(watcher.poll(Reading::Failed), retry);
    assert_eq!(watcher.poll(Reading::Failed), retry);
    assert!(watcher.is_active());
}

#[test]
fn persistent_failure_counts_as_invalid() {
    let mut watcher = ProgressWatcher::new(Some(10), 3);
    let retry = WatchStep { deliver: None, sleep_ms: Some(10) };
    assert_eq!(watcher.poll(Reading::Failed), retry);
    assert_eq!(watcher.poll(Reading::Failed), retry);
    assert_eq!(
        watcher.poll(Reading::Failed),
        WatchStep {
            deliver: Some(sample(EItemUpdateStatus::Invalid, 0, 0)),
            sleep_ms: None
        }
    );
    assert!(!watcher.is_active());
    assert_eq!(watcher.poll(Reading::Failed), ENDED);
}

#[test]
fn limit_of_one_gives_up_on_the_first_failure() {
    let mut watcher = ProgressWatcher::new(None, 1);
    assert_eq!(
        watcher.poll(Reading::Failed),
        WatchStep {
            deliver: Some(sample(EItemUpdateStatus::Invalid, 0, 0)),
            sleep_ms: None
        }
    );
}

#[test]
fn without_limit_failures_are_retried_without_end() {
    let mut watcher = ProgressWatcher::new(Some(1), 0);
    for _ in 0..1000 {
        assert_eq!(
            watcher.poll(Reading::Failed),
            WatchStep { deliver: None, sleep_ms: Some(1) }
        );
    }
    assert!(watcher.is_active());
}
