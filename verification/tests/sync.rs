use emoji_sync::categories::Categories;
use emoji_sync::coordinator::{plan_sync, ManifestFetchError, SyncRequest};
use emoji_sync::descriptor::AssetDescriptor;
use emoji_sync::filter::filter_by_category;
use emoji_sync::outcome::{settle, DownloadOutcome, DownloadResult, ItemResult, ItemStatus};
use emoji_sync::report::{build_report, SyncReport};
use emoji_sync::writer::{extension_of, target_path, WriteError};

fn descriptor(shortcode: &str, static_url: &str, category: &str) -> AssetDescriptor {
    AssetDescriptor {
        shortcode: shortcode.to_string(),
        static_url: static_url.to_string(),
        category: category.to_string(),
    }
}

#[test]
fn parse_splits_on_commas() {
    let c = Categories::parse("fun,other");
    assert_eq!(c.value, vec!["fun".to_string(), "other".to_string()]);
}

#[test]
fn parse_empty_input_is_one_empty_category() {
    let c = Categories::parse("");
    assert_eq!(c.value, vec!["".to_string()]);
}

#[test]
fn parse_keeps_empty_segments() {
    let c = Categories::parse("a,,b");
    assert_eq!(
        c.value,
        vec!["a".to_string(), "".to_string(), "b".to_string()]
    );
    let d = Categories::parse("a,");
    assert_eq!(d.value, vec!["a".to_string(), "".to_string()]);
}

#[test]
fn contains_is_exact_and_case_sensitive() {
    let c = Categories::parse("fun,other");
    assert!(c.contains(&"fun".to_string()));
    assert!(c.contains(&"other".to_string()));
    assert!(!c.contains(&"Fun".to_string()));
    assert!(!c.contains(&"fu".to_string()));
    assert!(!c.contains(&"".to_string()));
}

#[test]
fn filter_keeps_matching_descriptors_in_order() {
    let manifest = vec![
        descriptor("blob", "https://cdn/e/blob.png", "fun"),
        descriptor("wave", "https://cdn/e/wave.gif", "other"),
        descriptor("hug", "https://cdn/e/hug.png", "fun"),
    ];
    let cats = Categories::parse("fun");
    let kept = filter_by_category(&manifest, &cats);
    assert_eq!(kept.len(), 2);
    assert_eq!(kept[0].shortcode, "blob");
    assert_eq!(kept[1].shortcode, "hug");
}

#[test]
fn filter_with_no_match_keeps_nothing() {
    let manifest = vec![
        descriptor("blob", "https://cdn/e/blob.png", "fun"),
        descriptor("wave", "https://cdn/e/wave.gif", "other"),
    ];
    let cats = Categories::parse("absent");
    let kept = filter_by_category(&manifest, &cats);
    assert!(kept.is_empty());
}

#[test]
fn empty_string_filter_downloads_nothing() {
    let manifest = vec![
        descriptor("blob", "https://cdn/e/blob.png", "fun"),
        descriptor("wave", "https://cdn/e/wave.gif", "other"),
    ];
    let cats = Categories::parse("");
    let kept = filter_by_category(&manifest, &cats);
    assert!(kept.is_empty());
    let report = build_report(&Vec::new());
    assert_eq!(report.downloaded_count, 0);
    assert!(report.failures.is_empty());
}

#[test]
fn empty_string_filter_still_matches_empty_category() {
    let manifest = vec![descriptor("odd", "https://cdn/e/odd.png", "")];
    let cats = Categories::parse("");
    let kept = filter_by_category(&manifest, &cats);
    assert_eq!(kept.len(), 1);
    assert_eq!(kept[0].shortcode, "odd");
}

#[test]
fn extension_comes_from_final_segment() {
    assert_eq!(extension_of("https://cdn/e/blob.png"), "png");
    assert_eq!(extension_of("https://cdn/e/wave.gif"), "gif");
    assert_eq!(extension_of("https://cdn/e/arch.tar.gz"), "gz");
}

#[test]
fn extension_defaults_to_png_without_dot() {
    assert_eq!(extension_of("https://cdn/e/blob"), "png");
    // Dots earlier in the URL do not count: only the final path segment.
    assert_eq!(extension_of("https://cdn.example.net/e/blob"), "png");
    assert_eq!(extension_of(""), "png");
}

#[test]
fn target_path_is_category_scoped() {
    let d = descriptor("blob", "https://cdn/e/blob.png", "fun");
    assert_eq!(target_path("base", &d), "base/fun/blob.png");
}

#[test]
fn target_path_is_stable_across_runs() {
    let d = descriptor("blob", "https://cdn/e/blob.png", "fun");
    let first = target_path("base", &d);
    let second = target_path("base", &d);
    assert_eq!(first, second);
}

#[test]
fn colliding_descriptors_share_a_path() {
    let d1 = descriptor("blob", "https://cdn/e/blob.png", "fun");
    let d2 = descriptor("blob", "https://mirror/alt/blob.png", "fun");
    assert_eq!(target_path("base", &d1), target_path("base", &d2));
}

#[test]
fn manifest_url_names_the_custom_emojis_endpoint() {
    let request = SyncRequest {
        instance_host: "example.social".to_string(),
        categories: Categories::parse("fun"),
    };
    assert_eq!(
        request.manifest_url(),
        "https://example.social/api/v1/custom_emojis"
    );
}

#[test]
fn fetch_failure_aborts_before_any_download() {
    let cats = Categories::parse("fun");
    let planned = plan_sync(Err(ManifestFetchError::HttpStatus(404)), &cats);
    assert!(matches!(planned, Err(ManifestFetchError::HttpStatus(404))));
}

#[test]
fn fetch_error_variants_pass_through() {
    let cats = Categories::parse("fun");
    let network = plan_sync(
        Err(ManifestFetchError::Network("connection refused".to_string())),
        &cats,
    );
    assert!(matches!(network, Err(ManifestFetchError::Network(m)) if m == "connection refused"));
    let decode = plan_sync(
        Err(ManifestFetchError::Decode("expected an array".to_string())),
        &cats,
    );
    assert!(matches!(decode, Err(ManifestFetchError::Decode(m)) if m == "expected an array"));
}

#[test]
fn single_matching_asset_scenario() {
    let manifest = vec![
        descriptor("blob", "https://cdn/e/blob.png", "fun"),
        descriptor("wave", "https://cdn/e/wave.gif", "other"),
    ];
    let cats = Categories::parse("fun");
    let planned = plan_sync(Ok(manifest), &cats).unwrap();
    assert_eq!(planned.len(), 1);
    assert_eq!(planned[0].shortcode, "blob");
    assert_eq!(target_path("base", &planned[0]), "base/fun/blob.png");

    let mut results: Vec<ItemResult> = Vec::new();
    for d in planned {
        let downloaded = DownloadResult {
            descriptor: d,
            outcome: DownloadOutcome::Success(vec![1, 2, 3]),
        };
        results.push(settle(downloaded, Some(Ok(()))));
    }
    let report = build_report(&results);
    assert_eq!(report.downloaded_count, 1);
    assert!(report.failures.is_empty());
}

#[test]
fn settle_marks_the_failing_stage() {
    let ok = settle(
        DownloadResult {
            descriptor: descriptor("blob", "https://cdn/e/blob.png", "fun"),
            outcome: DownloadOutcome::Success(vec![7]),
        },
        Some(Ok(())),
    );
    assert!(matches!(ok.status, ItemStatus::Written));

    let down = settle(
        DownloadResult {
            descriptor: descriptor("blob", "https://cdn/e/blob.png", "fun"),
            outcome: DownloadOutcome::Failure("timeout".to_string()),
        },
        None,
    );
    assert!(matches!(down.status, ItemStatus::DownloadFailed(m) if m == "timeout"));

    let write = settle(
        DownloadResult {
            descriptor: descriptor("blob", "https://cdn/e/blob.png", "fun"),
            outcome: DownloadOutcome::Success(vec![7]),
        },
        Some(Err(WriteError::FileWrite("disk full".to_string()))),
    );
    assert!(matches!(
        write.status,
        ItemStatus::WriteFailed(WriteError::FileWrite(m)) if m == "disk full"
    ));
}

#[test]
fn write_error_message_is_the_carried_text() {
    assert_eq!(
        WriteError::DirCreate("permission denied".to_string()).message(),
        "permission denied"
    );
    assert_eq!(
        WriteError::FileWrite("disk full".to_string()).message(),
        "disk full"
    );
}

#[test]
fn one_failure_does_not_stop_the_others() {
    let plan = vec![
        descriptor("x", "https://cdn/e/x.png", "fun"),
        descriptor("y", "https://cdn/e/y.png", "fun"),
        descriptor("z", "https://cdn/e/z.png", "fun"),
    ];
    let mut results: Vec<ItemResult> = Vec::new();
    for (i, d) in plan.into_iter().enumerate() {
        let outcome = if i == 0 {
            DownloadOutcome::Failure("connection reset".to_string())
        } else {
            DownloadOutcome::Success(vec![0])
        };
        let write_result = if i == 0 { None } else { Some(Ok(())) };
        results.push(settle(DownloadResult { descriptor: d, outcome }, write_result));
    }
    let report = build_report(&results);
    assert_eq!(report.downloaded_count, 2);
    assert_eq!(report.failures.len(), 1);
    assert_eq!(report.failures[0].shortcode, "x");
    assert_eq!(report.failures[0].category, "fun");
    assert_eq!(report.failures[0].reason, "connection reset");
}

#[test]
fn report_counts_only_written_items() {
    let results = vec![
        ItemResult {
            descriptor: descriptor("a", "https://cdn/e/a.png", "fun"),
            status: ItemStatus::Written,
        },
        ItemResult {
            descriptor: descriptor("b", "https://cdn/e/b.png", "fun"),
            status: ItemStatus::DownloadFailed("404".to_string()),
        },
        ItemResult {
            descriptor: descriptor("c", "https://cdn/e/c.png", "fun"),
            status: ItemStatus::WriteFailed(WriteError::DirCreate("denied".to_string())),
        },
        ItemResult {
            descriptor: descriptor("d", "https://cdn/e/d.png", "fun"),
            status: ItemStatus::Written,
        },
    ];
    let report = build_report(&results);
    assert_eq!(report.downloaded_count, 2);
    assert_eq!(report.failures.len(), 2);
    assert_eq!(report.failures[0].shortcode, "b");
    assert_eq!(report.failures[0].reason, "404");
    assert_eq!(report.failures[1].shortcode, "c");
    assert_eq!(report.failures[1].reason, "denied");
}

#[test]
fn incremental_recording_matches_batch_aggregation() {
    let results = vec![
        ItemResult {
            descriptor: descriptor("a", "https://cdn/e/a.png", "fun"),
            status: ItemStatus::Written,
        },
        ItemResult {
            descriptor: descriptor("b", "https://cdn/e/b.png", "fun"),
            status: ItemStatus::DownloadFailed("timeout".to_string()),
        },
    ];
    let mut incremental = SyncReport::new();
    for r in &results {
        incremental.record_item(r);
    }
    let batch = build_report(&results);
    assert_eq!(incremental.downloaded_count, batch.downloaded_count);
    assert_eq!(incremental.failures.len(), batch.failures.len());
    assert_eq!(incremental.failures[0].shortcode, batch.failures[0].shortcode);
    assert_eq!(incremental.failures[0].reason, batch.failures[0].reason);
}

#[test]
fn rerun_with_unchanged_manifest_plans_the_same_work() {
    let manifest = vec![
        descriptor("blob", "https://cdn/e/blob.png", "fun"),
        descriptor("wave", "https://cdn/e/wave.gif", "other"),
    ];
    let cats = Categories::parse("fun,other");
    let first = filter_by_category(&manifest, &cats);
    let second = filter_by_category(&manifest, &cats);
    assert_eq!(first.len(), second.len());
    for (a, b) in first.iter().zip(second.iter()) {
        assert_eq!(a.shortcode, b.shortcode);
        assert_eq!(a.category, b.category);
        assert_eq!(target_path("base", a), target_path("base", b));
    }
}
