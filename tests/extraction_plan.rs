use anynode::extraction::{
    country_result, extract_args, extract_locality, get_planet_source, plan_country,
    ExtractionError, ExtractionProgress, PlanetSource, ToolRun,
};
use anynode::naming::{extract_output_path, parse_u32, stem_of_extract};
use anynode::publish::{
    mapping_rows, process_file_for_upload, settle_batch, FileAction, UploadResult,
};
use anynode::queue::UploadQueue;

#[test]
fn country_with_one_existing_output_of_three() {
    let ids: Vec<i64> = vec![1, 2, 3];
    let existing = vec![true, false, false];
    let plan = plan_country(&ids, &existing);
    assert_eq!(plan.to_extract, vec![2, 3]);
    assert_eq!(plan.already_complete, 1);
    assert_eq!(plan.total, 3);
    let mut progress = ExtractionProgress::new(&plan);
    assert_eq!(progress.completed, 1);
    let mut invocations = 0;
    for _ in &plan.to_extract {
        invocations += 1;
        let r = extract_locality(1, ToolRun::Exited { success: true, stderr: String::new() }, true);
        assert!(r.is_ok());
        progress.record_success();
    }
    assert_eq!(invocations, 2);
    assert_eq!(progress.completed, 3);
    assert!(country_result("ZZ", &vec![true, true]).is_ok());

    let mut q = UploadQueue::new(10, 100);
    for id in &ids {
        let path = extract_output_path("/out", "ZZ", *id);
        let name = path.rsplit('/').next().unwrap();
        let stem = stem_of_extract(name).unwrap();
        let parsed = parse_u32(&stem).unwrap();
        assert_eq!(parsed as i64, *id);
        let action = process_file_for_upload(&mut q, "ZZ", parsed, &path, true, false);
        assert!(matches!(action, FileAction::Enqueued { .. }));
    }
    assert_eq!(q.len(), 3);
    let batch = q.take_batch();
    let outcomes = batch
        .iter()
        .map(|p| Some(UploadResult { cid: format!("cid-{}", p.locality_id), size: 4 }))
        .collect();
    let outcome = settle_batch(batch, outcomes);
    assert_eq!(outcome.completed.len(), 3);
    let rows = mapping_rows(&outcome.completed);
    assert_eq!(rows.len(), 3);
    assert!(rows.iter().all(|r| r.0 == "ZZ"));
}

#[test]
fn all_outputs_present_schedules_nothing() {
    let plan = plan_country(&vec![7, 8], &vec![true, true]);
    assert!(plan.to_extract.is_empty());
    assert_eq!(ExtractionProgress::new(&plan).completed, 2);
}

#[test]
fn progress_never_passes_total() {
    let plan = plan_country(&vec![5], &vec![true]);
    let mut p = ExtractionProgress::new(&plan);
    p.record_success();
    assert_eq!(p.completed, 1);
}

#[test]
fn region_failures() {
    match extract_locality(9, ToolRun::LaunchFailed("no such tool".to_string()), false) {
        Err(ExtractionError::ExtractionFailed(9, d)) => assert_eq!(d, "no such tool"),
        other => panic!("unexpected {:?}", other),
    }
    match extract_locality(9, ToolRun::Exited { success: false, stderr: "bad bbox".to_string() }, true) {
        Err(ExtractionError::ExtractionFailed(9, d)) => assert_eq!(d, "bad bbox"),
        other => panic!("unexpected {:?}", other),
    }
    match extract_locality(9, ToolRun::Exited { success: true, stderr: String::new() }, false) {
        Err(ExtractionError::ExtractionFailed(9, d)) => assert_eq!(d, "Output file not created"),
        other => panic!("unexpected {:?}", other),
    }
}

#[test]
fn country_failure_is_aggregated() {
    match country_result("ZZ", &vec![true, false, true]) {
        Err(ExtractionError::ExtractionFailed(0, d)) => {
            assert_eq!(d, "Some extraction tasks failed for country: ZZ")
        }
        other => panic!("unexpected {:?}", other),
    }
    assert!(country_result("ZZ", &vec![]).is_ok());
}

#[test]
fn planet_source_resolution() {
    assert!(matches!(get_planet_source(&None, true), Err(ExtractionError::PlanetLocationNotConfigured)));
    let remote = get_planet_source(&Some("https://x/planet.pmtiles".to_string()), false).unwrap();
    assert!(remote.is_remote());
    assert_eq!(remote.as_str(), "https://x/planet.pmtiles");
    let http = get_planet_source(&Some("http://x".to_string()), false).unwrap();
    assert!(http.is_remote());
    let local = get_planet_source(&Some("/data/planet.pmtiles".to_string()), true).unwrap();
    assert!(!local.is_remote());
    assert_eq!(local.as_str(), "/data/planet.pmtiles");
    match get_planet_source(&Some("/missing".to_string()), false) {
        Err(ExtractionError::PlanetFileNotFound(p)) => assert_eq!(p, "/missing"),
        other => panic!("unexpected {:?}", other),
    }
}

#[test]
fn tool_arguments() {
    let src = PlanetSource::Local("/p.pmtiles".to_string());
    let args = extract_args(&src, "/out/ZZ/1.pmtiles", "1,2,3,4");
    assert_eq!(args, vec!["extract", "/p.pmtiles", "/out/ZZ/1.pmtiles", "--bbox=1,2,3,4"]);
}
