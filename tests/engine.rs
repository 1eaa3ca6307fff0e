use photos_export::date::CalendarDate;
use photos_export::engine::{
    check_copy_destination, collision_candidate, order_tasks, Answer, ExportEngine, ExportMetadata, ExportOutcome, ExportRun, StepAction,
};
use photos_export::model::{Asset, AssociatedRaw, Library};
use photos_export::task::{AssetMapping, ExportTask};
use photos_export::uti::Uti;

fn task(id: i32) -> ExportTask {
    let a = Asset {
        id,
        uuid: format!("U{}", id),
        dir: "d".to_string(),
        filename: format!("f{}.jpeg", id),
        derivate_uti: Uti::from_name("public.jpeg").ok().unwrap(),
        datetime: CalendarDate::new(2020, 5, 5).unwrap(),
        hidden: false,
        original_filename: format!("IMG{}.JPG", id),
        has_adjustments: false,
        album_ids: vec![],
        raw_image: AssociatedRaw::Absent,
    };
    ExportTask::Copy(AssetMapping::for_original(&Library::new("/lib".to_string()), a))
}

fn id_of(t: &ExportTask) -> i32 {
    match t {
        ExportTask::Copy(m) => m.asset.id,
        ExportTask::Delete(_) => -1,
    }
}

#[test]
fn partial_failure_keeps_going() {
    let engine = ExportEngine::new();
    let mut run = engine.start(Answer::Yes).unwrap();
    let tasks: Vec<ExportTask> = (1..=5).map(task).collect();
    for (i, t) in tasks.iter().enumerate() {
        let outcome = if i == 2 { Err("cannot create directory".to_string()) } else { Ok(()) };
        run.record(t, outcome);
    }
    match run.finish() {
        ExportOutcome::Failure(n, failures) => {
            assert_eq!(n, 4);
            assert_eq!(failures.len(), 1);
            assert_eq!(failures[0].source, "/lib/originals/d/f3.jpeg");
            assert_eq!(failures[0].destination, "f3.jpeg");
            assert_eq!(failures[0].message, "cannot create directory");
        }
        ExportOutcome::Success(_) => panic!("expected a failure"),
    }
}

#[test]
fn all_successes_report_success() {
    let mut run = ExportRun::new();
    for id in 1..=3 {
        run.record(&task(id), Ok(()));
    }
    assert!(matches!(run.finish(), ExportOutcome::Success(3)));
}

#[test]
fn declining_does_nothing() {
    assert!(ExportEngine::new().start(Answer::No).is_none());
}

#[test]
fn step_actions() {
    let engine = ExportEngine::new();
    match engine.plan_step(&task(1)) {
        StepAction::Copy { source, destination } => {
            assert_eq!(source, "/lib/originals/d/f1.jpeg");
            assert_eq!(destination, "f1.jpeg");
        }
        _ => panic!("expected a copy"),
    }
    let mut skipped = task(2);
    if let ExportTask::Copy(m) = &mut skipped {
        m.skip = true;
    }
    assert!(matches!(engine.plan_step(&skipped), StepAction::Nothing));
    assert!(matches!(
        engine.plan_step(&ExportTask::Delete("/out/x".to_string())),
        StepAction::Delete { path } if path == "/out/x"
    ));
    assert!(matches!(ExportEngine::dry_run().plan_step(&task(1)), StepAction::Nothing));
}

#[test]
fn tasks_run_in_asset_order_with_deletions_last() {
    let tasks = vec![task(5), ExportTask::Delete("/x".to_string()), task(2), task(9), task(2)];
    let ordered = order_tasks(tasks);
    let ids: Vec<i32> = ordered.iter().map(id_of).collect();
    assert_eq!(ids, vec![2, 2, 5, 9, -1]);
}

#[test]
fn metadata_reports_unavailable_assets() {
    let m = ExportMetadata { total_asset_count: 10, exportable_asset_count: 8, export_task_count: 12 };
    assert!(m.has_unavailable_assets());
    let m = ExportMetadata { total_asset_count: 8, exportable_asset_count: 8, export_task_count: 8 };
    assert!(!m.has_unavailable_assets());
}

#[test]
fn equal_keys_keep_their_order() {
    let mut a = task(4);
    let mut b = task(4);
    if let ExportTask::Copy(m) = &mut a {
        m.destination = "first.jpeg".to_string();
    }
    if let ExportTask::Copy(m) = &mut b {
        m.destination = "second.jpeg".to_string();
    }
    let ordered = order_tasks(vec![b, task(1), a]);
    let dests: Vec<String> = ordered
        .iter()
        .map(|t| match t {
            ExportTask::Copy(m) => m.destination.clone(),
            ExportTask::Delete(p) => p.clone(),
        })
        .collect();
    assert_eq!(dests, vec!["f1.jpeg".to_string(), "second.jpeg".to_string(), "first.jpeg".to_string()]);
}

#[test]
fn copy_destination_needs_stem_and_extension() {
    let src = "/lib/a.heic".to_string();
    assert!(check_copy_destination(&src, &"/out/a.heic".to_string()).is_ok());
    assert_eq!(
        check_copy_destination(&src, &"/out/a".to_string()).err(),
        Some("Original file name has no extension - source: /lib/a.heic, original filename: /out/a".to_string())
    );
    assert_eq!(
        check_copy_destination(&src, &"/out/".to_string()).err(),
        Some("Original file name has no stem - source: /lib/a.heic, original filename: /out/".to_string())
    );
}

#[test]
fn numbered_names_for_existing_destinations() {
    let src = "/lib/a.heic".to_string();
    let dest = "/out/x/IMG.heic".to_string();
    assert_eq!(collision_candidate(&src, &dest, 0).ok(), Some("/out/x/IMG.heic".to_string()));
    assert_eq!(collision_candidate(&src, &dest, 1).ok(), Some("/out/x/IMG (0).heic".to_string()));
    assert_eq!(collision_candidate(&src, &dest, 10).ok(), Some("/out/x/IMG (9).heic".to_string()));
    assert_eq!(
        collision_candidate(&src, &dest, 11).err(),
        Some("IMG: Too many files with the same name".to_string())
    );
    assert!(collision_candidate(&src, &"/out/x/IMG".to_string(), 0).is_err());
}

#[test]
fn steps_without_file_operation_succeed() {
    let mut run = ExportRun::new();
    run.record_step(&task(1), &StepAction::Nothing, Err("ignored".to_string()));
    let copy = ExportEngine::new().plan_step(&task(2));
    run.record_step(&task(2), &copy, Err("disk full".to_string()));
    match run.finish() {
        ExportOutcome::Failure(n, failures) => {
            assert_eq!(n, 1);
            assert_eq!(failures.len(), 1);
            assert_eq!(failures[0].message, "disk full");
        }
        ExportOutcome::Success(_) => panic!("expected a failure"),
    }
}
