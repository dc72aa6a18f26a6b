use std::collections::HashSet;

use bgremove::job::Action;
use bgremove::job::Event;
use bgremove::job::JobError;
use bgremove::job::Options;
use bgremove::job::JobPlan;
use bgremove::job::Stage;
use bgremove::job::action_for;
use bgremove::job::advance;
use bgremove::job::initial_stage;
use bgremove::job::paths_encodable;
use bgremove::job::plan;

/// Drives the machine, feeding one outcome per owed action, and returns the
/// final stage with the actions that were owed along the way.
fn run_job(p: &JobPlan, outcomes: &[Event]) -> (Stage, Vec<Action>) {
    let mut st = initial_stage();
    let mut acts = Vec::new();
    for ev in outcomes {
        match action_for(p, st) {
            Some(a) => acts.push(a),
            None => break,
        }
        st = advance(p, st, *ev);
    }
    (st, acts)
}

/// Applies a trace of actions to a simulated set of on-disk paths.
fn apply(files: &mut HashSet<String>, acts: &[Action]) {
    for a in acts {
        match a {
            Action::CreateFile(p) => {
                files.insert(p.clone());
            }
            Action::DownloadTo(_, p) => {
                files.insert(p.clone());
            }
            Action::RunTool(_, _, _, out) => {
                files.insert(out.clone());
            }
            Action::DeliverOutput(_) => {}
            Action::RemoveFile(p) => {
                files.remove(p);
            }
        }
    }
}

fn ok_run() -> Vec<Event> {
    vec![Event::Succeeded; 6]
}

#[test]
fn test_success_scenario() {
    let options = Options {
        url: "http://example.invalid/image.jpg",
        tmp_dir: String::from("/tmp"),
        id: 7,
        debug: false,
        verbose: true,
    };
    let p = plan(&options);
    let (st, acts) = run_job(&p, &ok_run());
    assert_eq!(st, Stage::Done);
    let input = String::from("/tmp/tmp-input-7");
    let output = String::from("/tmp/tmp-output-7.png");
    assert_eq!(
        acts,
        vec![
            Action::CreateFile(input.clone()),
            Action::DownloadTo(String::from("http://example.invalid/image.jpg"), input.clone()),
            Action::RunTool(false, true, input.clone(), output.clone()),
            Action::DeliverOutput(output.clone()),
            Action::RemoveFile(input),
            Action::RemoveFile(output),
        ]
    );
}

#[test]
fn test_deliver_exactly_once_on_success() {
    let options = Options {
        url: "http://example.invalid/a.png",
        tmp_dir: String::from("/var/tmp"),
        id: 3,
        debug: true,
        verbose: false,
    };
    let p = plan(&options);
    let (st, acts) = run_job(&p, &ok_run());
    assert_eq!(st, Stage::Done);
    let delivers = acts
        .iter()
        .filter(|a| matches!(a, Action::DeliverOutput(_)))
        .count();
    assert_eq!(delivers, 1);
}

#[test]
fn test_download_failure_no_delivery() {
    let options = Options {
        url: "http://unreachable.invalid/x",
        tmp_dir: String::from("/tmp"),
        id: 1,
        debug: false,
        verbose: false,
    };
    let p = plan(&options);
    let outcomes = [
        Event::Succeeded,
        Event::Failed(JobError::NetworkError),
        Event::Succeeded,
        Event::Succeeded,
    ];
    let (st, acts) = run_job(&p, &outcomes);
    assert_eq!(st, Stage::Failed(JobError::NetworkError));
    assert!(acts.iter().all(|a| !matches!(a, Action::DeliverOutput(_))));
    assert!(acts.iter().all(|a| !matches!(a, Action::RunTool(..))));
}

#[test]
fn test_create_failure_is_io_error() {
    let options = Options {
        url: "http://example.invalid/x",
        tmp_dir: String::from("/nowhere"),
        id: 0,
        debug: false,
        verbose: false,
    };
    let p = plan(&options);
    let (st, acts) = run_job(&p, &[Event::Failed(JobError::IoError)]);
    assert_eq!(st, Stage::Failed(JobError::IoError));
    assert_eq!(acts.len(), 1);
    assert!(matches!(acts[0], Action::CreateFile(_)));
}

#[test]
fn test_delivery_failure_is_job_result() {
    let options = Options {
        url: "http://example.invalid/x",
        tmp_dir: String::from("/tmp"),
        id: 9,
        debug: false,
        verbose: false,
    };
    let p = plan(&options);
    let outcomes = [
        Event::Succeeded,
        Event::Succeeded,
        Event::Succeeded,
        Event::Failed(JobError::DeliveryError),
    ];
    let (st, acts) = run_job(&p, &outcomes);
    assert_eq!(st, Stage::Failed(JobError::DeliveryError));
    let delivers = acts
        .iter()
        .filter(|a| matches!(a, Action::DeliverOutput(_)))
        .count();
    assert_eq!(delivers, 1);
    // cleanup is not reached on the failure path
    assert!(acts.iter().all(|a| !matches!(a, Action::RemoveFile(_))));
}

#[test]
fn test_remove_failure_is_io_error() {
    let options = Options {
        url: "http://example.invalid/x",
        tmp_dir: String::from("/tmp"),
        id: 4,
        debug: false,
        verbose: false,
    };
    let p = plan(&options);
    let outcomes = [
        Event::Succeeded,
        Event::Succeeded,
        Event::Succeeded,
        Event::Succeeded,
        Event::Failed(JobError::IoError),
    ];
    let (st, acts) = run_job(&p, &outcomes);
    assert_eq!(st, Stage::Failed(JobError::IoError));
    // input removal was attempted, output removal was not
    let removes: Vec<&Action> = acts
        .iter()
        .filter(|a| matches!(a, Action::RemoveFile(_)))
        .collect();
    assert_eq!(removes.len(), 1);
    assert_eq!(*removes[0], Action::RemoveFile(String::from("/tmp/tmp-input-4")));
}

#[test]
fn test_unencodable_path_fails_before_foreign_call() {
    let options = Options {
        url: "http://example.invalid/x",
        tmp_dir: String::from("/t\0mp"),
        id: 2,
        debug: false,
        verbose: false,
    };
    let p = plan(&options);
    assert!(!paths_encodable(&p));
    let (st, acts) = run_job(&p, &ok_run());
    assert_eq!(st, Stage::Failed(JobError::PathEncodingError));
    assert!(acts.iter().all(|a| !matches!(a, Action::RunTool(..))));
    assert!(acts.iter().all(|a| !matches!(a, Action::DeliverOutput(_))));
}

#[test]
fn test_idempotent_rerun_leaves_no_files() {
    let options = Options {
        url: "http://example.invalid/img",
        tmp_dir: String::from("/tmp"),
        id: 5,
        debug: false,
        verbose: true,
    };
    let p = plan(&options);
    let mut files: HashSet<String> = HashSet::new();
    files.insert(String::from("/tmp/unrelated"));
    let before = files.clone();

    let (st1, acts1) = run_job(&p, &ok_run());
    assert_eq!(st1, Stage::Done);
    apply(&mut files, &acts1);
    assert_eq!(files, before);

    let (st2, acts2) = run_job(&p, &ok_run());
    assert_eq!(st2, Stage::Done);
    assert_eq!(acts2, acts1);
    apply(&mut files, &acts2);
    assert_eq!(files, before);
}

#[test]
fn test_concurrent_distinct_ids_touch_disjoint_paths() {
    let make = |id: usize| Options {
        url: "http://example.invalid/img",
        tmp_dir: String::from("/tmp"),
        id,
        debug: false,
        verbose: false,
    };
    let pa = plan(&make(10));
    let pb = plan(&make(11));
    let (_, acts_a) = run_job(&pa, &ok_run());
    let (_, acts_b) = run_job(&pb, &ok_run());
    let touched = |acts: &[Action]| -> HashSet<String> {
        let mut s = HashSet::new();
        for a in acts {
            match a {
                Action::CreateFile(p) => {
                    s.insert(p.clone());
                }
                Action::DownloadTo(_, p) => {
                    s.insert(p.clone());
                }
                Action::RunTool(_, _, i, o) => {
                    s.insert(i.clone());
                    s.insert(o.clone());
                }
                Action::DeliverOutput(p) => {
                    s.insert(p.clone());
                }
                Action::RemoveFile(p) => {
                    s.insert(p.clone());
                }
            }
        }
        s
    };
    assert!(touched(&acts_a).is_disjoint(&touched(&acts_b)));
}
