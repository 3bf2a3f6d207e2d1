use video_processor::compile::ProcessError;
use video_processor::order::execution_order;
use video_processor::params::{Param, ParamValue};
use video_processor::pipeline::{fresh_output_path, Action, Operation, Pipeline, StepResult};

fn op(kind: &str, order: u32, params: Vec<Param>) -> Operation {
    Operation { kind: kind.to_string(), parameters: params, order }
}

fn run_args(a: Action) -> Vec<String> {
    match a {
        Action::Run(args) => args,
        other => panic!("expected a run, got {:?}", other),
    }
}

#[test]
fn execution_order_is_ascending() {
    assert_eq!(execution_order(&vec![2, 1]), vec![1, 0]);
    assert_eq!(execution_order(&vec![3, 1, 2]), vec![1, 2, 0]);
    assert_eq!(execution_order(&vec![1, 2, 3]), vec![0, 1, 2]);
}

#[test]
fn swapping_orders_reverses_execution() {
    assert_eq!(execution_order(&vec![1, 2]), vec![0, 1]);
    assert_eq!(execution_order(&vec![2, 1]), vec![1, 0]);
}

#[test]
fn ties_keep_input_order() {
    assert_eq!(execution_order(&vec![1, 1, 0]), vec![2, 0, 1]);
    assert_eq!(execution_order(&vec![5, 5, 5]), vec![0, 1, 2]);
    assert_eq!(execution_order(&vec![]), Vec::<usize>::new());
}

#[test]
fn speed_runs_before_crop_on_its_output() {
    let ops = vec![
        op("cropVideo", 2, vec![Param { key: "width".to_string(), value: ParamValue::Integer(640) }]),
        op("adjustSpeed", 1, vec![Param { key: "speed".to_string(), value: ParamValue::Integer(2) }]),
    ];
    let mut p = Pipeline::new("/w/input.mp4".to_string(), "/w".to_string(), ops);
    let first = run_args(p.start());
    assert_eq!(first[0], "-i");
    assert_eq!(first[1], "/w/input.mp4");
    assert_eq!(first[3], "setpts=PTS/2");
    let out1 = first.last().unwrap().clone();
    assert_ne!(out1, "/w/input.mp4");

    let d = p.advance(StepResult::Succeeded);
    assert!(d.remove.is_none());
    let second = run_args(d.action);
    assert_eq!(second[1], out1);
    assert_eq!(second[3], "crop=640:1080:0:0");
    let out2 = second.last().unwrap().clone();
    assert_ne!(out2, out1);

    let d = p.advance(StepResult::Succeeded);
    assert_eq!(d.remove, Some(out1));
    match d.action {
        Action::Finish(f) => assert_eq!(f, out2),
        other => panic!("expected finish, got {:?}", other),
    }
}

#[test]
fn failed_step_stops_the_batch() {
    let ops = vec![op("adjustBrightness", 1, vec![]), op("applyFilter", 2, vec![])];
    let mut p = Pipeline::new("/w/input.mp4".to_string(), "/w".to_string(), ops);
    run_args(p.start());
    let d = p.advance(StepResult::from_exit(false, "bad input".to_string()));
    assert!(d.remove.is_none());
    match d.action {
        Action::Abort(ProcessError::TranscodeFailed(e)) => assert_eq!(e, "bad input"),
        other => panic!("expected a transcode failure, got {:?}", other),
    }
    assert!(!p.is_awaiting());
    assert!(!p.is_ready());
}

#[test]
fn unsupported_step_aborts_before_running() {
    let ops = vec![op("adjustBrightness", 1, vec![]), op("blur", 2, vec![])];
    let mut p = Pipeline::new("/w/input.mp4".to_string(), "/w".to_string(), ops);
    run_args(p.start());
    let d = p.advance(StepResult::Succeeded);
    assert!(d.remove.is_none());
    match d.action {
        Action::Abort(ProcessError::UnsupportedOperation(k)) => assert_eq!(k, "blur"),
        other => panic!("expected an unsupported operation, got {:?}", other),
    }
}

#[test]
fn empty_batch_returns_the_source() {
    let mut p = Pipeline::new("/w/input.mp4".to_string(), "/w".to_string(), vec![]);
    match p.start() {
        Action::Finish(f) => assert_eq!(f, "/w/input.mp4"),
        other => panic!("expected finish, got {:?}", other),
    }
}

#[test]
fn three_steps_delete_each_superseded_intermediate() {
    let ops = vec![op("adjustBrightness", 0, vec![]), op("adjustBrightness", 0, vec![]), op("adjustBrightness", 0, vec![])];
    let mut p = Pipeline::new("/w/input.mp4".to_string(), "/w".to_string(), ops);
    let mut outputs: Vec<String> = vec![];
    let mut removed: Vec<String> = vec![];
    let mut action = p.start();
    loop {
        match action {
            Action::Run(args) => {
                outputs.push(args.last().unwrap().clone());
                let d = p.advance(StepResult::Succeeded);
                if let Some(r) = d.remove {
                    removed.push(r);
                }
                action = d.action;
            }
            Action::Finish(f) => {
                assert_eq!(&f, outputs.last().unwrap());
                break;
            }
            Action::Abort(e) => panic!("unexpected abort: {}", e.message()),
        }
    }
    assert_eq!(outputs.len(), 3);
    assert_eq!(removed, outputs[..2].to_vec());
}

#[test]
fn output_paths_are_fresh_and_in_the_area() {
    let a = fresh_output_path(&"/tmp/area".to_string());
    let b = fresh_output_path(&"/tmp/area".to_string());
    assert!(a.starts_with("/tmp/area/output_"));
    assert!(a.ends_with(".mp4"));
    assert_eq!(a.len(), "/tmp/area/output_".len() + 36 + 4);
    assert_ne!(a, b);
}

#[test]
fn exit_status_classification() {
    assert!(matches!(StepResult::from_exit(true, String::new()), StepResult::Succeeded));
}

#[test]
fn launch_with_a_colliding_path_fails_allocation() {
    let ops = vec![op("adjustBrightness", 0, vec![])];
    let mut p = Pipeline::new("/w/input.mp4".to_string(), "/w".to_string(), ops);
    match p.launch_with("/w/input.mp4".to_string()) {
        Action::Abort(ProcessError::ResourceAllocationFailed(path)) => assert_eq!(path, "/w/input.mp4"),
        other => panic!("expected an allocation failure, got {:?}", other),
    }
    assert!(!p.is_awaiting());
}

#[test]
fn launch_with_a_fresh_path_runs_into_it() {
    let ops = vec![op("adjustBrightness", 0, vec![Param { key: "brightness".to_string(), value: ParamValue::Integer(50) }])];
    let mut p = Pipeline::new("/w/input.mp4".to_string(), "/w".to_string(), ops);
    let args = run_args(p.launch_with("/w/out.mp4".to_string()));
    assert_eq!(args, vec!["-i", "/w/input.mp4", "-vf", "eq=brightness=0.5", "-y", "/w/out.mp4"]);
    assert!(p.is_awaiting());
    let d = p.advance(StepResult::Succeeded);
    assert!(d.remove.is_none());
    match d.action {
        Action::Finish(f) => assert_eq!(f, "/w/out.mp4"),
        other => panic!("expected finish, got {:?}", other),
    }
}
