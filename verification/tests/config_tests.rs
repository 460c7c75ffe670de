use pretty_cue::config::{plan_run, Destination};
use pretty_cue::error::{ConfigIssue, CueError};

#[test]
fn conflicting_output_options_are_rejected() {
    let r = plan_run(
        Some("in.cue".to_string()),
        Some("out.cue".to_string()),
        true,
    );
    let err = r.unwrap_err();
    assert_eq!(err, CueError::Config(ConfigIssue::ConflictingOutputs));
    assert_eq!(err.message(), "`overwrite` option conflicts `output` option");
}

#[test]
fn missing_input_is_rejected() {
    let err = plan_run(None, None, false).unwrap_err();
    assert_eq!(err, CueError::Config(ConfigIssue::NoInput));
    assert_eq!(err.message(), "input is not given");
}

#[test]
fn default_destination_is_stdout() {
    let plan = plan_run(Some("in.cue".to_string()), None, false).unwrap();
    assert_eq!(plan.input, "in.cue");
    assert!(matches!(plan.dest, Destination::Stdout));
}

#[test]
fn explicit_output_path() {
    let plan = plan_run(Some("in.cue".to_string()), Some("out.cue".to_string()), false).unwrap();
    assert_eq!(plan.input, "in.cue");
    match plan.dest {
        Destination::Path(p) => assert_eq!(p, "out.cue"),
        other => panic!("expected a path destination, got {:?}", other),
    }
}

#[test]
fn overwrite_destination() {
    let plan = plan_run(Some("in.cue".to_string()), None, true).unwrap();
    assert_eq!(plan.input, "in.cue");
    assert!(matches!(plan.dest, Destination::Overwrite));
}
