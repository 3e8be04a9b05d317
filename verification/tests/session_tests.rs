use dect::args::exit_code;
use dect::get_image_tag;
use dect::session::{container_config, Action, Event, Phase, Session};

#[test]
fn image_tag_appends_test_suffix() {
    assert_eq!(get_image_tag(Some("proj")), "proj:test");
}

#[test]
fn image_tag_falls_back_without_basename() {
    assert_eq!(get_image_tag(None), "dataeng:test");
}

#[test]
fn build_failure_ends_session_before_any_container() {
    let s = Session::new(false, false);
    let s = s.step(Event::BuildFailed {
        message: "no Dockerfile".to_owned(),
    });
    assert_eq!(
        s.phase,
        Phase::Done {
            failure: Some("no Dockerfile".to_owned())
        }
    );
    assert_eq!(
        s.next_action(),
        Action::Finish {
            failure: Some("no Dockerfile".to_owned())
        }
    );
}

#[test]
fn cleanup_runs_even_when_start_fails() {
    let s = Session::new(false, false);
    let s = s.step(Event::BuildOk);
    let s = s.step(Event::CreateOk {
        container: "c1".to_owned(),
    });
    let s = s.step(Event::StartFailed {
        message: "boom".to_owned(),
    });
    assert_eq!(
        s.next_action(),
        Action::RemoveContainer {
            container: "c1".to_owned()
        }
    );
    let s = s.step(Event::RemoveContainerOk);
    assert_eq!(s.next_action(), Action::RemoveImage);
    let s = s.step(Event::RemoveImageOk);
    assert_eq!(
        s.next_action(),
        Action::Finish {
            failure: Some("boom".to_owned())
        }
    );
}

#[test]
fn cleanup_runs_when_attach_fails() {
    let s = Session::new(false, false);
    let s = s.step(Event::BuildOk);
    let s = s.step(Event::CreateOk {
        container: "c2".to_owned(),
    });
    let s = s.step(Event::StartOk);
    let s = s.step(Event::AttachFailed {
        message: "lost".to_owned(),
    });
    assert_eq!(
        s.next_action(),
        Action::RemoveContainer {
            container: "c2".to_owned()
        }
    );
}

#[test]
fn cleanup_failures_keep_success_outcome() {
    let s = Session::new(false, false);
    let s = s.step(Event::BuildOk);
    let s = s.step(Event::CreateOk {
        container: "c3".to_owned(),
    });
    let s = s.step(Event::StartOk);
    let s = s.step(Event::AttachOk);
    let s = s.step(Event::OutputEnded);
    let s = s.step(Event::RemoveContainerFailed {
        message: "busy".to_owned(),
    });
    let s = s.step(Event::RemoveImageFailed {
        message: "in use".to_owned(),
    });
    assert_eq!(s.phase, Phase::Done { failure: None });
    assert_eq!(s.next_action(), Action::Finish { failure: None });
    assert_eq!(exit_code(true), 0);
}

#[test]
fn exit_codes_follow_outcome() {
    assert_eq!(exit_code(true), 0);
    assert_eq!(exit_code(false), 1);
}

#[test]
fn config_attaches_all_streams() {
    let c = container_config("img:test".to_owned(), false);
    assert_eq!(c.image, "img:test");
    assert!(c.tty && c.attach_stdin && c.attach_stdout && c.attach_stderr && c.open_stdin);
    assert_eq!(c.entrypoint, None);
    assert_eq!(c.cmd, None);
}

#[test]
fn config_overrides_entrypoint_for_shell() {
    let c = container_config("img:test".to_owned(), true);
    assert_eq!(c.entrypoint, Some(vec!["/bin/bash".to_owned()]));
    assert_eq!(c.cmd, Some(Vec::new()));
}

#[test]
fn build_progress_keeps_building() {
    let s = Session::new(false, true);
    let s = s.step(Event::BuildProgress {
        detail: "step 1/2".to_owned(),
    });
    assert_eq!(s.phase, Phase::Build);
    assert_eq!(s.next_action(), Action::BuildImage);
}
