use hastepilot::docker_pilot::{begin_get_logs, begin_list_containers, RECENT_LIMIT};
use hastepilot::auth::is_visible_text;
use hastepilot::docker_pilot::{
    check_auth, container_info, finish_get_logs, finish_list_containers, health, AuditLog, Command,
    ContainerFlow, ContainerRequest, ContainerSummary, DockerCall, Phase, STOP_TIMEOUT_SECS,
};
use hastepilot::text::{join2, join3, trim_start_slashes};

fn header(s: &[u8]) -> Option<Vec<u8>> {
    Some(s.to_vec())
}

fn respond(cmd: &Command) -> (u16, String) {
    match cmd {
        Command::Respond(r) => (r.status, r.body.message.clone()),
        _ => panic!("expected an answer"),
    }
}

#[test]
fn pilot_health_says_ok() {
    assert_eq!(health().message, "ok");
}

#[test]
fn right_key_is_accepted() {
    assert!(check_auth(&header(b"s3cret"), "s3cret").is_ok());
}

#[test]
fn wrong_or_missing_key_is_refused() {
    let e = check_auth(&header(b"nope"), "s3cret").err().unwrap();
    assert_eq!(e.status, 401);
    assert_eq!(e.body.message, "invalid or missing API key");
    assert!(check_auth(&None, "s3cret").is_err());
    assert!(check_auth(&header(b""), "s3cret").is_err());
    assert!(check_auth(&header(b"s3cre"), "s3cret").is_err());
}

#[test]
fn empty_key_lets_missing_header_through() {
    assert!(check_auth(&None, "").is_ok());
    assert!(check_auth(&header(b"x"), "").is_err());
}

#[test]
fn unreadable_header_counts_as_empty() {
    // a byte that is not visible ASCII makes the header unreadable
    assert!(check_auth(&header(b"s3cret\x7f"), "").is_ok());
    assert!(check_auth(&header(b"s3cret\x7f"), "s3cret\u{7f}").is_err());
    assert!(check_auth(&header("clé".as_bytes()), "clé").is_err());
    // a tab is readable
    assert!(check_auth(&header(b"a\tb"), "a\tb").is_ok());
}

#[test]
fn visible_text_check() {
    assert!(is_visible_text(b"Hello ~ World\t"));
    assert!(!is_visible_text(b"line\n"));
    assert!(!is_visible_text(&[200u8]));
    assert!(is_visible_text(b""));
}

#[test]
fn text_helpers() {
    assert_eq!(join2("ab", "cd"), "abcd");
    assert_eq!(join3("container '", "web", "' stopped"), "container 'web' stopped");
    assert_eq!(trim_start_slashes("//web"), "web");
    assert_eq!(trim_start_slashes("web/"), "web/");
    assert_eq!(trim_start_slashes("///"), "");
    assert_eq!(trim_start_slashes(""), "");
    assert_eq!(trim_start_slashes(&trim_start_slashes("/a/b")), "a/b");
}

#[test]
fn container_listing_fields() {
    let c = ContainerSummary {
        id: Some("abc123".to_string()),
        names: Some(vec!["/web".to_string(), "/other".to_string()]),
        image: Some("nginx:latest".to_string()),
        state: Some("running".to_string()),
    };
    let info = container_info(&c);
    assert_eq!(info.id, "abc123");
    assert_eq!(info.name, "web");
    assert_eq!(info.image, "nginx:latest");
    assert_eq!(info.state, "running");
}

#[test]
fn container_listing_missing_fields_are_empty() {
    let c = ContainerSummary { id: None, names: Some(vec![]), image: None, state: None };
    let info = container_info(&c);
    assert_eq!(info.id, "");
    assert_eq!(info.name, "");
    assert_eq!(info.image, "");
    assert_eq!(info.state, "");
    let c = ContainerSummary { id: None, names: None, image: None, state: Some(String::new()) };
    assert_eq!(container_info(&c).name, "");
}

#[test]
fn listing_containers() {
    let cs = vec![
        ContainerSummary { id: Some("1".to_string()), names: Some(vec!["//a".to_string()]), image: None, state: None },
        ContainerSummary { id: Some("2".to_string()), names: None, image: Some("img".to_string()), state: Some("exited".to_string()) },
    ];
    let infos = finish_list_containers(Ok(cs)).ok().unwrap();
    assert_eq!(infos.len(), 2);
    assert_eq!(infos[0].name, "a");
    assert_eq!(infos[1].id, "2");
    assert_eq!(infos[1].state, "exited");
    let e = finish_list_containers(Err("socket closed".to_string())).err().unwrap();
    assert_eq!(e.status, 500);
    assert_eq!(e.body.message, "Docker error: socket closed");
}

#[test]
fn audit_log_answer() {
    let rows = vec![AuditLog { id: 7, action: "stop".to_string(), container_name: "web".to_string(), timestamp: "2024-01-01 00:00:00".to_string() }];
    let got = finish_get_logs(Ok(rows)).ok().unwrap();
    assert_eq!(got.len(), 1);
    assert_eq!(got[0].id, 7);
    assert_eq!(got[0].action, "stop");
    let e = finish_get_logs(Err("no table".to_string())).err().unwrap();
    assert_eq!(e.status, 500);
    assert_eq!(e.body.message, "database error: no table");
}

#[test]
fn create_runs_create_start_record_answer() {
    let req = ContainerRequest::Create { name: "web".to_string(), image: "nginx".to_string() };
    let (flow, cmd) = ContainerFlow::begin(req, &header(b"k"), "k");
    assert!(flow.phase == Phase::AwaitCreate);
    match &cmd {
        Command::Docker(DockerCall::CreateContainer { name, image }) => {
            assert_eq!(name, "web");
            assert_eq!(image, "nginx");
        }
        _ => panic!("expected a create call"),
    }
    let (flow, cmd) = flow.step(Ok(()));
    assert!(matches!(&cmd, Command::Docker(DockerCall::StartContainer { name }) if name == "web"));
    let (flow, cmd) = flow.step(Ok(()));
    assert!(matches!(&cmd, Command::Record { action, container_name } if action == "create" && container_name == "web"));
    assert!(!flow.is_finished());
    // the audit log's own failure does not change the answer
    let (flow, cmd) = flow.step(Err("db locked".to_string()));
    assert!(flow.is_finished());
    assert_eq!(respond(&cmd), (201, "container 'web' created and started".to_string()));
}

#[test]
fn failed_create_is_not_recorded() {
    let req = ContainerRequest::Create { name: "web".to_string(), image: "nginx".to_string() };
    let (flow, _) = ContainerFlow::begin(req, &header(b"k"), "k");
    let (flow, cmd) = flow.step(Err("name in use".to_string()));
    assert!(flow.is_finished());
    assert_eq!(respond(&cmd), (500, "failed to create container: name in use".to_string()));
}

#[test]
fn failed_start_is_not_recorded() {
    let req = ContainerRequest::Create { name: "web".to_string(), image: "nginx".to_string() };
    let (flow, _) = ContainerFlow::begin(req, &header(b"k"), "k");
    let (flow, _) = flow.step(Ok(()));
    let (flow, cmd) = flow.step(Err("port taken".to_string()));
    assert!(flow.is_finished());
    assert_eq!(respond(&cmd), (500, "created but failed to start: port taken".to_string()));
}

#[test]
fn stop_runs_stop_record_answer() {
    let (flow, cmd) = ContainerFlow::begin(ContainerRequest::Stop { name: "db".to_string() }, &header(b"k"), "k");
    assert!(matches!(&cmd, Command::Docker(DockerCall::StopContainer { name, timeout_secs }) if name == "db" && *timeout_secs == 10));
    assert_eq!(STOP_TIMEOUT_SECS, 10);
    let (flow, cmd) = flow.step(Ok(()));
    assert!(matches!(&cmd, Command::Record { action, container_name } if action == "stop" && container_name == "db"));
    let (flow, cmd) = flow.step(Ok(()));
    assert!(flow.is_finished());
    assert_eq!(respond(&cmd), (200, "container 'db' stopped".to_string()));
}

#[test]
fn failed_stop_is_answered_with_500() {
    let (flow, _) = ContainerFlow::begin(ContainerRequest::Stop { name: "db".to_string() }, &header(b"k"), "k");
    let (flow, cmd) = flow.step(Err("no such container".to_string()));
    assert!(flow.is_finished());
    assert_eq!(respond(&cmd), (500, "failed to stop container: no such container".to_string()));
}

#[test]
fn remove_is_forced_and_recorded() {
    let (flow, cmd) = ContainerFlow::begin(ContainerRequest::Remove { name: "old".to_string() }, &header(b"k"), "k");
    assert!(matches!(&cmd, Command::Docker(DockerCall::RemoveContainer { name, force }) if name == "old" && *force));
    let (flow, cmd) = flow.step(Ok(()));
    assert!(matches!(&cmd, Command::Record { action, .. } if action == "remove"));
    let (_, cmd) = flow.step(Ok(()));
    assert_eq!(respond(&cmd), (200, "container 'old' removed".to_string()));
    let (flow, _) = ContainerFlow::begin(ContainerRequest::Remove { name: "old".to_string() }, &header(b"k"), "k");
    let (_, cmd) = flow.step(Err("busy".to_string()));
    assert_eq!(respond(&cmd), (500, "failed to remove container: busy".to_string()));
}

#[test]
fn unauthorized_change_never_reaches_docker() {
    let (flow, cmd) = ContainerFlow::begin(ContainerRequest::Remove { name: "old".to_string() }, &header(b"bad"), "k");
    assert!(flow.is_finished());
    assert_eq!(respond(&cmd), (401, "invalid or missing API key".to_string()));
}

#[test]
fn reads_are_refused_before_any_query() {
    let e = begin_list_containers(&header(b"bad"), "k").err().unwrap();
    assert_eq!(e.status, 401);
    assert_eq!(e.body.message, "invalid or missing API key");
    assert!(begin_list_containers(&header(b"k"), "k").ok().unwrap().all);
    assert_eq!(begin_get_logs(&None, "k").err().unwrap().status, 401);
    assert_eq!(begin_get_logs(&header(b"k"), "k").ok().unwrap().limit, 50);
    assert_eq!(RECENT_LIMIT, 50);
}
