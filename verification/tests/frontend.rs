use conference_planner::frontend::{alternate_design, response_text, Page};
use conference_planner::loadgenerator::{choose_target, target_urls, PAUSE_MS};
use conference_planner::tracing::get_collector_endpoint;

#[test]
fn page_templates() {
    assert_eq!(Page::Index.template_name(), "index");
    assert_eq!(Page::Speakers.template_name(), "speakers");
    assert_eq!(Page::Schedule.template_name(), "schedule");
    assert_eq!(Page::Sessions.template_name(), "sessions");
}

#[test]
fn page_sources() {
    assert_eq!(Page::Index.source(), None);
    assert_eq!(Page::Speakers.source(), Some(("http://speakers:8081", "speakers")));
    assert_eq!(Page::Schedule.source(), Some(("http://schedule:8083", "schedule")));
    assert_eq!(Page::Sessions.source(), Some(("http://sessions:8082", "sessions")));
}

#[test]
fn reply_bodies() {
    assert_eq!(response_text(b"[1,2]".to_vec()), Some(String::from("[1,2]")));
    assert_eq!(response_text("Schrödinger".as_bytes().to_vec()), Some(String::from("Schrödinger")));
    assert_eq!(response_text(vec![0xff, 0xfe]), None);
    assert_eq!(response_text(Vec::new()), Some(String::new()));
}

#[test]
fn collector_endpoint() {
    assert_eq!(get_collector_endpoint(None), "http://localhost:14268/api/traces");
    assert_eq!(get_collector_endpoint(Some("jaeger:14268")), "http://jaeger:14268/api/traces");
    assert_eq!(get_collector_endpoint(Some("")), "http:///api/traces");
}

#[test]
fn load_targets() {
    let targets = target_urls();
    assert_eq!(
        targets,
        vec![
            "http://frontend-proxy:8080/",
            "http://frontend-proxy:8080/speakers/",
            "http://frontend-proxy:8080/schedule/",
            "http://frontend-proxy:8080/sessions/",
        ]
    );
    for _ in 0..100 {
        assert!(targets.contains(&choose_target(&targets)));
    }
    assert_eq!(choose_target(&vec!["only"]), "only");
    assert_eq!(PAUSE_MS, 500);
}

#[test]
fn alternate_design_setting() {
    assert!(!alternate_design(None));
    assert!(alternate_design(Some("TRUE")));
    assert!(!alternate_design(Some("FALSE")));
    assert!(alternate_design(Some("")));
    assert!(alternate_design(Some("false")));
}
