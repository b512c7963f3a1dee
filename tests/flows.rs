use syrotech::adapter::{Creds, SyrotechAdapter};
use syrotech::error::RouterError;
use syrotech::flow::{next_request, opening, session_signed_in, Goal, Outcome, Phase, Reply, Request};
use syrotech::resolve::resolve;
use syrotech::scrape::{find_attribute_value, token_from_lookup};

const LOGIN_FIXTURE: &str = r#"<html><body><form>
<input type="text" id="check_code" value="1234">
<input type="hidden" name="csrftoken" value="abcd">
</form></body></html>"#;

fn adapter() -> SyrotechAdapter {
    SyrotechAdapter::new(
        "http://192.168.1.1".to_string(),
        Creds::new("admin".to_string(), "admin@123".to_string()),
    )
}

fn arrived(final_path: &str, body: &str) -> Reply {
    Reply::Arrived { final_path: final_path.to_string(), body: body.to_string() }
}

fn pairs(fields: &[(String, String)]) -> Vec<(String, String)> {
    let mut v = fields.to_vec();
    v.sort();
    v
}

fn expect_post(request: Option<Request>) -> (String, Vec<(String, String)>) {
    match request {
        Some(Request::PostForm { path, fields }) => (path, fields),
        other => panic!("expected a form post, got {:?}", other),
    }
}

fn expect_get(request: Option<Request>) -> String {
    match request {
        Some(Request::Get { path }) => path,
        other => panic!("expected a get, got {:?}", other),
    }
}

#[test]
fn every_flow_opens_with_a_probe_of_the_dashboard() {
    let (phase, request) = adapter().start();
    assert_eq!(phase, Phase::ProbingSession);
    assert_eq!(expect_get(Some(request)), "/");
    let (phase, request) = opening();
    assert_eq!(phase, Phase::ProbingSession);
    assert_eq!(expect_get(Some(request)), "/");
}

#[test]
fn probe_on_dashboard_means_already_logged_in() {
    let (phase, request) =
        adapter().advance(Goal::LogIn, Phase::ProbingSession, &arrived("/", "<html></html>"));
    assert_eq!(phase, Phase::Finished(Outcome::AlreadyLoggedIn));
    assert!(request.is_none());
}

#[test]
fn probe_off_login_page_means_already_logged_in() {
    let (phase, request) =
        adapter().advance(Goal::LogIn, Phase::ProbingSession, &arrived("/status.asp", ""));
    assert_eq!(phase, Phase::Finished(Outcome::AlreadyLoggedIn));
    assert!(request.is_none());
}

#[test]
fn login_page_fixture_gives_the_login_form() {
    let (phase, request) = adapter().advance(
        Goal::LogIn,
        Phase::ProbingSession,
        &arrived("/admin/login_en.asp", LOGIN_FIXTURE),
    );
    assert_eq!(phase, Phase::SubmittingLogin);
    let (path, fields) = expect_post(request);
    assert_eq!(path, "/boaform/admin/formLogin_en");
    let body = url::form_urlencoded::Serializer::new(String::new()).extend_pairs(fields.iter()).finish();
    let sent: Vec<(String, String)> = url::form_urlencoded::parse(body.as_bytes()).into_owned().collect();
    let wanted: Vec<(String, String)> = url::form_urlencoded::parse(
        b"username=admin&psd=admin@123&verification_code=1234&csrftoken=abcd",
    )
    .into_owned()
    .collect();
    assert_eq!(pairs(&sent), pairs(&wanted));
    assert_eq!(fields.len(), 4);
}

#[test]
fn accepted_login_lands_on_dashboard() {
    let (phase, request) =
        adapter().advance(Goal::LogIn, Phase::SubmittingLogin, &arrived("/", "welcome"));
    assert_eq!(phase, Phase::Finished(Outcome::LoggedIn));
    assert!(request.is_none());
}

#[test]
fn rejected_login_fails() {
    let (phase, request) = adapter().advance(
        Goal::LogIn,
        Phase::SubmittingLogin,
        &arrived("/admin/login_en.asp", LOGIN_FIXTURE),
    );
    assert_eq!(phase, Phase::Failed(RouterError::LoginFailed));
    assert!(request.is_none());
    let (phase, _) =
        adapter().advance(Goal::Restart, Phase::SubmittingLogin, &arrived("/index.asp", ""));
    assert_eq!(phase, Phase::Failed(RouterError::LoginFailed));
}

#[test]
fn login_page_without_captcha_element_fails() {
    let page = r#"<form><input name="csrftoken" value="abcd"></form>"#;
    let (phase, request) =
        adapter().advance(Goal::LogIn, Phase::ProbingSession, &arrived("/admin/login_en.asp", page));
    assert_eq!(phase, Phase::Failed(RouterError::MissingElement));
    assert!(request.is_none());
}

#[test]
fn login_page_with_captcha_lacking_value_fails() {
    let page = r#"<form><input id="check_code"><input name="csrftoken" value="abcd"></form>"#;
    let (phase, request) =
        adapter().advance(Goal::LogIn, Phase::ProbingSession, &arrived("/admin/login_en.asp", page));
    assert_eq!(phase, Phase::Failed(RouterError::MissingAttribute));
    assert!(request.is_none());
}

#[test]
fn login_page_without_csrf_token_fails() {
    let page = r#"<form><input id="check_code" value="1234"></form>"#;
    let (phase, request) =
        adapter().advance(Goal::LogIn, Phase::ProbingSession, &arrived("/admin/login_en.asp", page));
    assert_eq!(phase, Phase::Failed(RouterError::MissingElement));
    assert!(request.is_none());
}

#[test]
fn restart_goes_through_login_when_signed_out() {
    let (phase, request) = adapter().advance(
        Goal::Restart,
        Phase::ProbingSession,
        &arrived("/admin/login_en.asp", LOGIN_FIXTURE),
    );
    assert_eq!(phase, Phase::SubmittingLogin);
    let (path, _) = expect_post(request);
    assert_eq!(path, "/boaform/admin/formLogin_en");
    let (phase, request) = adapter().advance(Goal::Restart, phase, &arrived("/", ""));
    assert_eq!(phase, Phase::FetchingRebootPage);
    assert_eq!(expect_get(request), "/mgm_dev_reboot_en.asp");
}

#[test]
fn restart_when_signed_in_fetches_reboot_page() {
    let (phase, request) =
        adapter().advance(Goal::Restart, Phase::ProbingSession, &arrived("/", ""));
    assert_eq!(phase, Phase::FetchingRebootPage);
    assert_eq!(expect_get(request), "/mgm_dev_reboot_en.asp");
}

#[test]
fn reboot_form_carries_page_path_and_token() {
    let page = r#"<form><input type="hidden" name="csrftoken" value="zz9"></form>"#;
    let (phase, request) =
        adapter().advance(Goal::Restart, Phase::FetchingRebootPage, &arrived("/mgm_dev_reboot_en.asp", page));
    assert_eq!(phase, Phase::SubmittingReboot);
    let (path, fields) = expect_post(request);
    assert_eq!(path, "/boaform/admin/formReboot");
    assert_eq!(
        fields,
        vec![
            ("submit-url".to_string(), "/mgm_dev_reboot_en.asp".to_string()),
            ("csrftoken".to_string(), "zz9".to_string()),
        ]
    );
    let (phase, request) = adapter().advance(Goal::Restart, phase, &arrived("/", ""));
    assert_eq!(phase, Phase::Finished(Outcome::RestartTriggered));
    assert!(request.is_none());
}

#[test]
fn reboot_page_without_token_fails() {
    let (phase, request) = adapter().advance(
        Goal::Restart,
        Phase::FetchingRebootPage,
        &arrived("/mgm_dev_reboot_en.asp", "<p>nothing</p>"),
    );
    assert_eq!(phase, Phase::Failed(RouterError::MissingElement));
    assert!(request.is_none());
}

#[test]
fn unreachable_router_fails_with_network_error() {
    let (phase, request) = adapter().advance(Goal::LogIn, Phase::ProbingSession, &Reply::Unreachable);
    assert_eq!(phase, Phase::Failed(RouterError::NetworkError));
    assert!(request.is_none());
    let (phase, _) = adapter().advance(Goal::Restart, Phase::SubmittingReboot, &Reply::Unreachable);
    assert_eq!(phase, Phase::Failed(RouterError::NetworkError));
}

#[test]
fn ended_flow_stays_ended() {
    let done = Phase::Finished(Outcome::LoggedIn);
    let (phase, request) = adapter().advance(Goal::LogIn, done, &arrived("/admin/login_en.asp", LOGIN_FIXTURE));
    assert_eq!(phase, done);
    assert!(request.is_none());
    let failed = Phase::Failed(RouterError::LoginFailed);
    let (phase, request) = next_request("admin", "x", Goal::Restart, failed, &Reply::Unreachable);
    assert_eq!(phase, failed);
    assert!(request.is_none());
}

#[test]
fn find_attribute_value_reads_first_match() {
    let page = r#"<div><a name="k" value="first"></a><a name="k" value="second"></a></div>"#;
    assert_eq!(find_attribute_value(page, "name", "k", "value"), Ok("first".to_string()));
    assert_eq!(find_attribute_value(page, "name", "other", "value"), Err(RouterError::MissingElement));
    assert_eq!(find_attribute_value(page, "name", "k", "href"), Err(RouterError::MissingAttribute));
    assert_eq!(find_attribute_value("", "id", "x", "value"), Err(RouterError::MissingElement));
}

#[test]
fn token_from_lookup_maps_each_answer() {
    assert_eq!(token_from_lookup(None), Err(RouterError::MissingElement));
    assert_eq!(token_from_lookup(Some(None)), Err(RouterError::MissingAttribute));
    assert_eq!(token_from_lookup(Some(Some("t".to_string()))), Ok("t".to_string()));
}

#[test]
fn url_joins_path_to_origin() {
    let a = adapter();
    assert_eq!(a.url("/"), Ok("http://192.168.1.1/".to_string()));
    assert_eq!(
        a.url("/boaform/admin/formLogin_en"),
        Ok("http://192.168.1.1/boaform/admin/formLogin_en".to_string())
    );
    assert_eq!(resolve("http://10.0.0.1:8080", "mgm_dev_reboot_en.asp"), Ok("http://10.0.0.1:8080/mgm_dev_reboot_en.asp".to_string()));
}

#[test]
fn url_on_malformed_origin_is_invalid() {
    let bad = SyrotechAdapter::new(
        "not an origin".to_string(),
        Creds::new("admin".to_string(), "admin@123".to_string()),
    );
    assert_eq!(bad.url("/"), Err(RouterError::InvalidUrl));
    assert_eq!(resolve("http://[::1", "/"), Err(RouterError::InvalidUrl));
}

#[test]
fn errors_describe_themselves() {
    for e in [
        RouterError::InvalidUrl,
        RouterError::NetworkError,
        RouterError::MissingElement,
        RouterError::MissingAttribute,
        RouterError::LoginFailed,
    ] {
        assert!(!e.describe().is_empty());
    }
    assert_ne!(RouterError::LoginFailed.describe(), RouterError::NetworkError.describe());
}

#[test]
fn only_the_login_page_means_signed_out() {
    assert!(!session_signed_in(&"/admin/login_en.asp".to_string()));
    assert!(session_signed_in(&"/".to_string()));
    assert!(session_signed_in(&"/admin/login_en.asp/".to_string()));
    assert!(session_signed_in(&String::new()));
}
