//! The login and reboot flows as a state machine.
//!
//! A flow opens with a probe of the dashboard path. Each reply to the last request
//! then gives the next phase and, unless the flow has ended, the next request.
//! Whether the session is signed in is read from the path that the probe's
//! redirects end on: the login page means it is not.
use crate::error::RouterError;
use crate::firmware::{
    CAPTCHA_FIELD, CAPTCHA_SELECTOR_ATTR, CAPTCHA_SELECTOR_VALUE, CSRF_FIELD, CSRF_SELECTOR_ATTR,
    CSRF_SELECTOR_VALUE, DASHBOARD_PATH, LOGIN_PAGE_PATH, LOGIN_SUBMIT_PATH, PASSWORD_FIELD,
    REBOOT_PAGE_PATH, REBOOT_SUBMIT_PATH, SUBMIT_URL_FIELD, TOKEN_ATTR, USER_FIELD,
};
use crate::scrape::{attribute_value, find_attribute_value, soup_lookup};
use vstd::prelude::*;

verus! {

/// Which flow to run.
#[derive(Clone, Copy, Debug, PartialEq, Eq, Structural)]
pub enum Goal {
    /// Make sure the session is signed in.
    LogIn,
    /// Sign in, then ask the router to reboot.
    Restart,
}

/// How a flow ended well.
#[derive(Clone, Copy, Debug, PartialEq, Eq, Structural)]
pub enum Outcome {
    /// The probe landed off the login page: no login was sent.
    AlreadyLoggedIn,
    /// The login form was sent and accepted.
    LoggedIn,
    /// The reboot form was sent; the router reboots on its own time.
    RestartTriggered,
}

/// Where a flow stands: the request it waits on, or how it ended.
#[derive(Clone, Copy, Debug, PartialEq, Eq, Structural)]
pub enum Phase {
    /// Waiting on the probe of the dashboard path.
    ProbingSession,
    /// Waiting on the login form's reply.
    SubmittingLogin,
    /// Waiting on the reboot confirmation page.
    FetchingRebootPage,
    /// Waiting on the reboot form's reply.
    SubmittingReboot,
    /// Ended well.
    Finished(Outcome),
    /// Ended on an error.
    Failed(RouterError),
}

/// A request for the caller to send; paths are relative to the router's origin.
#[derive(Clone, Debug)]
pub enum Request {
    /// A GET that follows redirects.
    Get { path: String },
    /// A POST of URL-encoded fields that follows redirects.
    PostForm { path: String, fields: Vec<(String, String)> },
}

/// A request over views.
pub enum RequestView {
    Get { path: Seq<char> },
    PostForm { path: Seq<char>, fields: Seq<(Seq<char>, Seq<char>)> },
}

/// What became of the last request.
#[derive(Clone, Debug)]
pub enum Reply {
    /// A response came: the path of the URL its redirects ended on, and its text.
    Arrived { final_path: String, body: String },
    /// No response could be had.
    Unreachable,
}

/// A reply over views.
pub enum ReplyView {
    Arrived { final_path: Seq<char>, body: Seq<char> },
    Unreachable,
}

/// Form fields over views.
pub open spec fn form_view(fields: Seq<(String, String)>) -> Seq<(Seq<char>, Seq<char>)> {
    fields.map_values(|f: (String, String)| (f.0@, f.1@))
}

impl View for Request {
    type V = RequestView;

    open spec fn view(&self) -> RequestView {
        match self {
            Request::Get { path } => RequestView::Get { path: path@ },
            Request::PostForm { path, fields } => RequestView::PostForm {
                path: path@,
                fields: form_view(fields@),
            },
        }
    }
}

impl View for Reply {
    type V = ReplyView;

    open spec fn view(&self) -> ReplyView {
        match self {
            Reply::Arrived { final_path, body } => ReplyView::Arrived {
                final_path: final_path@,
                body: body@,
            },
            Reply::Unreachable => ReplyView::Unreachable,
        }
    }
}

/// A phase with the request it waits on, over views.
pub open spec fn step_view(s: (Phase, Option<Request>)) -> (Phase, Option<RequestView>) {
    (
        s.0,
        match s.1 {
            Some(q) => Some(q@),
            None => None,
        },
    )
}

/// Whether a probe whose redirects end on `final_path` shows a signed-in session:
/// only the login page says that it is not.
pub open spec fn signed_in(final_path: Seq<char>) -> bool {
    final_path != LOGIN_PAGE_PATH@
}

/// A flow that has ended sends nothing more.
pub open spec fn has_ended(phase: Phase) -> bool {
    phase is Finished || phase is Failed
}

/// Every flow opens with a probe of the dashboard path.
pub open spec fn opening_step() -> (Phase, Option<RequestView>) {
    (Phase::ProbingSession, Some(RequestView::Get { path: DASHBOARD_PATH@ }))
}

/// The fields of the login form.
pub open spec fn login_form(
    user: Seq<char>,
    pass: Seq<char>,
    captcha: Seq<char>,
    csrf: Seq<char>,
) -> Seq<(Seq<char>, Seq<char>)> {
    seq![
        (USER_FIELD@, user),
        (PASSWORD_FIELD@, pass),
        (CAPTCHA_FIELD@, captcha),
        (CSRF_FIELD@, csrf),
    ]
}

/// The fields of the reboot form.
pub open spec fn reboot_form(csrf: Seq<char>) -> Seq<(Seq<char>, Seq<char>)> {
    seq![(SUBMIT_URL_FIELD@, REBOOT_PAGE_PATH@), (CSRF_FIELD@, csrf)]
}

/// The captcha value that a page carries.
pub open spec fn captcha_of(page: Seq<char>) -> Result<Seq<char>, RouterError> {
    attribute_value(page, CAPTCHA_SELECTOR_ATTR@, CAPTCHA_SELECTOR_VALUE@, TOKEN_ATTR@)
}

/// The CSRF token that a page carries.
pub open spec fn csrf_of(page: Seq<char>) -> Result<Seq<char>, RouterError> {
    attribute_value(page, CSRF_SELECTOR_ATTR@, CSRF_SELECTOR_VALUE@, TOKEN_ATTR@)
}

/// Once the session is signed in: a login ends, a restart fetches the reboot page.
pub open spec fn after_login(goal: Goal, outcome: Outcome) -> (Phase, Option<RequestView>) {
    match goal {
        Goal::LogIn => (Phase::Finished(outcome), None),
        Goal::Restart => (
            Phase::FetchingRebootPage,
            Some(RequestView::Get { path: REBOOT_PAGE_PATH@ }),
        ),
    }
}

/// On the login page: send the login form with both tokens of the page, or fail
/// on the first that is missing.
pub open spec fn on_login_page(user: Seq<char>, pass: Seq<char>, page: Seq<char>) -> (
    Phase,
    Option<RequestView>,
) {
    match captcha_of(page) {
        Err(e) => (Phase::Failed(e), None),
        Ok(captcha) => match csrf_of(page) {
            Err(e) => (Phase::Failed(e), None),
            Ok(csrf) => (
                Phase::SubmittingLogin,
                Some(
                    RequestView::PostForm {
                        path: LOGIN_SUBMIT_PATH@,
                        fields: login_form(user, pass, captcha, csrf),
                    },
                ),
            ),
        },
    }
}

/// On the reboot page: send the reboot form with the page's CSRF token.
pub open spec fn on_reboot_page(page: Seq<char>) -> (Phase, Option<RequestView>) {
    match csrf_of(page) {
        Err(e) => (Phase::Failed(e), None),
        Ok(csrf) => (
            Phase::SubmittingReboot,
            Some(RequestView::PostForm { path: REBOOT_SUBMIT_PATH@, fields: reboot_form(csrf) }),
        ),
    }
}

/// The phase and request that follow `reply` in `phase`, for the credentials
/// `user` and `pass`.
pub open spec fn next_step(
    user: Seq<char>,
    pass: Seq<char>,
    goal: Goal,
    phase: Phase,
    reply: ReplyView,
) -> (Phase, Option<RequestView>) {
    if has_ended(phase) {
        (phase, None)
    } else {
        match reply {
            ReplyView::Unreachable => (Phase::Failed(RouterError::NetworkError), None),
            ReplyView::Arrived { final_path, body } => match phase {
                Phase::ProbingSession => if signed_in(final_path) {
                    after_login(goal, Outcome::AlreadyLoggedIn)
                } else {
                    on_login_page(user, pass, body)
                },
                Phase::SubmittingLogin => if final_path == DASHBOARD_PATH@ {
                    after_login(goal, Outcome::LoggedIn)
                } else {
                    (Phase::Failed(RouterError::LoginFailed), None)
                },
                Phase::FetchingRebootPage => on_reboot_page(body),
                _ => (Phase::Finished(Outcome::RestartTriggered), None),
            },
        }
    }
}

/// Whether `a` and `b` hold the same text.
fn same_text(a: &String, b: &str) -> (r: bool)
    ensures
        r == (a@ == b@),
{
    let owned = b.to_owned();
    a.eq(&owned)
}

/// Reads the session state from the path that the probe's redirects ended on.
pub fn session_signed_in(final_path: &String) -> (r: bool)
    ensures
        r == signed_in(final_path@),
{
    !same_text(final_path, LOGIN_PAGE_PATH)
}

/// The probe that opens every flow; no session state is assumed.
pub fn opening() -> (r: (Phase, Request))
    ensures
        step_view((r.0, Some(r.1))) == opening_step(),
{
    (Phase::ProbingSession, Request::Get { path: DASHBOARD_PATH.to_owned() })
}

fn after_login_step(goal: Goal, outcome: Outcome) -> (r: (Phase, Option<Request>))
    ensures
        step_view(r) == after_login(goal, outcome),
{
    match goal {
        Goal::LogIn => (Phase::Finished(outcome), None),
        Goal::Restart => (
            Phase::FetchingRebootPage,
            Some(Request::Get { path: REBOOT_PAGE_PATH.to_owned() }),
        ),
    }
}

fn login_page_step(user: &str, pass: &str, page: &str) -> (r: (Phase, Option<Request>))
    ensures
        step_view(r) == on_login_page(user@, pass@, page@),
{
    let captcha = match find_attribute_value(
        page,
        CAPTCHA_SELECTOR_ATTR,
        CAPTCHA_SELECTOR_VALUE,
        TOKEN_ATTR,
    ) {
        Ok(c) => c,
        Err(e) => {
            return (Phase::Failed(e), None);
        },
    };
    let csrf = match find_attribute_value(page, CSRF_SELECTOR_ATTR, CSRF_SELECTOR_VALUE, TOKEN_ATTR) {
        Ok(t) => t,
        Err(e) => {
            return (Phase::Failed(e), None);
        },
    };
    let ghost form = login_form(user@, pass@, captcha@, csrf@);
    let fields = vec![
        (USER_FIELD.to_owned(), user.to_owned()),
        (PASSWORD_FIELD.to_owned(), pass.to_owned()),
        (CAPTCHA_FIELD.to_owned(), captcha),
        (CSRF_FIELD.to_owned(), csrf),
    ];
    assert(form_view(fields@) =~= form);
    (Phase::SubmittingLogin, Some(Request::PostForm { path: LOGIN_SUBMIT_PATH.to_owned(), fields }))
}

fn reboot_page_step(page: &str) -> (r: (Phase, Option<Request>))
    ensures
        step_view(r) == on_reboot_page(page@),
{
    let csrf = match find_attribute_value(page, CSRF_SELECTOR_ATTR, CSRF_SELECTOR_VALUE, TOKEN_ATTR) {
        Ok(t) => t,
        Err(e) => {
            return (Phase::Failed(e), None);
        },
    };
    let ghost form = reboot_form(csrf@);
    let fields = vec![
        (SUBMIT_URL_FIELD.to_owned(), REBOOT_PAGE_PATH.to_owned()),
        (CSRF_FIELD.to_owned(), csrf),
    ];
    assert(form_view(fields@) =~= form);
    (
        Phase::SubmittingReboot,
        Some(Request::PostForm { path: REBOOT_SUBMIT_PATH.to_owned(), fields }),
    )
}

/// Takes the reply to the request that `phase` waits on and gives the next phase
/// and the next request, if any, for the credentials `user` and `pass`.
pub fn next_request(user: &str, pass: &str, goal: Goal, phase: Phase, reply: &Reply) -> (r: (
    Phase,
    Option<Request>,
))
    ensures
        step_view(r) == next_step(user@, pass@, goal, phase, reply@),
{
    match phase {
        Phase::Finished(_) | Phase::Failed(_) => (phase, None),
        _ => match reply {
            Reply::Unreachable => (Phase::Failed(RouterError::NetworkError), None),
            Reply::Arrived { final_path, body } => match phase {
                Phase::ProbingSession => if session_signed_in(final_path) {
                    after_login_step(goal, Outcome::AlreadyLoggedIn)
                } else {
                    login_page_step(user, pass, body.as_str())
                },
                Phase::SubmittingLogin => if same_text(final_path, DASHBOARD_PATH) {
                    after_login_step(goal, Outcome::LoggedIn)
                } else {
                    (Phase::Failed(RouterError::LoginFailed), None)
                },
                Phase::FetchingRebootPage => reboot_page_step(body.as_str()),
                _ => (Phase::Finished(Outcome::RestartTriggered), None),
            },
        },
    }
}

/// A login whose probe lands on the dashboard ends as already signed in and sends
/// nothing more.
pub proof fn lemma_signed_in_probe_sends_nothing(user: Seq<char>, pass: Seq<char>, body: Seq<char>)
    ensures
        next_step(
            user,
            pass,
            Goal::LogIn,
            Phase::ProbingSession,
            (ReplyView::Arrived { final_path: DASHBOARD_PATH@, body }),
        ) == (Phase::Finished(Outcome::AlreadyLoggedIn), None::<RequestView>),
{
    reveal_strlit("/");
    reveal_strlit("/admin/login_en.asp");
    assert(DASHBOARD_PATH@.len() != LOGIN_PAGE_PATH@.len());
}

/// A login whose probe lands on the login page, where both tokens stand, sends
/// exactly one POST: the login form with the user, the password, and the captcha
/// value and CSRF token of that page. No reply to it leads to another request.
pub proof fn lemma_login_page_posts_once(
    user: Seq<char>,
    pass: Seq<char>,
    body: Seq<char>,
    captcha: Seq<char>,
    csrf: Seq<char>,
    reply: ReplyView,
)
    requires
        captcha_of(body) == Ok::<Seq<char>, RouterError>(captcha),
        csrf_of(body) == Ok::<Seq<char>, RouterError>(csrf),
    ensures
        next_step(
            user,
            pass,
            Goal::LogIn,
            Phase::ProbingSession,
            (ReplyView::Arrived { final_path: LOGIN_PAGE_PATH@, body }),
        ) == (
            Phase::SubmittingLogin,
            Some(
                (RequestView::PostForm {
                    path: LOGIN_SUBMIT_PATH@,
                    fields: login_form(user, pass, captcha, csrf),
                }),
            ),
        ),
        next_step(user, pass, Goal::LogIn, Phase::SubmittingLogin, reply).1 is None,
{
}

/// A login page without the captcha element fails the flow with `MissingElement`,
/// and no form is sent.
pub proof fn lemma_no_captcha_element_fails(
    user: Seq<char>,
    pass: Seq<char>,
    goal: Goal,
    body: Seq<char>,
)
    requires
        soup_lookup(body, CAPTCHA_SELECTOR_ATTR@, CAPTCHA_SELECTOR_VALUE@, TOKEN_ATTR@) is None,
    ensures
        next_step(
            user,
            pass,
            goal,
            Phase::ProbingSession,
            (ReplyView::Arrived { final_path: LOGIN_PAGE_PATH@, body }),
        ) == (Phase::Failed(RouterError::MissingElement), None::<RequestView>),
{
}

/// A login form whose redirects end off the dashboard fails the flow with
/// `LoginFailed`.
pub proof fn lemma_rejected_login_fails(
    user: Seq<char>,
    pass: Seq<char>,
    goal: Goal,
    final_path: Seq<char>,
    body: Seq<char>,
)
    requires
        final_path != DASHBOARD_PATH@,
    ensures
        next_step(
            user,
            pass,
            goal,
            Phase::SubmittingLogin,
            (ReplyView::Arrived { final_path, body }),
        ) == (Phase::Failed(RouterError::LoginFailed), None::<RequestView>),
{
}

/// A restart opens, as every flow does, with a probe of the session, and whatever
/// the probe shows, the reboot form is not what follows it.
pub proof fn lemma_restart_probes_first(user: Seq<char>, pass: Seq<char>, reply: ReplyView)
    ensures
        opening_step() == (
            Phase::ProbingSession,
            Some((RequestView::Get { path: DASHBOARD_PATH@ })),
        ),
        next_step(user, pass, Goal::Restart, Phase::ProbingSession, reply).0
            != Phase::SubmittingReboot,
{
}

/// On the reboot page, the reboot form sent names that page's path as
/// `submit-url` and carries the CSRF token of that same page.
pub proof fn lemma_reboot_form_uses_page_token(
    user: Seq<char>,
    pass: Seq<char>,
    final_path: Seq<char>,
    body: Seq<char>,
    csrf: Seq<char>,
)
    requires
        csrf_of(body) == Ok::<Seq<char>, RouterError>(csrf),
    ensures
        next_step(
            user,
            pass,
            Goal::Restart,
            Phase::FetchingRebootPage,
            (ReplyView::Arrived { final_path, body }),
        ) == (
            Phase::SubmittingReboot,
            Some(
                (RequestView::PostForm { path: REBOOT_SUBMIT_PATH@, fields: reboot_form(csrf) }),
            ),
        ),
        reboot_form(csrf) == seq![(SUBMIT_URL_FIELD@, REBOOT_PAGE_PATH@), (CSRF_FIELD@, csrf)],
{
}

} // verus!
