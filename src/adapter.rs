//! The router adapter: the credentials and origin that the flows run with.
use crate::error::RouterError;
use crate::flow::{next_request, next_step, opening, opening_step, step_view, Goal, Phase, Reply, Request};
use crate::resolve::{resolution, resolve, resolved_view};
use vstd::prelude::*;

verus! {

/// The user name and password to sign in with.
pub struct Creds {
    user: String,
    pass: String,
}

impl Creds {
    /// The user name.
    pub closed spec fn user_view(&self) -> Seq<char> {
        self.user@
    }

    /// The password.
    pub closed spec fn pass_view(&self) -> Seq<char> {
        self.pass@
    }

    pub fn new(user: String, pass: String) -> (r: Self)
        ensures
            r.user_view() == user@,
            r.pass_view() == pass@,
    {
        Self { user, pass }
    }
}

/// Runs the flows against one router, whose origin is a plain-HTTP address such
/// as `http://192.168.1.1`.
pub struct SyrotechAdapter {
    origin: String,
    creds: Creds,
}

impl SyrotechAdapter {
    /// The origin that paths are joined to.
    pub closed spec fn origin_view(&self) -> Seq<char> {
        self.origin@
    }

    /// The user name signed in with.
    pub closed spec fn user_view(&self) -> Seq<char> {
        self.creds.user_view()
    }

    /// The password signed in with.
    pub closed spec fn pass_view(&self) -> Seq<char> {
        self.creds.pass_view()
    }

    pub fn new(origin: String, creds: Creds) -> (r: Self)
        ensures
            r.origin_view() == origin@,
            r.user_view() == creds.user_view(),
            r.pass_view() == creds.pass_view(),
    {
        Self { origin, creds }
    }

    /// The absolute URL of `path` on this router, or `InvalidUrl`.
    pub fn url(&self, path: &str) -> (r: Result<String, RouterError>)
        ensures
            resolved_view(r) == resolution(self.origin_view(), path@),
    {
        resolve(self.origin.as_str(), path)
    }

    /// The probe that opens a login or a restart.
    pub fn start(&self) -> (r: (Phase, Request))
        ensures
            step_view((r.0, Some(r.1))) == opening_step(),
    {
        opening()
    }

    /// The phase and request that follow `reply` in `phase` of the flow `goal`.
    pub fn advance(&self, goal: Goal, phase: Phase, reply: &Reply) -> (r: (Phase, Option<Request>))
        ensures
            step_view(r) == next_step(self.user_view(), self.pass_view(), goal, phase, reply@),
    {
        next_request(self.creds.user.as_str(), self.creds.pass.as_str(), goal, phase, reply)
    }
}

} // verus!
