//! What the arbiter of the oscillators does, said without the arbiter: the
//! requests that it serves, how each changes the oscillators and the count
//! of outstanding tokens, and what holds of every sequence of requests.

use crate::drivers::api::osc::OscAction;
use crate::drivers::osc_nrf::NrfOscState;
use crate::token::MAX_TOKENS;
use vstd::prelude::*;

verus! {

/// The four things that clients ask of the arbiter.
pub enum OscRequest {
    RequestLf,
    ReleaseLf,
    RequestHf,
    ReleaseHf,
}

/// What the arbiter keeps track of: the oscillators that run and the tokens
/// that are outstanding for each.
pub struct OscModel {
    pub state: NrfOscState,
    pub lf_tokens: nat,
    pub hf_tokens: nat,
}

impl OscModel {
    /// Both oscillators off and no token outstanding.
    pub open spec fn initial() -> OscModel {
        OscModel { state: NrfOscState::OffOff, lf_tokens: 0, hf_tokens: 0 }
    }

    /// Each oscillator runs exactly while a token for it is outstanding.
    pub open spec fn consistent(self) -> bool {
        &&& self.state.sleep_started() == (self.lf_tokens > 0)
        &&& self.state.high_acc_enabled() == (self.hf_tokens > 0)
        &&& self.lf_tokens <= MAX_TOKENS
        &&& self.hf_tokens <= MAX_TOKENS
    }

    /// Whether the arbiter can serve the request: a release needs a token
    /// that is outstanding, a request room in the counter.
    pub open spec fn admits(self, request: OscRequest) -> bool {
        match request {
            OscRequest::RequestLf => self.lf_tokens < MAX_TOKENS,
            OscRequest::ReleaseLf => self.lf_tokens > 0,
            OscRequest::RequestHf => self.hf_tokens < MAX_TOKENS,
            OscRequest::ReleaseHf => self.hf_tokens > 0,
        }
    }

    /// The arbiter after it has served the request.
    pub open spec fn step(self, request: OscRequest) -> OscModel {
        match request {
            OscRequest::RequestLf => OscModel {
                state: NrfOscState::of(self.state.high_acc_enabled(), true),
                lf_tokens: self.lf_tokens + 1,
                hf_tokens: self.hf_tokens,
            },
            OscRequest::ReleaseLf => OscModel {
                state: NrfOscState::of(self.state.high_acc_enabled(), self.lf_tokens > 1),
                lf_tokens: (self.lf_tokens - 1) as nat,
                hf_tokens: self.hf_tokens,
            },
            OscRequest::RequestHf => OscModel {
                state: NrfOscState::of(true, self.state.sleep_started()),
                lf_tokens: self.lf_tokens,
                hf_tokens: self.hf_tokens + 1,
            },
            OscRequest::ReleaseHf => OscModel {
                state: NrfOscState::of(self.hf_tokens > 1, self.state.sleep_started()),
                lf_tokens: self.lf_tokens,
                hf_tokens: (self.hf_tokens - 1) as nat,
            },
        }
    }

    /// What serving the request asks of the hardware.
    pub open spec fn action(self, request: OscRequest) -> OscAction {
        match request {
            OscRequest::RequestLf => if self.state.sleep_started() {
                OscAction::Keep
            } else {
                OscAction::Start
            },
            OscRequest::ReleaseLf => if self.lf_tokens == 1 {
                OscAction::Stop
            } else {
                OscAction::Keep
            },
            OscRequest::RequestHf => if self.state.high_acc_enabled() {
                OscAction::Keep
            } else {
                OscAction::Start
            },
            OscRequest::ReleaseHf => if self.hf_tokens == 1 {
                OscAction::Stop
            } else {
                OscAction::Keep
            },
        }
    }

    /// Whether the arbiter can serve the requests one after another.
    pub open spec fn admits_all(self, requests: Seq<OscRequest>) -> bool
        decreases requests.len(),
    {
        requests.len() == 0 || (self.admits(requests[0]) && self.step(requests[0]).admits_all(
            requests.skip(1),
        ))
    }

    /// The arbiter after it has served the requests one after another.
    pub open spec fn run(self, requests: Seq<OscRequest>) -> OscModel
        decreases requests.len(),
    {
        if requests.len() == 0 {
            self
        } else {
            self.step(requests[0]).run(requests.skip(1))
        }
    }
}

/// Serving a request keeps the arbiter consistent.
pub proof fn lemma_step_keeps_consistent(model: OscModel, request: OscRequest)
    requires
        model.consistent(),
        model.admits(request),
    ensures
        model.step(request).consistent(),
{
}

/// Through every interleaving of requests and releases, and at every point
/// of it, each oscillator runs exactly while a token for it is outstanding.
/// In particular the arbiter never shows an oscillator off that a client
/// still holds a token for, and its state is the one of the four that the
/// outstanding tokens determine.
pub proof fn lemma_consistent_at_every_point(model: OscModel, requests: Seq<OscRequest>, point: int)
    requires
        model.consistent(),
        model.admits_all(requests),
        0 <= point <= requests.len(),
    ensures
        model.run(requests.take(point)).consistent(),
        model.run(requests.take(point)).state.sleep_started() == (model.run(
            requests.take(point),
        ).lf_tokens > 0),
        model.run(requests.take(point)).state.high_acc_enabled() == (model.run(
            requests.take(point),
        ).hf_tokens > 0),
        model.run(requests.take(point)).state == NrfOscState::of(
            model.run(requests.take(point)).hf_tokens > 0,
            model.run(requests.take(point)).lf_tokens > 0,
        ),
    decreases point,
{
    if point > 0 {
        lemma_step_keeps_consistent(model, requests[0]);
        assert(requests.take(point).skip(1) =~= requests.skip(1).take(point - 1));
        assert(requests.take(point)[0] == requests[0]);
        lemma_consistent_at_every_point(model.step(requests[0]), requests.skip(1), point - 1);
    } else {
        assert(requests.take(0).len() == 0);
    }
}

/// A request counts one more token and leaves its oscillator running,
/// whatever ran before; the arbiter stays in one of its four states.
pub proof fn lemma_request_counts_and_starts(model: OscModel)
    ensures
        model.step(OscRequest::RequestLf).lf_tokens == model.lf_tokens + 1,
        model.step(OscRequest::RequestLf).state.sleep_started(),
        model.step(OscRequest::RequestLf).state is OffOn || model.step(
            OscRequest::RequestLf,
        ).state is OnOn,
        model.step(OscRequest::RequestHf).hf_tokens == model.hf_tokens + 1,
        model.step(OscRequest::RequestHf).state.high_acc_enabled(),
        model.step(OscRequest::RequestHf).state is OnOff || model.step(
            OscRequest::RequestHf,
        ).state is OnOn,
{
}

/// A request changes one oscillator only, and so does a release.
pub proof fn lemma_step_moves_one_axis(model: OscModel, request: OscRequest)
    ensures
        (request is RequestLf || request is ReleaseLf) ==> {
            &&& model.step(request).state.high_acc_enabled() == model.state.high_acc_enabled()
            &&& model.step(request).hf_tokens == model.hf_tokens
        },
        (request is RequestHf || request is ReleaseHf) ==> {
            &&& model.step(request).state.sleep_started() == model.state.sleep_started()
            &&& model.step(request).lf_tokens == model.lf_tokens
        },
{
}

/// Requests on different oscillators commute: whichever is served first,
/// the arbiter ends up the same.
pub proof fn lemma_axes_commute(model: OscModel, lf: OscRequest, hf: OscRequest)
    requires
        lf is RequestLf || lf is ReleaseLf,
        hf is RequestHf || hf is ReleaseHf,
    ensures
        model.step(lf).step(hf) == model.step(hf).step(lf),
        model.step(lf).admits(hf) == model.admits(hf),
        model.step(hf).admits(lf) == model.admits(lf),
{
}

/// Requesting the high-accuracy oscillator, then the low-frequency one, and
/// releasing them in the opposite order leads back to where the arbiter
/// was; from the initial state, that is both oscillators off.
pub proof fn lemma_nested_requests_return(model: OscModel)
    requires
        model.consistent(),
        model.lf_tokens < MAX_TOKENS,
        model.hf_tokens < MAX_TOKENS,
    ensures
        model.admits_all(
            seq![
                OscRequest::RequestHf,
                OscRequest::RequestLf,
                OscRequest::ReleaseLf,
                OscRequest::ReleaseHf,
            ],
        ),
        model.run(
            seq![
                OscRequest::RequestHf,
                OscRequest::RequestLf,
                OscRequest::ReleaseLf,
                OscRequest::ReleaseHf,
            ],
        ) == model,
{
    let requests = seq![
        OscRequest::RequestHf,
        OscRequest::RequestLf,
        OscRequest::ReleaseLf,
        OscRequest::ReleaseHf,
    ];
    let m1 = model.step(OscRequest::RequestHf);
    let m2 = m1.step(OscRequest::RequestLf);
    let m3 = m2.step(OscRequest::ReleaseLf);
    let m4 = m3.step(OscRequest::ReleaseHf);
    let r1 = requests.skip(1);
    let r2 = r1.skip(1);
    let r3 = r2.skip(1);
    let r4 = r3.skip(1);
    assert(r4.len() == 0);
    assert(m4.run(r4) == m4 && m4.admits_all(r4));
    assert(m3.run(r3) == m4 && m3.admits_all(r3));
    assert(m2.run(r2) == m4 && m2.admits_all(r2));
    assert(m1.run(r1) == m4 && m1.admits_all(r1));
    assert(m4 == model);
}

} // verus!
