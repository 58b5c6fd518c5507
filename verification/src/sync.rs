//! The loop that ties the phases together, as a state machine: capture of the
//! code, exchange for a credential, then polling without end.
//!
//! The machine does no I/O. Its owner performs the [`Action`] that a step hands
//! out and reports what came of it as the next [`Event`].
use vstd::prelude::*;
use vstd::string::*;
use crate::auth::{captured_from, get_spotify_code, request_path};
use crate::display::{render_ops, render_sequence, BusOp};
use crate::token::{
    bearer_prefix, form_body, get_access_token, token_request_body, AccessTokenResponse,
    Credential,
};
use crate::track::{
    artist_names, changed, first_artist, get_current_song, row_text, CurrentPlayingTrackResponse,
    TrackSnapshot,
};
use crate::bounded::{form_bytes, ROW_BYTES, TOKEN_BYTES};

verus! {

/// Pause between two polls, in seconds.
pub const POLL_INTERVAL_SECS: u64 = 5;

/// What lasts from the exchange on: the credential, the snapshot that the
/// display is believed to show, and the one whose render is under way.
pub struct Session {
    credential: Credential,
    shown: TrackSnapshot,
    pending: Option<TrackSnapshot>,
}

/// The phase of the loop. There is no way back from a later phase.
pub enum SyncState {
    /// Listening for the redirect that carries the code.
    AwaitingCode,
    /// The code is out for exchange.
    ExchangingToken,
    /// Polling the current track, with the session's credential.
    Polling(Session),
}

/// What the owner of the loop reports.
pub enum Event<'a> {
    /// These bytes were read from an accepted connection.
    Request(&'a [u8]),
    /// The token endpoint answered.
    TokenAnswer(AccessTokenResponse<'a>),
    /// The exchange failed before an answer could be read.
    ExchangeFailed,
    /// The track endpoint answered.
    TrackAnswer(CurrentPlayingTrackResponse<'a>),
    /// The poll failed before an answer could be read.
    PollFailed,
    /// The render that was asked for was carried out, or failed on the bus.
    Rendered(bool),
}

/// What the owner of the loop is to do next.
pub enum Action {
    /// Go on listening; nothing is sent to the connection at hand.
    Listen,
    /// Send the success response, stop listening, and post this form.
    Exchange(heapless::String<512>),
    /// Poll the current track now.
    Poll,
    /// Replay these steps on the display bus and report the outcome.
    Render(Vec<BusOp>),
    /// Sleep for the poll interval, then poll.
    Sleep,
    /// Stop: the exchange failed, and nothing can follow it.
    Halt,
    /// The event does not belong to this phase; nothing changes.
    Reject,
}

/// A snapshot as title bytes and artist bytes.
pub type Shown = (Seq<u8>, Seq<u8>);

/// The phase of the loop with what it holds.
pub ghost enum SyncView {
    AwaitingCode,
    ExchangingToken,
    Polling { access_token: Seq<u8>, refresh_token: Seq<u8>, shown: Shown, pending: Option<Shown> },
}

/// An action with what it carries.
pub ghost enum ActionView {
    Listen,
    Exchange(Seq<u8>),
    Poll,
    Render(Seq<BusOp>),
    Sleep,
    Halt,
    Reject,
}

impl TrackSnapshot {
    /// Title and artist.
    pub open spec fn pair(&self) -> Shown {
        (self.title(), self.artist())
    }
}

impl Session {
    pub closed spec fn view(&self) -> SyncView {
        SyncView::Polling {
            access_token: self.credential.access_token_bytes(),
            refresh_token: self.credential.refresh_token_bytes(),
            shown: self.shown.pair(),
            pending: match self.pending {
                Some(p) => Some(p.pair()),
                None => None,
            },
        }
    }

    /// The session's credential.
    pub fn credential(&self) -> (c: &Credential)
        ensures
            self.view() matches SyncView::Polling { access_token, refresh_token, .. }
                && access_token == c.access_token_bytes() && refresh_token
                == c.refresh_token_bytes(),
    {
        &self.credential
    }

    /// The snapshot that the display is believed to show.
    pub fn shown(&self) -> (s: &TrackSnapshot)
        ensures
            self.view() matches SyncView::Polling { shown, .. } && shown == s.pair(),
    {
        &self.shown
    }
}

impl SyncState {
    pub open spec fn view(&self) -> SyncView {
        match self {
            SyncState::AwaitingCode => SyncView::AwaitingCode,
            SyncState::ExchangingToken => SyncView::ExchangingToken,
            SyncState::Polling(session) => session.view(),
        }
    }

    /// The phase in which the loop starts.
    pub fn new() -> (s: SyncState)
        ensures
            s.view() == SyncView::AwaitingCode,
    {
        SyncState::AwaitingCode
    }
}

impl Action {
    pub open spec fn view(&self) -> ActionView {
        match self {
            Action::Listen => ActionView::Listen,
            Action::Exchange(body) => ActionView::Exchange(form_bytes(*body)),
            Action::Poll => ActionView::Poll,
            Action::Render(ops) => ActionView::Render(ops@),
            Action::Sleep => ActionView::Sleep,
            Action::Halt => ActionView::Halt,
            Action::Reject => ActionView::Reject,
        }
    }
}

/// The token endpoint's answer fits a credential.
pub open spec fn answer_fits(response: AccessTokenResponse) -> bool {
    7 + response.access_token.spec_bytes().len() <= TOKEN_BYTES
        && response.refresh_token.spec_bytes().len() <= TOKEN_BYTES
}

/// The snapshot that the track endpoint's answer gives, where it gives one.
pub open spec fn polled(response: CurrentPlayingTrackResponse) -> Option<Shown> {
    let title = row_text(response.item.name@);
    let artist = row_text(first_artist(artist_names(response.item.artists)));
    if title.len() <= ROW_BYTES && artist.len() <= ROW_BYTES {
        Some((title, artist))
    } else {
        None
    }
}

/// The step from the first phase, on the path of a request that parsed
/// completely (`None`: it did not).
pub open spec fn next_awaiting(parsed: Option<Seq<u8>>) -> (SyncView, ActionView) {
    match captured_from(parsed) {
        Some(code) => (SyncView::ExchangingToken, ActionView::Exchange(form_body(code))),
        None => (SyncView::AwaitingCode, ActionView::Listen),
    }
}

/// The step from the polling phase.
pub open spec fn next_polling(
    access_token: Seq<u8>,
    refresh_token: Seq<u8>,
    shown: Shown,
    pending: Option<Shown>,
    event: Event,
) -> (SyncView, ActionView) {
    let same = SyncView::Polling { access_token, refresh_token, shown, pending };
    match (pending, event) {
        (None, Event::TrackAnswer(response)) => match polled(response) {
            Some(snapshot) => if snapshot != shown {
                (
                    SyncView::Polling {
                        access_token,
                        refresh_token,
                        shown,
                        pending: Some(snapshot),
                    },
                    ActionView::Render(render_ops(snapshot.0, snapshot.1)),
                )
            } else {
                (same, ActionView::Sleep)
            },
            None => (same, ActionView::Sleep),
        },
        (None, Event::PollFailed) => (same, ActionView::Sleep),
        (Some(snapshot), Event::Rendered(done)) => (
            SyncView::Polling {
                access_token,
                refresh_token,
                shown: if done {
                    snapshot
                } else {
                    shown
                },
                pending: None,
            },
            ActionView::Sleep,
        ),
        _ => (same, ActionView::Reject),
    }
}

/// The step of the loop: the phase and the action that follow `event` in `state`.
pub open spec fn next(state: SyncView, event: Event) -> (SyncView, ActionView) {
    match state {
        SyncView::AwaitingCode => match event {
            Event::Request(bytes) => next_awaiting(request_path(bytes@)),
            _ => (state, ActionView::Reject),
        },
        SyncView::ExchangingToken => match event {
            Event::TokenAnswer(response) => if answer_fits(response) {
                (
                    SyncView::Polling {
                        access_token: bearer_prefix() + response.access_token.spec_bytes(),
                        refresh_token: response.refresh_token.spec_bytes(),
                        shown: (Seq::empty(), Seq::empty()),
                        pending: None,
                    },
                    ActionView::Poll,
                )
            } else {
                (state, ActionView::Halt)
            },
            Event::ExchangeFailed => (state, ActionView::Halt),
            _ => (state, ActionView::Reject),
        },
        SyncView::Polling { access_token, refresh_token, shown, pending } => next_polling(
            access_token,
            refresh_token,
            shown,
            pending,
            event,
        ),
    }
}

/// One cycle of the polling phase, on the endpoint's answer or its failure.
fn step_polling<'a>(session: Session, event: Event<'a>) -> (r: (SyncState, Action))
    ensures
        (r.0.view(), r.1.view()) == next(session.view(), event),
{
    let Session { credential, shown, pending } = session;
    match pending {
        None => match event {
            Event::TrackAnswer(response) => match get_current_song(&response) {
                Ok(snapshot) => {
                    if changed(&shown, &snapshot) {
                        let ops = render_sequence(
                            snapshot.title_str().as_bytes(),
                            snapshot.artist_str().as_bytes(),
                        );
                        (
                            SyncState::Polling(
                                Session { credential, shown, pending: Some(snapshot) },
                            ),
                            Action::Render(ops),
                        )
                    } else {
                        (
                            SyncState::Polling(Session { credential, shown, pending: None }),
                            Action::Sleep,
                        )
                    }
                },
                Err(_) => (
                    SyncState::Polling(Session { credential, shown, pending: None }),
                    Action::Sleep,
                ),
            },
            Event::PollFailed => (
                SyncState::Polling(Session { credential, shown, pending: None }),
                Action::Sleep,
            ),
            _ => (
                SyncState::Polling(Session { credential, shown, pending: None }),
                Action::Reject,
            ),
        },
        Some(snapshot) => match event {
            Event::Rendered(done) => {
                if done {
                    (
                        SyncState::Polling(
                            Session { credential, shown: snapshot, pending: None },
                        ),
                        Action::Sleep,
                    )
                } else {
                    (
                        SyncState::Polling(Session { credential, shown, pending: None }),
                        Action::Sleep,
                    )
                }
            },
            _ => (
                SyncState::Polling(Session { credential, shown, pending: Some(snapshot) }),
                Action::Reject,
            ),
        },
    }
}

/// Carries the loop one step on: the next phase, and what its owner is to do.
pub fn step<'a>(state: SyncState, event: Event<'a>) -> (r: (SyncState, Action))
    ensures
        (r.0.view(), r.1.view()) == next(state.view(), event),
{
    match state {
        SyncState::AwaitingCode => match event {
            Event::Request(bytes) => match get_spotify_code(bytes) {
                Some(code) => (
                    SyncState::ExchangingToken,
                    Action::Exchange(token_request_body(&code)),
                ),
                None => (SyncState::AwaitingCode, Action::Listen),
            },
            _ => (SyncState::AwaitingCode, Action::Reject),
        },
        SyncState::ExchangingToken => match event {
            Event::TokenAnswer(response) => match get_access_token(&response) {
                Ok(credential) => (
                    SyncState::Polling(
                        Session { credential, shown: TrackSnapshot::empty(), pending: None },
                    ),
                    Action::Poll,
                ),
                Err(_) => (SyncState::ExchangingToken, Action::Halt),
            },
            Event::ExchangeFailed => (SyncState::ExchangingToken, Action::Halt),
            _ => (SyncState::ExchangingToken, Action::Reject),
        },
        SyncState::Polling(session) => step_polling(session, event),
    }
}

/// The phases are passed in one direction: no step leads from the exchange back
/// to the listening, and none out of the polling.
pub proof fn lemma_no_way_back(state: SyncView, event: Event)
    ensures
        state is ExchangingToken ==> !(next(state, event).0 is AwaitingCode),
        state is Polling ==> next(state, event).0 is Polling,
        state is Polling ==> next(state, event).0->access_token == state->access_token,
        state is Polling ==> next(state, event).0->refresh_token == state->refresh_token,
{
}

/// A render is asked for exactly where the polled snapshot differs from the one
/// shown; the one shown changes only on the report that the render was done.
pub proof fn lemma_render_on_change(
    access_token: Seq<u8>,
    refresh_token: Seq<u8>,
    shown: Shown,
    response: CurrentPlayingTrackResponse,
    done: bool,
)
    ensures
        ({
            let state = SyncView::Polling { access_token, refresh_token, shown, pending: None };
            let after = next(state, Event::TrackAnswer(response));
            &&& after.1 is Render <==> polled(response) is Some && polled(response)->0 != shown
            &&& !(after.1 is Render) ==> after.0 == state && after.1 is Sleep
            &&& after.1 is Render ==> {
                let reported = next(after.0, Event::Rendered(done));
                &&& after.0->shown == shown
                &&& after.0->pending == polled(response)
                &&& reported.0->shown == if done {
                    polled(response)->0
                } else {
                    shown
                }
                &&& reported.0->pending is None
                &&& reported.1 is Sleep
            }
        }),
{
}

/// No step from the first phase leaves it on a request whose path does not
/// begin with `/?code=`, or that did not parse completely.
pub proof fn lemma_listening_continues(parsed: Option<Seq<u8>>)
    requires
        parsed matches Some(path) ==> !crate::auth::has_prefix(path, crate::auth::code_prefix()),
    ensures
        next_awaiting(parsed) == (SyncView::AwaitingCode, ActionView::Listen),
{
}

} // verus!
