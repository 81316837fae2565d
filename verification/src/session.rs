//! The state machine of one viewer connection.
//!
//! A session starts unauthenticated. It forwards every new status to its
//! client whether authenticated or not, takes password attempts until one is
//! right, and after that takes power commands. The first event that ends one
//! of its duties closes it. The session itself neither reads nor writes the
//! connection: its driver feeds it events and carries out its reactions.

use crate::broadcast::{has_news, Broadcast, BroadcastView, Subscriber};
use crate::model::{AuthResult, ClientOpt, Newspeak, NewspeakView, ServerStatus, ServerStatusView};
use crate::registry::{count_after_register, count_after_unregister, register_wakes, Registry};
use crate::wire::parse_client_opt;
use vstd::prelude::*;

verus! {

/// Where a session stands. There is nothing between these three.
#[derive(Clone, Copy, PartialEq, Eq, Debug, Structural)]
pub enum SessionState {
    /// The client has not given the password yet.
    Unauthenticated,
    /// The client has given the password and may send commands.
    Authenticated,
    /// The session is over.
    Closed,
}

/// A frame that the client sent.
#[derive(PartialEq, Debug)]
pub enum ClientFrame {
    /// A text frame: a password attempt.
    Text(String),
    /// A binary frame: an encoded [`ClientOpt`].
    Binary(Vec<u8>),
    Ping,
    Pong,
    /// The client closes the connection.
    Close,
}

/// View of a [`ClientFrame`].
pub ghost enum ClientFrameView {
    Text(Seq<char>),
    Binary(Seq<u8>),
    Ping,
    Pong,
    Close,
}

impl View for ClientFrame {
    type V = ClientFrameView;

    open spec fn view(&self) -> ClientFrameView {
        match self {
            ClientFrame::Text(text) => ClientFrameView::Text(text@),
            ClientFrame::Binary(bytes) => ClientFrameView::Binary(bytes@),
            ClientFrame::Ping => ClientFrameView::Ping,
            ClientFrame::Pong => ClientFrameView::Pong,
            ClientFrame::Close => ClientFrameView::Close,
        }
    }
}

/// What happened on a session's connection or in the broadcast.
#[derive(PartialEq, Debug)]
pub enum SessionEvent {
    /// The client sent a frame.
    Frame(ClientFrame),
    /// Reading from the client failed, or the client is gone.
    ReadFailed,
    /// The broadcast holds a new status, which is this one.
    StatusChanged(ServerStatus),
    /// Sending to the client failed.
    SendFailed,
}

/// View of a [`SessionEvent`].
pub ghost enum SessionEventView {
    Frame(ClientFrameView),
    ReadFailed,
    StatusChanged(ServerStatusView),
    SendFailed,
}

impl View for SessionEvent {
    type V = SessionEventView;

    open spec fn view(&self) -> SessionEventView {
        match self {
            SessionEvent::Frame(frame) => SessionEventView::Frame(frame@),
            SessionEvent::ReadFailed => SessionEventView::ReadFailed,
            SessionEvent::StatusChanged(status) => SessionEventView::StatusChanged(status@),
            SessionEvent::SendFailed => SessionEventView::SendFailed,
        }
    }
}

/// What the driver has to do after an event, in this order: hand `command`
/// to the cloud without waiting for its outcome, send `reply` to the client,
/// and, where `finished` is set, end the session: send a close frame and
/// release the session.
#[derive(PartialEq, Debug)]
pub struct Reaction {
    pub command: Option<ClientOpt>,
    pub reply: Option<Newspeak>,
    pub finished: bool,
}

/// View of a [`Reaction`].
pub ghost struct ReactionView {
    pub command: Option<ClientOpt>,
    pub reply: Option<NewspeakView>,
    pub finished: bool,
}

impl View for Reaction {
    type V = ReactionView;

    open spec fn view(&self) -> ReactionView {
        ReactionView {
            command: self.command,
            reply: match self.reply {
                Some(msg) => Some(msg@),
                None => None,
            },
            finished: self.finished,
        }
    }
}

/// The reaction that asks for nothing.
pub open spec fn no_reaction() -> ReactionView {
    ReactionView { command: None, reply: None, finished: false }
}

/// The reaction that ends the session.
pub open spec fn final_reaction() -> ReactionView {
    ReactionView { command: None, reply: None, finished: true }
}

/// The reaction that only sends `msg`.
pub open spec fn reply_with(msg: NewspeakView) -> ReactionView {
    ReactionView { command: None, reply: Some(msg), finished: false }
}

/// The text that tells the client that its command was received. It says
/// nothing on whether the command was carried out.
pub open spec fn feedback_text(opt: ClientOpt) -> Seq<char> {
    match opt {
        ClientOpt::On => "sentinel acknowledged the request, will boot the host shortly"@,
        ClientOpt::Off => "sentinel acknowledged the request, will shutdown the host shortly"@,
        ClientOpt::Reboot => "sentinel acknowledged the request, will reboot the host shortly"@,
    }
}

/// The session's transitions: the state after `event` and the reaction to it,
/// for a session in `state` whose password is `secret`.
///
/// - A closed session stays closed whatever happens.
/// - A close frame, a failed read and a failed send close the session.
/// - A new status is forwarded in either open state.
/// - A text frame counts only before authentication: the password gives
///   `Goob` and authenticates, any other text gives `Sus` and changes nothing.
/// - A binary frame counts only after authentication: where it starts with
///   an encoded command, the command goes to the cloud and a feedback to the
///   client; where it does not, it is passed over in silence.
/// - Everything else is passed over in silence.
pub open spec fn react(state: SessionState, secret: Seq<char>, event: SessionEventView) -> (
    SessionState,
    ReactionView,
) {
    if state == SessionState::Closed {
        (SessionState::Closed, final_reaction())
    } else {
        match event {
            SessionEventView::ReadFailed | SessionEventView::SendFailed | SessionEventView::Frame(
                ClientFrameView::Close,
            ) => (SessionState::Closed, final_reaction()),
            SessionEventView::StatusChanged(status) => (
                state,
                reply_with(NewspeakView::ServerStatus(status)),
            ),
            SessionEventView::Frame(ClientFrameView::Text(attempt)) => {
                if state == SessionState::Authenticated {
                    (state, no_reaction())
                } else if attempt == secret {
                    (
                        SessionState::Authenticated,
                        reply_with(NewspeakView::AuthResult(AuthResult::Goob)),
                    )
                } else {
                    (
                        SessionState::Unauthenticated,
                        reply_with(NewspeakView::AuthResult(AuthResult::Sus)),
                    )
                }
            },
            SessionEventView::Frame(ClientFrameView::Binary(payload)) => {
                if state == SessionState::Authenticated {
                    match parse_client_opt(payload) {
                        Some((opt, _)) => (
                            state,
                            ReactionView {
                                command: Some(opt),
                                reply: Some(NewspeakView::Feedback(feedback_text(opt))),
                                finished: false,
                            },
                        ),
                        None => (state, no_reaction()),
                    }
                } else {
                    (state, no_reaction())
                }
            },
            SessionEventView::Frame(_) => (state, no_reaction()),
        }
    }
}

/// What a look at the broadcast does to a session that is in `state` and saw
/// version `seen` last: the state and the version seen afterwards, and the
/// reaction.
///
/// An open session that finds news has seen the slot's version from then on
/// and reacts to the status in the slot as to a [`SessionEvent::StatusChanged`].
/// Without news nothing happens, and a closed session does not look.
pub open spec fn forwarded(
    state: SessionState,
    secret: Seq<char>,
    seen: nat,
    slot: BroadcastView,
) -> (SessionState, nat, ReactionView) {
    if state == SessionState::Closed {
        (state, seen, final_reaction())
    } else if has_news(slot, seen) {
        match slot.current {
            Some(status) => {
                let after = react(state, secret, SessionEventView::StatusChanged(status));
                (after.0, slot.version, after.1)
            },
            None => (state, slot.version, no_reaction()),
        }
    } else {
        (state, seen, no_reaction())
    }
}

/// A session and the registry's count after the session has been released:
/// the session is closed and counts no longer, and the count has fallen by
/// one if the session still counted.
pub open spec fn released(session: SessionView, count: nat) -> (SessionView, nat) {
    (
        SessionView {
            state: SessionState::Closed,
            secret: session.secret,
            registered: false,
            seen: session.seen,
        },
        if session.registered {
            count_after_unregister(count)
        } else {
            count
        },
    )
}

/// View of a [`Session`].
pub ghost struct SessionView {
    pub state: SessionState,
    /// The password that authenticates.
    pub secret: Seq<char>,
    /// Whether the session still counts in the registry.
    pub registered: bool,
    /// The version of the broadcast that the session saw last.
    pub seen: nat,
}

/// One viewer connection.
pub struct Session {
    state: SessionState,
    secret: String,
    registered: bool,
    subscriber: Subscriber,
}

impl View for Session {
    type V = SessionView;

    closed spec fn view(&self) -> SessionView {
        SessionView {
            state: self.state,
            secret: self.secret@,
            registered: self.registered,
            seen: self.subscriber@,
        }
    }
}

impl Session {
    /// Opens a session for a new connection: counts it in `registry`,
    /// subscribes it to `broadcast` and starts unauthenticated. The second
    /// part of the result says whether the poller has to be woken.
    pub fn open(secret: String, registry: &mut Registry, broadcast: &Broadcast) -> (opened: (
        Session,
        bool,
    ))
        requires
            old(registry)@ < u64::MAX,
        ensures
            opened.0@ == (SessionView {
                state: SessionState::Unauthenticated,
                secret: secret@,
                registered: true,
                seen: 0,
            }),
            final(registry)@ == count_after_register(old(registry)@),
            opened.1 == register_wakes(old(registry)@),
    {
        let wake = registry.register();
        let subscriber = broadcast.subscribe();
        (
            Session { state: SessionState::Unauthenticated, secret, registered: true, subscriber },
            wake,
        )
    }

    /// Where the session stands.
    pub fn state(&self) -> (state: SessionState)
        ensures
            state == self@.state,
    {
        self.state
    }

    /// Whether the session still counts in the registry.
    pub fn is_registered(&self) -> (registered: bool)
        ensures
            registered == self@.registered,
    {
        self.registered
    }

    /// Takes one event and says what to do about it (see [`react`]).
    pub fn step(&mut self, event: SessionEvent) -> (reaction: Reaction)
        ensures
            (final(self)@.state, reaction@) == react(old(self)@.state, old(self)@.secret, event@),
            final(self)@.secret == old(self)@.secret,
            final(self)@.registered == old(self)@.registered,
            final(self)@.seen == old(self)@.seen,
    {
        let quiet = Reaction { command: None, reply: None, finished: false };
        match self.state {
            SessionState::Closed => Reaction { command: None, reply: None, finished: true },
            SessionState::Unauthenticated => match event {
                SessionEvent::ReadFailed | SessionEvent::SendFailed | SessionEvent::Frame(
                    ClientFrame::Close,
                ) => {
                    self.state = SessionState::Closed;
                    Reaction { command: None, reply: None, finished: true }
                },
                SessionEvent::StatusChanged(status) => Reaction {
                    command: None,
                    reply: Some(Newspeak::ServerStatus(status)),
                    finished: false,
                },
                SessionEvent::Frame(ClientFrame::Text(attempt)) => {
                    if attempt == self.secret {
                        self.state = SessionState::Authenticated;
                        Reaction {
                            command: None,
                            reply: Some(Newspeak::AuthResult(AuthResult::Goob)),
                            finished: false,
                        }
                    } else {
                        Reaction {
                            command: None,
                            reply: Some(Newspeak::AuthResult(AuthResult::Sus)),
                            finished: false,
                        }
                    }
                },
                SessionEvent::Frame(_) => quiet,
            },
            SessionState::Authenticated => match event {
                SessionEvent::ReadFailed | SessionEvent::SendFailed | SessionEvent::Frame(
                    ClientFrame::Close,
                ) => {
                    self.state = SessionState::Closed;
                    Reaction { command: None, reply: None, finished: true }
                },
                SessionEvent::StatusChanged(status) => Reaction {
                    command: None,
                    reply: Some(Newspeak::ServerStatus(status)),
                    finished: false,
                },
                SessionEvent::Frame(ClientFrame::Binary(payload)) => {
                    match ClientOpt::decode(payload.as_slice()) {
                        Some((opt, _)) => Reaction {
                            command: Some(opt),
                            reply: Some(Newspeak::Feedback(feedback_for(opt))),
                            finished: false,
                        },
                        None => quiet,
                    }
                },
                SessionEvent::Frame(_) => quiet,
            },
        }
    }

    /// Looks at the broadcast and forwards what the session has not seen
    /// yet, whether the session is authenticated or not (see [`forwarded`]).
    pub fn forward(&mut self, broadcast: &Broadcast) -> (reaction: Reaction)
        ensures
            (final(self)@.state, final(self)@.seen, reaction@) == forwarded(
                old(self)@.state,
                old(self)@.secret,
                old(self)@.seen,
                broadcast@,
            ),
            final(self)@.secret == old(self)@.secret,
            final(self)@.registered == old(self)@.registered,
    {
        if self.state == SessionState::Closed {
            Reaction { command: None, reply: None, finished: true }
        } else if broadcast.has_changed(&self.subscriber) {
            match broadcast.observe(&mut self.subscriber) {
                Some(status) => self.step(SessionEvent::StatusChanged(status)),
                None => Reaction { command: None, reply: None, finished: false },
            }
        } else {
            Reaction { command: None, reply: None, finished: false }
        }
    }

    /// Ends the session: it is closed from now on, and leaves the registry
    /// unless it has left it before. However often this is called, the
    /// session is uncounted once.
    pub fn release(&mut self, registry: &mut Registry)
        ensures
            (final(self)@, final(registry)@) == released(old(self)@, old(registry)@),
    {
        if self.registered {
            registry.unregister();
            self.registered = false;
        }
        self.state = SessionState::Closed;
    }
}

/// The text that tells the client that `opt` was received.
pub fn feedback_for(opt: ClientOpt) -> (text: String)
    ensures
        text@ == feedback_text(opt),
{
    match opt {
        ClientOpt::On => "sentinel acknowledged the request, will boot the host shortly".to_owned(),
        ClientOpt::Off => "sentinel acknowledged the request, will shutdown the host shortly"
            .to_owned(),
        ClientOpt::Reboot => "sentinel acknowledged the request, will reboot the host shortly"
            .to_owned(),
    }
}

/// The state of a session after a sequence of events, the first one first.
pub open spec fn state_after(
    state: SessionState,
    secret: Seq<char>,
    events: Seq<SessionEventView>,
) -> SessionState
    decreases events.len(),
{
    if events.len() == 0 {
        state
    } else {
        state_after(react(state, secret, events[0]).0, secret, events.drop_first())
    }
}

/// Whether `event` is a text frame that holds the password.
pub open spec fn gives_password(secret: Seq<char>, event: SessionEventView) -> bool {
    event == SessionEventView::Frame(ClientFrameView::Text(secret))
}

/// Any text other than the password is answered with `Sus` and leaves the
/// session unauthenticated and open.
pub proof fn lemma_wrong_password_is_sus(secret: Seq<char>, attempt: Seq<char>)
    requires
        attempt != secret,
    ensures
        react(
            SessionState::Unauthenticated,
            secret,
            SessionEventView::Frame(ClientFrameView::Text(attempt)),
        ) == (
            SessionState::Unauthenticated,
            reply_with(NewspeakView::AuthResult(AuthResult::Sus)),
        ),
{
}

/// The password is answered with `Goob` and authenticates the session.
pub proof fn lemma_password_authenticates(secret: Seq<char>)
    ensures
        react(
            SessionState::Unauthenticated,
            secret,
            SessionEventView::Frame(ClientFrameView::Text(secret)),
        ) == (SessionState::Authenticated, reply_with(NewspeakView::AuthResult(AuthResult::Goob))),
{
}

/// Wrong attempts do not wear a session out: after any number of texts that
/// are not the password the session is still unauthenticated, and the
/// password then authenticates it.
pub proof fn lemma_retries_are_unlimited(secret: Seq<char>, attempts: Seq<Seq<char>>)
    requires
        forall|i: int| 0 <= i < attempts.len() ==> attempts[i] != secret,
    ensures
        state_after(
            SessionState::Unauthenticated,
            secret,
            attempts.map_values(
                |attempt: Seq<char>| SessionEventView::Frame(ClientFrameView::Text(attempt)),
            ),
        ) == SessionState::Unauthenticated,
        react(
            state_after(
                SessionState::Unauthenticated,
                secret,
                attempts.map_values(
                    |attempt: Seq<char>| SessionEventView::Frame(ClientFrameView::Text(attempt)),
                ),
            ),
            secret,
            SessionEventView::Frame(ClientFrameView::Text(secret)),
        ).0 == SessionState::Authenticated,
    decreases attempts.len(),
{
    let wrap = |attempt: Seq<char>| SessionEventView::Frame(ClientFrameView::Text(attempt));
    let events = attempts.map_values(wrap);
    if attempts.len() > 0 {
        assert(events[0] == wrap(attempts[0]));
        assert(events.drop_first() == attempts.drop_first().map_values(wrap));
        lemma_retries_are_unlimited(secret, attempts.drop_first());
    }
}

/// No command reaches the cloud from a session that is not authenticated,
/// whatever the event: a binary frame that holds a valid command is passed
/// over like any other.
pub proof fn lemma_no_command_unless_authenticated(
    state: SessionState,
    secret: Seq<char>,
    event: SessionEventView,
)
    requires
        state != SessionState::Authenticated,
    ensures
        react(state, secret, event).1.command is None,
{
}

/// Before authentication a binary frame changes nothing and is answered
/// with nothing, whatever it holds.
pub proof fn lemma_binary_frame_before_authentication(secret: Seq<char>, payload: Seq<u8>)
    ensures
        react(
            SessionState::Unauthenticated,
            secret,
            SessionEventView::Frame(ClientFrameView::Binary(payload)),
        ) == (SessionState::Unauthenticated, no_reaction()),
{
}

/// A session that has not been given the password is not authenticated:
/// after any sequence of events of which none gives the password, a session
/// that was not authenticated at the start still is not.
pub proof fn lemma_only_the_password_authenticates(
    state: SessionState,
    secret: Seq<char>,
    events: Seq<SessionEventView>,
)
    requires
        state != SessionState::Authenticated,
        forall|i: int| 0 <= i < events.len() ==> !gives_password(secret, events[i]),
    ensures
        state_after(state, secret, events) != SessionState::Authenticated,
    decreases events.len(),
{
    if events.len() > 0 {
        let next = react(state, secret, events[0]).0;
        assert(!gives_password(secret, events[0]));
        assert(next != SessionState::Authenticated);
        assert forall|i: int| 0 <= i < events.drop_first().len() implies !gives_password(
            secret,
            events.drop_first()[i],
        ) by {
            assert(events.drop_first()[i] == events[i + 1]);
        }
        lemma_only_the_password_authenticates(next, secret, events.drop_first());
    }
}

/// A status in the slot that an open session has not seen is forwarded to
/// its client as it is, authenticated or not, and is not forwarded a second
/// time.
pub proof fn lemma_news_is_forwarded_once(
    state: SessionState,
    secret: Seq<char>,
    seen: nat,
    slot: BroadcastView,
    status: ServerStatusView,
)
    requires
        state != SessionState::Closed,
        slot.current == Some(status),
        seen < slot.version,
    ensures
        forwarded(state, secret, seen, slot) == (
            state,
            slot.version,
            reply_with(NewspeakView::ServerStatus(status)),
        ),
        forwarded(state, secret, slot.version, slot) == (state, slot.version, no_reaction()),
{
}

/// Every registration is matched by one unregistration: releasing a session
/// that was opened on a registry brings the count back to what it was, and
/// releasing it again changes nothing.
pub proof fn lemma_release_unregisters_once(session: SessionView, count: nat)
    requires
        session.registered,
    ensures
        released(session, count_after_register(count)).1 == count,
        released(released(session, count).0, released(session, count).1) == released(
            session,
            count,
        ),
{
}

/// A closed session stays closed and asks for nothing but its end, and an
/// authenticated session stays authenticated until it is closed.
pub proof fn lemma_states_only_advance(
    state: SessionState,
    secret: Seq<char>,
    event: SessionEventView,
)
    ensures
        state == SessionState::Closed ==> react(state, secret, event) == (
            SessionState::Closed,
            final_reaction(),
        ),
        state == SessionState::Authenticated ==> react(state, secret, event).0
            != SessionState::Unauthenticated,
        react(state, secret, event).1.finished <==> react(state, secret, event).0
            == SessionState::Closed,
{
}

} // verus!
