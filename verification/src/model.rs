//! The status value types exchanged between the poller, the broadcast slot and
//! the sessions, with their mathematical views.
//!
//! Every type that owns text has a view in which the text is a `Seq<char>`;
//! contracts elsewhere in the crate are stated over these views.

use vstd::prelude::*;

verus! {

/// Whether the game container is running on the host.
#[derive(PartialEq, Debug)]
pub enum ContainerStatus {
    /// The container was not checked.
    Unknown,
    /// The container was checked and is not running, or its listing could not be parsed.
    NotUp,
    /// The container is running; the text is the status cell taken from the listing.
    Up(String),
}

/// View of a [`ContainerStatus`].
pub ghost enum ContainerStatusView {
    Unknown,
    NotUp,
    Up(Seq<char>),
}

impl View for ContainerStatus {
    type V = ContainerStatusView;

    open spec fn view(&self) -> ContainerStatusView {
        match self {
            ContainerStatus::Unknown => ContainerStatusView::Unknown,
            ContainerStatus::NotUp => ContainerStatusView::NotUp,
            ContainerStatus::Up(text) => ContainerStatusView::Up(text@),
        }
    }
}

impl Clone for ContainerStatus {
    fn clone(&self) -> (res: Self)
        ensures
            res == *self,
    {
        match self {
            ContainerStatus::Unknown => ContainerStatus::Unknown,
            ContainerStatus::NotUp => ContainerStatus::NotUp,
            ContainerStatus::Up(text) => ContainerStatus::Up(text.clone()),
        }
    }
}

/// The player roster of the game server.
#[derive(PartialEq, Debug)]
pub enum OnlinePeople {
    /// The roster was not checked.
    Unknown,
    /// The roster was checked; the text is what the server answered.
    Known(String),
}

/// View of an [`OnlinePeople`].
pub ghost enum OnlinePeopleView {
    Unknown,
    Known(Seq<char>),
}

impl View for OnlinePeople {
    type V = OnlinePeopleView;

    open spec fn view(&self) -> OnlinePeopleView {
        match self {
            OnlinePeople::Unknown => OnlinePeopleView::Unknown,
            OnlinePeople::Known(text) => OnlinePeopleView::Known(text@),
        }
    }
}

impl Clone for OnlinePeople {
    fn clone(&self) -> (res: Self)
        ensures
            res == *self,
    {
        match self {
            OnlinePeople::Unknown => OnlinePeople::Unknown,
            OnlinePeople::Known(text) => OnlinePeople::Known(text.clone()),
        }
    }
}

/// A snapshot of the monitored system. A snapshot is built whole and never
/// changed afterwards.
#[derive(PartialEq, Debug)]
pub struct ServerStatus {
    /// The state name of the cloud instance, such as "running" or "stopped".
    pub host: String,
    pub container: ContainerStatus,
    pub online: OnlinePeople,
}

/// View of a [`ServerStatus`].
pub ghost struct ServerStatusView {
    pub host: Seq<char>,
    pub container: ContainerStatusView,
    pub online: OnlinePeopleView,
}

impl View for ServerStatus {
    type V = ServerStatusView;

    open spec fn view(&self) -> ServerStatusView {
        ServerStatusView {
            host: self.host@,
            container: self.container@,
            online: self.online@,
        }
    }
}

impl Clone for ServerStatus {
    fn clone(&self) -> (res: Self)
        ensures
            res == *self,
    {
        ServerStatus {
            host: self.host.clone(),
            container: self.container.clone(),
            online: self.online.clone(),
        }
    }
}

/// The verdict on a password attempt.
#[derive(Clone, Copy, PartialEq, Eq, Debug, Structural)]
pub enum AuthResult {
    /// The password was accepted.
    Goob,
    /// The password was rejected.
    Sus,
}

/// A command that an authenticated client may send.
#[derive(Clone, Copy, PartialEq, Eq, Debug, Structural)]
pub enum ClientOpt {
    /// Power on the server.
    On,
    /// Power off the server.
    Off,
    /// Reboot the server.
    Reboot,
}

/// The envelope of every message that the server sends to a client.
#[derive(PartialEq, Debug)]
pub enum Newspeak {
    AuthResult(AuthResult),
    ServerStatus(ServerStatus),
    Feedback(String),
}

/// View of a [`Newspeak`].
pub ghost enum NewspeakView {
    AuthResult(AuthResult),
    ServerStatus(ServerStatusView),
    Feedback(Seq<char>),
}

impl View for Newspeak {
    type V = NewspeakView;

    open spec fn view(&self) -> NewspeakView {
        match self {
            Newspeak::AuthResult(verdict) => NewspeakView::AuthResult(*verdict),
            Newspeak::ServerStatus(status) => NewspeakView::ServerStatus(status@),
            Newspeak::Feedback(text) => NewspeakView::Feedback(text@),
        }
    }
}

impl Clone for Newspeak {
    fn clone(&self) -> (res: Self)
        ensures
            res == *self,
    {
        match self {
            Newspeak::AuthResult(verdict) => Newspeak::AuthResult(*verdict),
            Newspeak::ServerStatus(status) => Newspeak::ServerStatus(status.clone()),
            Newspeak::Feedback(text) => Newspeak::Feedback(text.clone()),
        }
    }
}

} // verus!
