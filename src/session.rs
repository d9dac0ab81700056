use vstd::prelude::*;
use crate::settings::{BrokerSettings, endpoint_text};

verus! {

/// Where the broker session stands.
#[derive(Debug, Clone, Copy, PartialEq, Eq, Structural)]
pub enum SessionState {
    Disconnected,
    Connecting,
    OpeningChannel,
    SettingPrefetch,
    DeclaringQueue,
    StartingConsumer,
    Consuming,
    WaitingToReconnect,
}

/// What the driver of the session does next.
pub enum SessionAction {
    Connect { uri: String },
    OpenChannel,
    SetPrefetch { count: u16 },
    DeclareQueue { name: String, durable: bool },
    Consume { queue: String, tag: String },
    /// Take the next delivery and hand it to a task of its own.
    Receive,
    Sleep { ms: u64 },
}

/// The pause before a full reconnect.
pub const RECONNECT_DELAY_MS: u64 = 5000;

/// The state after the last action succeeded (`ok`) or failed. Any failure
/// on the way up or while consuming ends the session and waits to reconnect.
pub open spec fn next_state(s: SessionState, ok: bool) -> SessionState {
    match s {
        SessionState::Disconnected | SessionState::WaitingToReconnect => SessionState::Connecting,
        _ => if !ok {
            SessionState::WaitingToReconnect
        } else {
            match s {
                SessionState::Connecting => SessionState::OpeningChannel,
                SessionState::OpeningChannel => SessionState::SettingPrefetch,
                SessionState::SettingPrefetch => SessionState::DeclaringQueue,
                SessionState::DeclaringQueue => SessionState::StartingConsumer,
                _ => SessionState::Consuming,
            }
        },
    }
}

/// The prefetch window: the number of parallel tasks, as far as the
/// protocol's 16-bit field can carry it.
pub open spec fn prefetch_for(max_parallel_tasks: usize) -> u16 {
    if max_parallel_tasks <= u16::MAX {
        max_parallel_tasks as u16
    } else {
        u16::MAX
    }
}

/// The action that entering state `s` issues.
pub open spec fn action_for(s: SessionState, uri: Seq<char>, prefetch: u16, r: SessionAction) -> bool {
    match s {
        SessionState::Connecting => r matches SessionAction::Connect { uri: u } && u@ == uri,
        SessionState::OpeningChannel => r is OpenChannel,
        SessionState::SettingPrefetch => r == (SessionAction::SetPrefetch { count: prefetch }),
        SessionState::DeclaringQueue => r matches SessionAction::DeclareQueue { name, durable }
            && name@ == "data_generation_tasks"@ && durable,
        SessionState::StartingConsumer => r matches SessionAction::Consume { queue, tag } && queue@
            == "data_generation_tasks"@ && tag@ == "consumer"@,
        SessionState::Consuming => r is Receive,
        SessionState::WaitingToReconnect => r == (SessionAction::Sleep { ms: RECONNECT_DELAY_MS }),
        SessionState::Disconnected => false,
    }
}

/// One logical consumer session on the broker, reconnecting after failures.
pub struct Session {
    state: SessionState,
    uri: String,
    prefetch: u16,
}

impl Session {
    pub closed spec fn state_of(self) -> SessionState {
        self.state
    }

    pub closed spec fn uri_view(self) -> Seq<char> {
        self.uri@
    }

    pub closed spec fn prefetch_of(self) -> u16 {
        self.prefetch
    }

    pub fn new(broker: &BrokerSettings, max_parallel_tasks: usize) -> (r: Session)
        ensures
            r.state_of() == SessionState::Disconnected,
            r.uri_view() == endpoint_text(
                "amqp"@,
                broker.user@,
                broker.password@,
                broker.host@,
                broker.port,
            ),
            r.prefetch_of() == prefetch_for(max_parallel_tasks),
    {
        let prefetch = if max_parallel_tasks <= u16::MAX as usize {
            max_parallel_tasks as u16
        } else {
            u16::MAX
        };
        Session { state: SessionState::Disconnected, uri: broker.uri(), prefetch }
    }

    pub fn state(&self) -> (r: SessionState)
        ensures
            r == self.state_of(),
    {
        self.state
    }

    /// Advances the session by whether its last action succeeded.
    pub fn next(&mut self, ok: bool) -> (r: SessionAction)
        ensures
            final(self).state_of() == next_state(old(self).state_of(), ok),
            final(self).uri_view() == old(self).uri_view(),
            final(self).prefetch_of() == old(self).prefetch_of(),
            action_for(final(self).state_of(), old(self).uri_view(), old(self).prefetch_of(), r),
    {
        let next = match self.state {
            SessionState::Disconnected | SessionState::WaitingToReconnect => SessionState::Connecting,
            SessionState::Connecting => if ok {
                SessionState::OpeningChannel
            } else {
                SessionState::WaitingToReconnect
            },
            SessionState::OpeningChannel => if ok {
                SessionState::SettingPrefetch
            } else {
                SessionState::WaitingToReconnect
            },
            SessionState::SettingPrefetch => if ok {
                SessionState::DeclaringQueue
            } else {
                SessionState::WaitingToReconnect
            },
            SessionState::DeclaringQueue => if ok {
                SessionState::StartingConsumer
            } else {
                SessionState::WaitingToReconnect
            },
            SessionState::StartingConsumer | SessionState::Consuming => if ok {
                SessionState::Consuming
            } else {
                SessionState::WaitingToReconnect
            },
        };
        self.state = next;
        proof {
            reveal_strlit("data_generation_tasks");
            reveal_strlit("consumer");
        }
        match next {
            SessionState::Connecting => SessionAction::Connect { uri: self.uri.clone() },
            SessionState::OpeningChannel => SessionAction::OpenChannel,
            SessionState::SettingPrefetch => SessionAction::SetPrefetch { count: self.prefetch },
            SessionState::DeclaringQueue => SessionAction::DeclareQueue {
                name: String::from_str("data_generation_tasks"),
                durable: true,
            },
            SessionState::StartingConsumer => SessionAction::Consume {
                queue: String::from_str("data_generation_tasks"),
                tag: String::from_str("consumer"),
            },
            SessionState::Consuming => SessionAction::Receive,
            _ => SessionAction::Sleep { ms: RECONNECT_DELAY_MS },
        }
    }
}

} // verus!
