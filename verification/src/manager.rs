//! The session manager: a concurrent registry holding at most one live
//! quiz session per key, and the routing of inbound events to sessions.

use vstd::prelude::*;
use crate::dictionary::{NLevel, Pos};
use crate::ids::{parse_session_id, session_key_of};
use crate::lexicon::{Dictionary, entry_matches};
use crate::pos_filter::{PosFilter, filter_of, pos_filters_to_pos};
use crate::question::ModeChoice;

verus! {

/// An inbound interaction event, as the platform layer hands it over:
/// the opaque component identifier and the user who selected.
#[derive(Debug)]
pub struct InteractionEvent {
    pub custom_id: String,
    pub user_id: u64,
    pub user_name: String,
}

/// A control message for a session task.
#[derive(Debug)]
pub enum GameMessage {
    /// A component interaction event.
    Interaction(InteractionEvent),
    /// Indicates the session should close.
    Close,
}

#[verifier::external_type_specification]
#[verifier::external_body]
#[verifier::reject_recursive_types(K)]
#[verifier::reject_recursive_types(V)]
#[verifier::reject_recursive_types(S)]
pub struct ExDashMap<K, V, S>(dashmap::DashMap<K, V, S>);

#[verifier::external_type_specification]
#[verifier::external_body]
#[verifier::reject_recursive_types(T)]
pub struct ExSender<T>(tokio::sync::mpsc::Sender<T>);

#[verifier::external_type_specification]
#[verifier::external_body]
#[verifier::reject_recursive_types(T)]
pub struct ExReceiver<T>(tokio::sync::mpsc::Receiver<T>);

/// The set of keys a registry map holds a session channel under.
pub uninterp spec fn registry_keys(
    m: dashmap::DashMap<
        u64,
        tokio::sync::mpsc::Sender<GameMessage>,
        std::collections::hash_map::RandomState,
    >,
) -> Set<u64>;

/// Relies on tokio's `mpsc::channel`: a fresh bounded channel pair
/// whose receiver yields what the sender accepts.
#[verifier::external_body]
pub fn game_channel() -> (tokio::sync::mpsc::Sender<GameMessage>, tokio::sync::mpsc::Receiver<
    GameMessage,
>) {
    tokio::sync::mpsc::channel(10)
}

/// The concurrent session table, mapping a session key to the sender of
/// that session's control channel.
pub struct SessionRegistry {
    pub map: dashmap::DashMap<
        u64,
        tokio::sync::mpsc::Sender<GameMessage>,
        std::collections::hash_map::RandomState,
    >,
}

impl SessionRegistry {
    /// The keys that currently hold a session.
    pub open spec fn keys(self) -> Set<u64> {
        registry_keys(self.map)
    }

    /// Relies on dashmap's `DashMap::new`: an empty map.
    #[verifier::external_body]
    pub fn new() -> (r: SessionRegistry)
        ensures
            registry_keys(r.map) == Set::<u64>::empty(),
    {
        SessionRegistry { map: dashmap::DashMap::new() }
    }

    /// Relies on dashmap's `DashMap::entry`: one atomic check-and-set
    /// that stores `tx` under `key` only when the key is free, and says
    /// whether it did.
    #[verifier::external_body]
    pub fn insert_if_absent(&mut self, key: u64, tx: tokio::sync::mpsc::Sender<GameMessage>) -> (r:
        bool)
        ensures
            r == !registry_keys(old(self).map).contains(key),
            registry_keys(final(self).map) == registry_keys(old(self).map).insert(key),
    {
        match self.map.entry(key) {
            dashmap::Entry::Occupied(_) => false,
            dashmap::Entry::Vacant(e) => {
                e.insert(tx);
                true
            },
        }
    }

    /// Relies on dashmap's `DashMap::contains_key`.
    #[verifier::external_body]
    pub fn contains(&self, key: u64) -> (r: bool)
        ensures
            r == registry_keys(self.map).contains(key),
    {
        self.map.contains_key(&key)
    }

    /// Relies on dashmap's `DashMap::remove`.
    #[verifier::external_body]
    pub fn remove(&mut self, key: u64)
        ensures
            registry_keys(final(self).map) == registry_keys(old(self).map).remove(key),
    {
        self.map.remove(&key);
    }

    /// Relies on dashmap's `DashMap::get` — the sender stored under
    /// `key` — and tokio's `Sender::try_send`: a non-blocking delivery
    /// to that session's receiver that fails when the channel is full
    /// or closed. True only when the key holds a session and its
    /// channel accepted the message.
    #[verifier::external_body]
    pub fn try_send_to(&self, key: u64, msg: GameMessage) -> (r: bool)
        ensures
            r ==> registry_keys(self.map).contains(key),
    {
        match self.map.get(&key) {
            Some(tx) => tx.try_send(msg).is_ok(),
            None => false,
        }
    }
}

/// One session per key, over the registry model. While `k` is
/// registered the key set contains it, so `start_game` refuses a second
/// session (its result is an error exactly when the set contains the
/// key); deregistering removes it, so a later start succeeds; and when
/// the key was free, a register-then-deregister pair restores the set.
pub proof fn lemma_one_session_per_key(keys: Set<u64>, k: u64)
    ensures
        keys.insert(k).contains(k),
        !keys.remove(k).contains(k),
        !keys.contains(k) ==> keys.insert(k).remove(k) =~= keys,
{
}

/// Refusal of a second concurrent session under one key.
#[derive(Debug)]
pub struct SessionAlreadyCreated;

impl SessionAlreadyCreated {
    /// The user-facing description of this refusal.
    pub fn message(&self) -> (r: String)
        ensures
            r@ == "User has already created a session"@,
    {
        "User has already created a session".to_owned()
    }
}

/// What a freshly started session is given: its key, direction, tag
/// pool, the sampled entry indices, and the receiving end of its
/// control channel.
#[derive(Debug)]
pub struct SessionSetup {
    pub session_id: u64,
    pub mode: ModeChoice,
    pub pos: Vec<Pos>,
    pub pool: Vec<usize>,
    pub receiver: tokio::sync::mpsc::Receiver<GameMessage>,
}

/// The shared state handed to command handlers: the session manager.
pub struct Data {
    pub manager: Manager,
}

/// Manages all game sessions: the shared dictionary and the registry of
/// live sessions.
pub struct Manager {
    pub dictionary: Dictionary,
    pub sessions: SessionRegistry,
}

impl Manager {
    /// The keys that currently hold a session.
    pub open spec fn keys(self) -> Set<u64> {
        self.sessions.keys()
    }

    /// The shared dictionary.
    pub open spec fn dict(self) -> Dictionary {
        self.dictionary
    }

    /// A manager over `dictionary` with no session yet.
    pub fn new(dictionary: Dictionary) -> (r: Manager)
        ensures
            r.keys() == Set::<u64>::empty(),
            r.dict() == dictionary,
    {
        Manager { dictionary, sessions: SessionRegistry::new() }
    }

    /// A shared view of the dictionary, for the session loop.
    pub fn dictionary(&self) -> (r: &Dictionary)
        ensures
            *r == self.dict(),
    {
        &self.dictionary
    }

    /// Starts a new session under `session_id` with the selected
    /// direction, level pool, and tag categories: refused when the key
    /// already holds one, otherwise the key is registered atomically
    /// and the caller receives what the session task needs.
    pub fn start_game(
        &mut self,
        session_id: u64,
        mode: ModeChoice,
        levels: &Vec<NLevel>,
        filters: &Vec<PosFilter>,
    ) -> (r: Result<SessionSetup, SessionAlreadyCreated>)
        ensures
            final(self).dict() == old(self).dict(),
            r is Err <==> old(self).keys().contains(session_id),
            r is Err ==> final(self).keys() == old(self).keys(),
            r matches Ok(s) ==> final(self).keys() == old(self).keys().insert(session_id)
                && s.session_id == session_id
                && s.mode == mode
                && (forall|p: Pos| s.pos@.contains(p) <==> exists|i: int|
                    0 <= i < filters@.len() && filter_of(p) == #[trigger] filters@[i])
                && s.pool@.no_duplicates()
                && (forall|k: int| 0 <= k < s.pool@.len()
                    ==> #[trigger] s.pool@[k] < old(self).dict().entries@.len()
                        && entry_matches(old(self).dict().entries@[s.pool@[k] as int], levels@,
                            s.pos@))
                && (forall|j: usize| j < old(self).dict().entries@.len()
                    && entry_matches(#[trigger] old(self).dict().entries@[j as int], levels@,
                        s.pos@) ==> s.pool@.contains(j)),
    {
        let (tx, rx) = game_channel();
        if !self.sessions.insert_if_absent(session_id, tx) {
            proof {
                assert(old(self).keys().insert(session_id) =~= old(self).keys());
            }
            return Err(SessionAlreadyCreated);
        }
        let pos = pos_filters_to_pos(filters);
        let pool = self.dictionary.sample(levels, &pos);
        Ok(SessionSetup { session_id, mode, pos, pool, receiver: rx })
    }

    /// Sends a close signal to the session under `session_id`, if any,
    /// and says whether there was one. Advisory and non-blocking: the
    /// session observes it at its next poll.
    pub fn stop(&self, session_id: u64) -> (r: bool)
        ensures
            r == self.keys().contains(session_id),
    {
        if self.sessions.contains(session_id) {
            let _ = self.sessions.try_send_to(session_id, GameMessage::Close);
            true
        } else {
            false
        }
    }

    /// Routes an inbound event to the session whose key its identifier
    /// encodes, best-effort; an event with no matching session is
    /// dropped. True only when the identifier encodes a registered key
    /// and that session's channel accepted the event.
    pub fn send(&self, interaction: InteractionEvent) -> (r: bool)
        ensures
            session_key_of(interaction.custom_id@) is None ==> !r,
            forall|k: u64| session_key_of(interaction.custom_id@) == Some(k)
                ==> (r ==> self.keys().contains(k)),
    {
        let key = match parse_session_id(interaction.custom_id.as_str()) {
            Some(k) => k,
            None => {
                return false;
            },
        };
        self.sessions.try_send_to(key, GameMessage::Interaction(interaction))
    }

    /// Takes the session under `session_id` out of the registry; a
    /// session calls this once when its task ends.
    pub fn deregister(&mut self, session_id: u64)
        ensures
            final(self).dict() == old(self).dict(),
            final(self).keys() == old(self).keys().remove(session_id),
    {
        self.sessions.remove(session_id);
    }
}

} // verus!
