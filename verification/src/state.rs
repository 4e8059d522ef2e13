//! The session state machine.
//!
//! One [`State`] value exists per plugin session. It tracks the
//! authentication state, the optional observer (inspector) endpoint, the
//! registry of live display subscribers, and the cached viewer count.
//! Methods either transition the state, returning the observer
//! notification the transition owes, or plan the platform call an
//! operation requires. All network transport happens outside the crate:
//! the host code performs each planned call and feeds the outcome back
//! in as plain values.

use vstd::prelude::*;

use crate::action::{Action, CommercialLength};
use crate::chunk::{chunk_message, spec_chunk, spec_chunk_count};
use crate::messages::InspectorMessageOut;
use crate::platform::{ChatSettings, ChatSettingsPatch, PlatformCall};

verus! {

/// A validated credential: the bearer token together with the account
/// identifier derived from it during validation.
#[derive(Debug)]
pub struct UserToken {
    /// The opaque bearer token.
    pub access_token: String,
    /// The broadcaster/account identifier the token was validated for.
    pub user_id: String,
}

impl Clone for UserToken {
    fn clone(&self) -> (r: Self)
        ensures
            r == *self,
    {
        UserToken { access_token: self.access_token.clone(), user_id: self.user_id.clone() }
    }
}

/// The authentication state of the session. Only the `Authenticated`
/// variant yields a usable credential.
#[derive(Debug)]
pub enum AccessState {
    /// No credential is held.
    NotAuthenticate,
    /// A credential validation is in flight; the startup state.
    Loading,
    /// A credential has been validated and may authorize platform
    /// operations.
    Authenticated { user_token: UserToken },
}

/// The projection of an [`AccessState`] that the UI surfaces see: which
/// variant is active, without the credential.
#[derive(Clone, Copy, PartialEq, Eq, Structural, Debug)]
pub enum AuthStateTag {
    NotAuthenticated,
    Loading,
    Authenticated,
}

impl AccessState {
    /// The UI projection of this state.
    pub open spec fn spec_tag(&self) -> AuthStateTag {
        match self {
            AccessState::NotAuthenticate => AuthStateTag::NotAuthenticated,
            AccessState::Loading => AuthStateTag::Loading,
            AccessState::Authenticated { .. } => AuthStateTag::Authenticated,
        }
    }

    /// The UI projection of this state.
    pub fn tag(&self) -> (t: AuthStateTag)
        ensures
            t == self.spec_tag(),
    {
        match self {
            AccessState::NotAuthenticate => AuthStateTag::NotAuthenticated,
            AccessState::Loading => AuthStateTag::Loading,
            AccessState::Authenticated { .. } => AuthStateTag::Authenticated,
        }
    }
}

impl AuthStateTag {
    /// The observer wire tag of this projection: one of the three fixed
    /// tag strings.
    pub open spec fn spec_to_message(self) -> Seq<char> {
        match self {
            AuthStateTag::NotAuthenticated => "NOT_AUTHENTICATED"@,
            AuthStateTag::Loading => "LOADING"@,
            AuthStateTag::Authenticated => "AUTHENTICATED"@,
        }
    }

    /// Serializes this projection to its observer wire tag.
    pub fn to_message(self) -> (s: String)
        ensures
            s@ == self.spec_to_message(),
    {
        match self {
            AuthStateTag::NotAuthenticated => "NOT_AUTHENTICATED".to_owned(),
            AuthStateTag::Loading => "LOADING".to_owned(),
            AuthStateTag::Authenticated => "AUTHENTICATED".to_owned(),
        }
    }

    /// The projection denoted by an observer wire tag, if any.
    pub open spec fn spec_parse(s: Seq<char>) -> Option<AuthStateTag> {
        if s == "NOT_AUTHENTICATED"@ {
            Some(AuthStateTag::NotAuthenticated)
        } else if s == "LOADING"@ {
            Some(AuthStateTag::Loading)
        } else if s == "AUTHENTICATED"@ {
            Some(AuthStateTag::Authenticated)
        } else {
            None
        }
    }

    /// Reads an observer wire tag back into the projection it denotes;
    /// anything outside the three fixed tags is rejected.
    pub fn parse(s: &str) -> (r: Option<AuthStateTag>)
        ensures
            r == Self::spec_parse(s@),
    {
        if crate::text::str_eq(s, "NOT_AUTHENTICATED") {
            Some(AuthStateTag::NotAuthenticated)
        } else if crate::text::str_eq(s, "LOADING") {
            Some(AuthStateTag::Loading)
        } else if crate::text::str_eq(s, "AUTHENTICATED") {
            Some(AuthStateTag::Authenticated)
        } else {
            None
        }
    }
}

/// Serializing an authentication state to its observer tag and reading
/// the tag back loses nothing that the UI displays: the round trip
/// restores the projection exactly.
pub proof fn lemma_tag_round_trip(a: AccessState)
    ensures
        AuthStateTag::spec_parse(a.spec_tag().spec_to_message()) == Some(a.spec_tag()),
{
    reveal_strlit("NOT_AUTHENTICATED");
    reveal_strlit("LOADING");
    reveal_strlit("AUTHENTICATED");
    assert("NOT_AUTHENTICATED"@.len() == 17);
    assert("LOADING"@.len() == 7);
    assert("AUTHENTICATED"@.len() == 13);
}

/// The tag set is closed and exhaustive: a string parses as an observer
/// tag exactly when it is one of the three fixed tags, and each of the
/// three projections serializes to one of them.
pub proof fn lemma_tag_set_closed(s: Seq<char>, t: AuthStateTag)
    ensures
        AuthStateTag::spec_parse(s) is Some <==> (s == "NOT_AUTHENTICATED"@ || s == "LOADING"@ || s
            == "AUTHENTICATED"@),
        t.spec_to_message() == "NOT_AUTHENTICATED"@ || t.spec_to_message() == "LOADING"@
            || t.spec_to_message() == "AUTHENTICATED"@,
{
}

/// One registered display subscriber: the display's identity key and
/// the time it last asked for the viewer count.
#[derive(Debug)]
pub struct ViewCountDisplay {
    /// The display's identity, compared by value.
    pub key: String,
    /// When this display last asked for the viewer count, in
    /// milliseconds of session time.
    pub last_alive: u64,
}

/// How long a display subscription stays live after its last request,
/// in milliseconds.
pub const DISPLAY_KEEPALIVE_MS: u64 = 5000;

/// Whether a subscription entry is still live at time `now`.
pub open spec fn display_live(entry: ViewCountDisplay, now: u64) -> bool {
    now < entry.last_alive + DISPLAY_KEEPALIVE_MS
}

/// The session state: authentication, observer endpoint, display
/// subscriptions and the cached viewer count. `I` is the observer
/// endpoint handle owned by the host runtime; the core only stores it
/// and decides when it must be notified.
pub struct State<I> {
    /// The authentication state.
    pub access_state: AccessState,
    /// The registered observer endpoint, if any.
    pub inspector: Option<I>,
    /// The registry of display subscribers, at most one entry per
    /// distinct display identity.
    pub view_displays: Vec<ViewCountDisplay>,
    /// The last viewer count the scheduler obtained; 0 until first
    /// populated.
    pub viewers: usize,
}

impl<I> State<I> {
    /// The registry holds at most one entry per display identity.
    pub open spec fn wf(&self) -> bool {
        forall|i: int, j: int|
            0 <= i < j < self.view_displays@.len() ==> self.view_displays@[i].key@
                != self.view_displays@[j].key@
    }

    /// This state with another authentication state and everything else
    /// unchanged.
    pub open spec fn with_access(self, access: AccessState) -> State<I> {
        State { access_state: access, ..self }
    }

    /// The notification owed to the observer for the current state: the
    /// wire tag of the authentication state if an observer is
    /// registered, nothing otherwise.
    pub open spec fn spec_note(&self) -> Option<Seq<char>> {
        if self.inspector is Some {
            Some(self.access_state.spec_tag().spec_to_message())
        } else {
            None
        }
    }

    /// The credential of the current state: present exactly when the
    /// state is `Authenticated`.
    pub open spec fn spec_user_token(&self) -> Option<UserToken> {
        match self.access_state {
            AccessState::Authenticated { user_token } => Some(user_token),
            _ => None,
        }
    }

    /// The account identifier of the current credential.
    pub open spec fn spec_user_id(&self) -> Seq<char> {
        self.access_state->Authenticated_user_token.user_id@
    }

    /// A fresh session state: validation pending, no observer, no
    /// display subscribers, no cached viewer count.
    pub fn new() -> (r: State<I>)
        ensures
            r.access_state is Loading,
            r.inspector is None,
            r.view_displays@.len() == 0,
            r.viewers == 0,
            r.wf(),
    {
        State {
            access_state: AccessState::Loading,
            inspector: None,
            view_displays: Vec::new(),
            viewers: 0,
        }
    }

    /// Replaces the registered observer endpoint wholesale.
    pub fn set_inspector(&mut self, inspector: Option<I>)
        ensures
            *final(self) == (State { inspector, ..*old(self) }),
    {
        self.inspector = inspector;
    }

    /// The registered observer endpoint, for the host code that
    /// performs the actual send.
    pub fn inspector(&self) -> (r: &Option<I>)
        ensures
            r == &self.inspector,
    {
        &self.inspector
    }

    /// The notification the observer is owed for the current state, or
    /// nothing if no observer is registered.
    pub fn update_inspector(&self) -> (note: Option<InspectorMessageOut>)
        ensures
            note_view(note) == self.spec_note(),
    {
        match &self.inspector {
            Some(_) => Some(
                InspectorMessageOut::State { state: self.access_state.tag().to_message() },
            ),
            None => None,
        }
    }

    /// Logs the session out: from any state, the authentication state
    /// becomes `NotAuthenticate`, nothing else changes, and the observer
    /// is owed exactly one notification carrying the logged-out tag.
    pub fn set_logged_out(&mut self) -> (note: Option<InspectorMessageOut>)
        ensures
            *final(self) == old(self).with_access(AccessState::NotAuthenticate),
            note_view(note) == final(self).spec_note(),
    {
        self.access_state = AccessState::NotAuthenticate;
        self.update_inspector()
    }

    /// Starts an authentication attempt: the state becomes `Loading`
    /// while the token validation is in flight, and the observer is owed
    /// a notification carrying the loading tag. The caller then
    /// validates the token externally and reports the outcome through
    /// [`State::complete_auth`] on success or [`State::fail_auth`] on
    /// failure.
    pub fn begin_auth(&mut self) -> (note: Option<InspectorMessageOut>)
        ensures
            *final(self) == old(self).with_access(AccessState::Loading),
            note_view(note) == final(self).spec_note(),
    {
        self.access_state = AccessState::Loading;
        self.update_inspector()
    }

    /// Commits a successful validation: the state becomes
    /// `Authenticated` with the validated credential, and the observer
    /// is owed a notification carrying the authenticated tag. The last
    /// completed attempt wins.
    pub fn complete_auth(&mut self, user_token: UserToken) -> (note: Option<InspectorMessageOut>)
        ensures
            *final(self) == old(self).with_access(AccessState::Authenticated { user_token }),
            note_view(note) == final(self).spec_note(),
    {
        self.access_state = AccessState::Authenticated { user_token };
        self.update_inspector()
    }

    /// Abandons a failed authentication attempt: the validation did not
    /// confirm the credential, so the state reverts to
    /// `NotAuthenticate` rather than showing a loading indicator
    /// forever, and the observer is owed exactly one notification
    /// carrying the logged-out tag.
    pub fn fail_auth(&mut self) -> (note: Option<InspectorMessageOut>)
        ensures
            *final(self) == old(self).with_access(AccessState::NotAuthenticate),
            note_view(note) == final(self).spec_note(),
    {
        self.access_state = AccessState::NotAuthenticate;
        self.update_inspector()
    }

    /// The current credential, if and only if the session is
    /// authenticated. Every platform operation derives its credential
    /// from the current state at call time.
    pub fn get_user_token(&self) -> (r: Option<UserToken>)
        ensures
            r == self.spec_user_token(),
    {
        match &self.access_state {
            AccessState::Authenticated { user_token } => Some(user_token.clone()),
            _ => None,
        }
    }
}

impl Clone for ViewCountDisplay {
    fn clone(&self) -> (r: Self)
        ensures
            r == *self,
    {
        ViewCountDisplay { key: self.key.clone(), last_alive: self.last_alive }
    }
}

/// A platform operation was requested while the session holds no
/// credential; the operation is abandoned.
#[derive(Clone, Copy, PartialEq, Eq, Structural, Debug)]
pub struct NotAuthenticatedError;

/// The registry after one purge: exactly the entries still live at
/// `now`, in their original order.
pub open spec fn spec_purge(s: Seq<ViewCountDisplay>, now: u64) -> Seq<ViewCountDisplay> {
    s.filter(|e: ViewCountDisplay| display_live(e, now))
}

/// Purging keeps every entry an entry of the original registry, and so
/// keeps display identities pairwise distinct.
proof fn lemma_purge_distinct_keys(s: Seq<ViewCountDisplay>, now: u64)
    requires
        forall|i: int, j: int| 0 <= i < j < s.len() ==> s[i].key@ != s[j].key@,
    ensures
        forall|a: int|
            0 <= a < spec_purge(s, now).len() ==> exists|j: int|
                0 <= j < s.len() && #[trigger] spec_purge(s, now)[a] == s[j],
        forall|a: int, b: int|
            0 <= a < b < spec_purge(s, now).len() ==> spec_purge(s, now)[a].key@ != spec_purge(
                s,
                now,
            )[b].key@,
    decreases s.len(),
{
    reveal(Seq::filter);
    let f = spec_purge(s, now);
    if s.len() > 0 {
        let d = s.drop_last();
        let fd = spec_purge(d, now);
        lemma_purge_distinct_keys(d, now);
        assert forall|a: int| 0 <= a < f.len() implies exists|j: int|
            0 <= j < s.len() && #[trigger] f[a] == s[j] by {
            if a < fd.len() {
                let j = choose|j: int| 0 <= j < d.len() && #[trigger] fd[a] == d[j];
                assert(f[a] == s[j]);
            } else {
                assert(f[a] == s[s.len() - 1]);
            }
        }
        assert forall|a: int, b: int| 0 <= a < b < f.len() implies f[a].key@ != f[b].key@ by {
            if b < fd.len() {
                assert(fd[a].key@ != fd[b].key@);
            } else {
                let j = choose|j: int| 0 <= j < d.len() && #[trigger] fd[a] == d[j];
                assert(f[b] == s[s.len() - 1]);
                assert(f[a].key@ == s[j].key@);
            }
        }
    }
}

/// Whether a scheduler tick at time `now` issues a platform call: only
/// when at least one display subscription survives the purge and the
/// session is authenticated.
pub open spec fn spec_tick_polls<I>(s: State<I>, now: u64) -> bool {
    spec_purge(s.view_displays@, now).len() > 0 && s.access_state is Authenticated
}

impl<I> State<I> {
    /// Registers a display subscriber, or refreshes it if the same
    /// display identity is already registered: its last-seen time
    /// becomes `now`, every other entry is untouched, and no identity
    /// is ever registered twice.
    pub fn push_active_display(&mut self, key: &str, now: u64)
        requires
            old(self).wf(),
        ensures
            final(self).wf(),
            final(self).access_state == old(self).access_state,
            final(self).inspector == old(self).inspector,
            final(self).viewers == old(self).viewers,
            ({
                let before = old(self).view_displays@;
                let after = final(self).view_displays@;
                if exists|j: int| 0 <= j < before.len() && before[j].key@ == key@ {
                    &&& after.len() == before.len()
                    &&& forall|j: int| 0 <= j < after.len() ==> #[trigger] after[j].key@ == before[j].key@
                    &&& forall|j: int|
                        0 <= j < after.len() ==> #[trigger] after[j].last_alive == (
                        if before[j].key@ == key@ {
                            now
                        } else {
                            before[j].last_alive
                        })
                } else {
                    &&& after.len() == before.len() + 1
                    &&& forall|j: int| 0 <= j < before.len() ==> #[trigger] after[j] == before[j]
                    &&& after[before.len() as int].key@ == key@
                    &&& after[before.len() as int].last_alive == now
                }
            }),
    {
        let ghost before = self.view_displays@;
        let n = self.view_displays.len();
        let mut i: usize = 0;
        while i < n
            invariant
                n == self.view_displays.len(),
                *self == (State { view_displays: self.view_displays, ..*old(self) }),
                self.view_displays@ == before,
                old(self).wf(),
                old(self).view_displays@ == before,
                i <= n,
                forall|j: int| 0 <= j < i ==> #[trigger] before[j].key@ != key@,
            decreases n - i,
        {
            if crate::text::str_eq(self.view_displays[i].key.as_str(), key) {
                let refreshed = ViewCountDisplay { key: self.view_displays[i].key.clone(), last_alive: now };
                self.view_displays[i] = refreshed;
                proof {
                    let vi = i as int;
                    assert(before[vi].key@ == key@);
                    assert forall|j: int|
                        0 <= j < before.len() && j != vi implies #[trigger] before[j].key@
                        != key@ by {
                        if j > vi {
                            assert(before[vi].key@ != before[j].key@);
                        }
                    }
                }
                return ;
            }
            i = i + 1;
        }
        self.view_displays.push(ViewCountDisplay { key: key.to_owned(), last_alive: now });
    }

    /// Purges every display subscription whose last request is
    /// [`DISPLAY_KEEPALIVE_MS`] or older and returns how many live
    /// subscribers remain.
    pub fn get_active_displays(&mut self, now: u64) -> (count: usize)
        requires
            old(self).wf(),
        ensures
            final(self).wf(),
            final(self).access_state == old(self).access_state,
            final(self).inspector == old(self).inspector,
            final(self).viewers == old(self).viewers,
            final(self).view_displays@ == spec_purge(old(self).view_displays@, now),
            count == final(self).view_displays@.len(),
    {
        let ghost before = self.view_displays@;
        let n = self.view_displays.len();
        let mut kept: Vec<ViewCountDisplay> = Vec::new();
        let mut i: usize = 0;
        while i < n
            invariant
                n == self.view_displays.len(),
                *self == *old(self),
                self.view_displays@ == before,
                old(self).wf(),
                i <= n,
                kept@ == spec_purge(before.subrange(0, i as int), now),
            decreases n - i,
        {
            let entry = &self.view_displays[i];
            let live = if now >= entry.last_alive {
                now - entry.last_alive < DISPLAY_KEEPALIVE_MS
            } else {
                true
            };
            proof {
                reveal(Seq::filter);
                assert(before.subrange(0, i + 1).drop_last() =~= before.subrange(0, i as int));
                assert(before.subrange(0, i + 1).last() == before[i as int]);
            }
            if live {
                kept.push(self.view_displays[i].clone());
            }
            i = i + 1;
        }
        proof {
            assert(before.subrange(0, n as int) =~= before);
            lemma_purge_distinct_keys(before, now);
        }
        let count = kept.len();
        self.view_displays = kept;
        count
    }

    /// The last viewer count the scheduler cached; never blocks.
    pub fn current_view_count(&self) -> (r: usize)
        ensures
            r == self.viewers,
    {
        self.viewers
    }

    /// Records the outcome of one viewer-count poll: a successful count
    /// overwrites the cache, anything else leaves the previous value in
    /// place.
    pub fn record_view_count(&mut self, view_count: Option<usize>)
        ensures
            *final(self) == (State {
                viewers: (match view_count {
                    Some(c) => c,
                    None => old(self).viewers,
                }),
                ..*old(self)
            }),
    {
        match view_count {
            Some(c) => {
                self.viewers = c;
            },
            None => {},
        }
    }

    /// Plans the viewer-count query, if and only if the session is
    /// authenticated; otherwise no platform call is made.
    pub fn get_view_count(&self) -> (r: Option<PlatformCall>)
        ensures
            r is Some <==> self.access_state is Authenticated,
            r matches Some(c) ==> c matches PlatformCall::GetStreams { user_id } && user_id@
                == self.spec_user_id(),
    {
        match self.get_user_token() {
            Some(token) => Some(PlatformCall::GetStreams { user_id: token.user_id }),
            None => None,
        }
    }

    /// One tick of the viewer-count scheduler: purges stale display
    /// subscriptions, and plans a viewer-count query exactly when at
    /// least one subscriber survived and the session is authenticated.
    pub fn view_count_tick(&mut self, now: u64) -> (poll: Option<PlatformCall>)
        requires
            old(self).wf(),
        ensures
            final(self).wf(),
            final(self).access_state == old(self).access_state,
            final(self).inspector == old(self).inspector,
            final(self).viewers == old(self).viewers,
            final(self).view_displays@ == spec_purge(old(self).view_displays@, now),
            poll is Some <==> spec_tick_polls(*old(self), now),
            poll matches Some(c) ==> c matches PlatformCall::GetStreams { user_id } && user_id@
                == old(self).spec_user_id(),
    {
        let active = self.get_active_displays(now);
        if active > 0 {
            self.get_view_count()
        } else {
            None
        }
    }
}

impl<I> State<I> {
    /// Plans sending one chat message on the broadcaster's own behalf,
    /// if and only if the session is authenticated.
    pub fn send_chat_message(&self, message: &str) -> (r: Result<
        PlatformCall,
        NotAuthenticatedError,
    >)
        ensures
            r is Ok <==> self.access_state is Authenticated,
            r matches Ok(c) ==> c matches PlatformCall::SendChatMessage {
                broadcaster_id,
                sender_id,
                message: m,
            } && broadcaster_id@ == self.spec_user_id() && sender_id@ == self.spec_user_id() && m@
                == message@,
    {
        match self.get_user_token() {
            Some(token) => Ok(
                PlatformCall::SendChatMessage {
                    broadcaster_id: token.user_id.clone(),
                    sender_id: token.user_id,
                    message: message.to_owned(),
                },
            ),
            None => Err(NotAuthenticatedError),
        }
    }

    /// Plans sending a chat message of any length, if and only if the
    /// session is authenticated: the message is split into maximal
    /// chunks of [`crate::chunk::CHAT_MESSAGE_MAX_LEN`] characters, one
    /// send per chunk, to be performed strictly in order; an empty
    /// message plans no send at all.
    pub fn send_chat_message_chunked(&self, message: &str) -> (r: Result<
        Vec<PlatformCall>,
        NotAuthenticatedError,
    >)
        ensures
            r is Ok <==> self.access_state is Authenticated,
            r matches Ok(calls) ==> ({
                &&& calls@.len() == spec_chunk_count(message@.len())
                &&& forall|i: int|
                    0 <= i < calls@.len() ==> ((#[trigger] calls@[i]) matches
                        PlatformCall::SendChatMessage {
                        broadcaster_id,
                        sender_id,
                        message: m,
                    } && broadcaster_id@ == self.spec_user_id() && sender_id@
                        == self.spec_user_id() && m@ == spec_chunk(message@, i))
            }),
    {
        let token = match self.get_user_token() {
            Some(token) => token,
            None => {
                return Err(NotAuthenticatedError);
            },
        };
        let chunks = chunk_message(message);
        let mut calls: Vec<PlatformCall> = Vec::new();
        let mut i: usize = 0;
        let n = chunks.len();
        while i < n
            invariant
                n == chunks@.len(),
                n == spec_chunk_count(message@.len()),
                forall|k: int| 0 <= k < n ==> chunks@[k]@ == spec_chunk(message@, k),
                token.user_id@ == self.spec_user_id(),
                i <= n,
                calls@.len() == i,
                forall|k: int|
                    0 <= k < i ==> ((#[trigger] calls@[k]) matches PlatformCall::SendChatMessage {
                        broadcaster_id,
                        sender_id,
                        message: m,
                    } && broadcaster_id@ == self.spec_user_id() && sender_id@
                        == self.spec_user_id() && m@ == spec_chunk(message@, k)),
            decreases n - i,
        {
            calls.push(
                PlatformCall::SendChatMessage {
                    broadcaster_id: token.user_id.clone(),
                    sender_id: token.user_id.clone(),
                    message: chunks[i].clone(),
                },
            );
            i = i + 1;
        }
        Ok(calls)
    }

    /// Plans deleting all chat messages in the broadcaster's chat room,
    /// if and only if the session is authenticated.
    pub fn clear_chat(&self) -> (r: Result<PlatformCall, NotAuthenticatedError>)
        ensures
            r is Ok <==> self.access_state is Authenticated,
            r matches Ok(c) ==> c matches PlatformCall::DeleteChatMessages {
                broadcaster_id,
                moderator_id,
            } && broadcaster_id@ == self.spec_user_id() && moderator_id@ == self.spec_user_id(),
    {
        match self.get_user_token() {
            Some(token) => Ok(
                PlatformCall::DeleteChatMessages {
                    broadcaster_id: token.user_id.clone(),
                    moderator_id: token.user_id,
                },
            ),
            None => Err(NotAuthenticatedError),
        }
    }

    /// Plans creating a clip of the broadcaster's stream, if and only
    /// if the session is authenticated.
    pub fn create_clip(&self) -> (r: Result<PlatformCall, NotAuthenticatedError>)
        ensures
            r is Ok <==> self.access_state is Authenticated,
            r matches Ok(c) ==> c matches PlatformCall::CreateClip { broadcaster_id }
                && broadcaster_id@ == self.spec_user_id(),
    {
        match self.get_user_token() {
            Some(token) => Ok(PlatformCall::CreateClip { broadcaster_id: token.user_id }),
            None => Err(NotAuthenticatedError),
        }
    }

    /// Plans creating a stream marker with the given description, if
    /// and only if the session is authenticated.
    pub fn create_marker(&self, description: String) -> (r: Result<
        PlatformCall,
        NotAuthenticatedError,
    >)
        ensures
            r is Ok <==> self.access_state is Authenticated,
            r matches Ok(c) ==> c matches PlatformCall::CreateStreamMarker {
                user_id,
                description: d,
            } && user_id@ == self.spec_user_id() && d@ == description@,
    {
        match self.get_user_token() {
            Some(token) => Ok(
                PlatformCall::CreateStreamMarker { user_id: token.user_id, description },
            ),
            None => Err(NotAuthenticatedError),
        }
    }

    /// Plans reading the chat-mode toggles, if and only if the session
    /// is authenticated. A toggle first performs this read, then
    /// patches the one negated field.
    pub fn get_chat_settings(&self) -> (r: Result<PlatformCall, NotAuthenticatedError>)
        ensures
            r is Ok <==> self.access_state is Authenticated,
            r matches Ok(c) ==> c matches PlatformCall::GetChatSettings { broadcaster_id }
                && broadcaster_id@ == self.spec_user_id(),
    {
        match self.get_user_token() {
            Some(token) => Ok(PlatformCall::GetChatSettings { broadcaster_id: token.user_id }),
            None => Err(NotAuthenticatedError),
        }
    }

    /// Plans the patch that toggles slow mode, given the settings just
    /// read: only the slow-mode field is negated, every other setting
    /// is left unspecified. Fails if and only if the session is no
    /// longer authenticated.
    pub fn toggle_slow_mode(&self, settings: &ChatSettings) -> (r: Result<
        PlatformCall,
        NotAuthenticatedError,
    >)
        ensures
            r is Ok <==> self.access_state is Authenticated,
            r matches Ok(c) ==> c matches PlatformCall::UpdateChatSettings {
                broadcaster_id,
                moderator_id,
                patch,
            } && broadcaster_id@ == self.spec_user_id() && moderator_id@ == self.spec_user_id()
                && patch == (ChatSettingsPatch {
                slow_mode: Some(!settings.slow_mode),
                emote_mode: None,
                follower_mode: None,
                subscriber_mode: None,
            }),
    {
        let mut patch = ChatSettingsPatch::none();
        patch.slow_mode = Some(!settings.slow_mode);
        self.update_chat_settings(patch)
    }

    /// Plans the patch that toggles emote-only mode; see
    /// [`State::toggle_slow_mode`].
    pub fn toggle_emote_only(&self, settings: &ChatSettings) -> (r: Result<
        PlatformCall,
        NotAuthenticatedError,
    >)
        ensures
            r is Ok <==> self.access_state is Authenticated,
            r matches Ok(c) ==> c matches PlatformCall::UpdateChatSettings {
                broadcaster_id,
                moderator_id,
                patch,
            } && broadcaster_id@ == self.spec_user_id() && moderator_id@ == self.spec_user_id()
                && patch == (ChatSettingsPatch {
                emote_mode: Some(!settings.emote_mode),
                follower_mode: None,
                slow_mode: None,
                subscriber_mode: None,
            }),
    {
        let mut patch = ChatSettingsPatch::none();
        patch.emote_mode = Some(!settings.emote_mode);
        self.update_chat_settings(patch)
    }

    /// Plans the patch that toggles follower-only mode; see
    /// [`State::toggle_slow_mode`].
    pub fn toggle_follower_only(&self, settings: &ChatSettings) -> (r: Result<
        PlatformCall,
        NotAuthenticatedError,
    >)
        ensures
            r is Ok <==> self.access_state is Authenticated,
            r matches Ok(c) ==> c matches PlatformCall::UpdateChatSettings {
                broadcaster_id,
                moderator_id,
                patch,
            } && broadcaster_id@ == self.spec_user_id() && moderator_id@ == self.spec_user_id()
                && patch == (ChatSettingsPatch {
                follower_mode: Some(!settings.follower_mode),
                emote_mode: None,
                slow_mode: None,
                subscriber_mode: None,
            }),
    {
        let mut patch = ChatSettingsPatch::none();
        patch.follower_mode = Some(!settings.follower_mode);
        self.update_chat_settings(patch)
    }

    /// Plans the patch that toggles subscriber-only mode; see
    /// [`State::toggle_slow_mode`].
    pub fn toggle_sub_only(&self, settings: &ChatSettings) -> (r: Result<
        PlatformCall,
        NotAuthenticatedError,
    >)
        ensures
            r is Ok <==> self.access_state is Authenticated,
            r matches Ok(c) ==> c matches PlatformCall::UpdateChatSettings {
                broadcaster_id,
                moderator_id,
                patch,
            } && broadcaster_id@ == self.spec_user_id() && moderator_id@ == self.spec_user_id()
                && patch == (ChatSettingsPatch {
                subscriber_mode: Some(!settings.subscriber_mode),
                emote_mode: None,
                follower_mode: None,
                slow_mode: None,
            }),
    {
        let mut patch = ChatSettingsPatch::none();
        patch.subscriber_mode = Some(!settings.subscriber_mode);
        self.update_chat_settings(patch)
    }

    /// Plans starting an advertisement break of the given duration, if
    /// and only if the session is authenticated.
    pub fn start_commercial(&self, length: CommercialLength) -> (r: Result<
        PlatformCall,
        NotAuthenticatedError,
    >)
        ensures
            r is Ok <==> self.access_state is Authenticated,
            r matches Ok(c) ==> c matches PlatformCall::StartCommercial {
                broadcaster_id,
                length: l,
            } && broadcaster_id@ == self.spec_user_id() && l == length,
    {
        match self.get_user_token() {
            Some(token) => Ok(
                PlatformCall::StartCommercial { broadcaster_id: token.user_id, length },
            ),
            None => Err(NotAuthenticatedError),
        }
    }

    /// Plans the chat-settings patch call carrying `patch`, if and only
    /// if the session is authenticated.
    fn update_chat_settings(&self, patch: ChatSettingsPatch) -> (r: Result<
        PlatformCall,
        NotAuthenticatedError,
    >)
        ensures
            r is Ok <==> self.access_state is Authenticated,
            r matches Ok(c) ==> c matches PlatformCall::UpdateChatSettings {
                broadcaster_id,
                moderator_id,
                patch: p,
            } && broadcaster_id@ == self.spec_user_id() && moderator_id@ == self.spec_user_id() && p
                == patch,
    {
        match self.get_user_token() {
            Some(token) => Ok(
                PlatformCall::UpdateChatSettings {
                    broadcaster_id: token.user_id.clone(),
                    moderator_id: token.user_id,
                    patch,
                },
            ),
            None => Err(NotAuthenticatedError),
        }
    }
}

/// With no live display subscription at a tick, the scheduler makes no
/// platform call; and since that tick's purge empties the registry, no
/// later tick makes one either, until a display subscribes again.
pub proof fn lemma_idle_scheduler_never_polls<I>(
    s: State<I>,
    after: State<I>,
    now: u64,
    later: u64,
)
    requires
        forall|i: int| 0 <= i < s.view_displays@.len() ==> !display_live(
            #[trigger] s.view_displays@[i],
            now,
        ),
        after.view_displays@ == spec_purge(s.view_displays@, now),
    ensures
        !spec_tick_polls(s, now),
        after.view_displays@.len() == 0,
        !spec_tick_polls(after, later),
{
    lemma_purge_all_stale(s.view_displays@, now);
    assert(spec_purge(after.view_displays@, later).len() == 0) by {
        reveal(Seq::filter);
    }
}

/// Purging a registry with no live entry leaves it empty.
proof fn lemma_purge_all_stale(s: Seq<ViewCountDisplay>, now: u64)
    requires
        forall|i: int| 0 <= i < s.len() ==> !display_live(#[trigger] s[i], now),
    ensures
        spec_purge(s, now).len() == 0,
    decreases s.len(),
{
    reveal(Seq::filter);
    if s.len() > 0 {
        lemma_purge_all_stale(s.drop_last(), now);
    }
}

/// The four chat-mode toggles an action can request.
#[derive(Clone, Copy, PartialEq, Eq, Structural, Debug)]
pub enum ChatToggleField {
    EmoteOnly,
    FollowerOnly,
    SubOnly,
    SlowMode,
}

/// What a decoded action requires of the platform.
#[derive(Debug)]
pub enum ActionPlan {
    /// Nothing to do: the action is a placeholder, or a send with no
    /// message, which is swallowed rather than rejected.
    Noop,
    /// Perform these calls in order, each awaited before the next.
    Calls(Vec<PlatformCall>),
    /// Read the chat settings, then apply the matching toggle planner
    /// to what was read and perform the patch call it yields.
    ChatToggle(ChatToggleField),
}

impl<I> State<I> {
    /// Turns a decoded action into the platform work it requires.
    ///
    /// Placeholder actions and a message-less send plan nothing and
    /// never fail. A chat toggle plans its read-modify-write without
    /// touching the credential yet: both of its calls re-derive the
    /// credential at call time. Every other action derives the
    /// credential now and fails if and only if the session is not
    /// authenticated.
    pub fn plan_action(&self, action: &Action) -> (r: Result<ActionPlan, NotAuthenticatedError>)
        ensures
            ({
                let authed = self.access_state is Authenticated;
                match action {
                    Action::SendMessage(p) => match p.message {
                        None => r == Ok::<ActionPlan, NotAuthenticatedError>(ActionPlan::Noop),
                        Some(m) => {
                            &&& (r is Ok <==> authed)
                            &&& (r matches Ok(plan) ==> (plan matches ActionPlan::Calls(calls)
                                && calls@.len() == spec_chunk_count(m@.len()) && (forall|i: int|
                                0 <= i < calls@.len() ==> ((#[trigger] calls@[i]) matches
                                    PlatformCall::SendChatMessage {
                                    broadcaster_id,
                                    sender_id,
                                    message,
                                } && broadcaster_id@ == self.spec_user_id() && sender_id@
                                    == self.spec_user_id() && message@ == spec_chunk(m@, i)))))
                        },
                    },
                    Action::ClearChat => {
                        &&& (r is Ok <==> authed)
                        &&& (r matches Ok(plan) ==> (plan matches ActionPlan::Calls(calls)
                            && calls@.len() == 1 && (calls@[0] matches
                            PlatformCall::DeleteChatMessages { broadcaster_id, moderator_id }
                            && broadcaster_id@ == self.spec_user_id() && moderator_id@
                            == self.spec_user_id())))
                    },
                    Action::EmoteOnly => r == Ok::<ActionPlan, NotAuthenticatedError>(
                        ActionPlan::ChatToggle(ChatToggleField::EmoteOnly),
                    ),
                    Action::FollowerOnly => r == Ok::<ActionPlan, NotAuthenticatedError>(
                        ActionPlan::ChatToggle(ChatToggleField::FollowerOnly),
                    ),
                    Action::SubOnly => r == Ok::<ActionPlan, NotAuthenticatedError>(
                        ActionPlan::ChatToggle(ChatToggleField::SubOnly),
                    ),
                    Action::SlowMode => r == Ok::<ActionPlan, NotAuthenticatedError>(
                        ActionPlan::ChatToggle(ChatToggleField::SlowMode),
                    ),
                    Action::AdBreak(p) => {
                        let length = match p.length {
                            Some(l) => l,
                            None => CommercialLength::Length30,
                        };
                        &&& (r is Ok <==> authed)
                        &&& (r matches Ok(plan) ==> (plan matches ActionPlan::Calls(calls)
                            && calls@.len() == 1 && (calls@[0] matches
                            PlatformCall::StartCommercial { broadcaster_id, length: l }
                            && broadcaster_id@ == self.spec_user_id() && l == length)))
                    },
                    Action::Marker(p) => {
                        let description = match p.description {
                            Some(d) => d@,
                            None => Seq::<char>::empty(),
                        };
                        &&& (r is Ok <==> authed)
                        &&& (r matches Ok(plan) ==> (plan matches ActionPlan::Calls(calls)
                            && calls@.len() == 1 && (calls@[0] matches
                            PlatformCall::CreateStreamMarker { user_id, description: d }
                            && user_id@ == self.spec_user_id() && d@ == description)))
                    },
                    Action::CreateClip => {
                        &&& (r is Ok <==> authed)
                        &&& (r matches Ok(plan) ==> (plan matches ActionPlan::Calls(calls)
                            && calls@.len() == 1 && (calls@[0] matches PlatformCall::CreateClip {
                            broadcaster_id,
                        } && broadcaster_id@ == self.spec_user_id())))
                    },
                    Action::OpenClip => r == Ok::<ActionPlan, NotAuthenticatedError>(
                        ActionPlan::Noop,
                    ),
                    Action::ViewerCount => r == Ok::<ActionPlan, NotAuthenticatedError>(
                        ActionPlan::Noop,
                    ),
                }
            }),
    {
        match action {
            Action::SendMessage(p) => match &p.message {
                Some(m) => match self.send_chat_message_chunked(m.as_str()) {
                    Ok(calls) => Ok(ActionPlan::Calls(calls)),
                    Err(e) => Err(e),
                },
                None => Ok(ActionPlan::Noop),
            },
            Action::ClearChat => match self.clear_chat() {
                Ok(call) => {
                    let mut calls: Vec<PlatformCall> = Vec::new();
                    calls.push(call);
                    Ok(ActionPlan::Calls(calls))
                },
                Err(e) => Err(e),
            },
            Action::EmoteOnly => Ok(ActionPlan::ChatToggle(ChatToggleField::EmoteOnly)),
            Action::FollowerOnly => Ok(ActionPlan::ChatToggle(ChatToggleField::FollowerOnly)),
            Action::SubOnly => Ok(ActionPlan::ChatToggle(ChatToggleField::SubOnly)),
            Action::SlowMode => Ok(ActionPlan::ChatToggle(ChatToggleField::SlowMode)),
            Action::AdBreak(p) => {
                let length = match p.length {
                    Some(l) => l,
                    None => CommercialLength::Length30,
                };
                match self.start_commercial(length) {
                    Ok(call) => {
                        let mut calls: Vec<PlatformCall> = Vec::new();
                        calls.push(call);
                        Ok(ActionPlan::Calls(calls))
                    },
                    Err(e) => Err(e),
                }
            },
            Action::Marker(p) => {
                let description = match &p.description {
                    Some(d) => d.clone(),
                    None => String::new(),
                };
                match self.create_marker(description) {
                    Ok(call) => {
                        let mut calls: Vec<PlatformCall> = Vec::new();
                        calls.push(call);
                        Ok(ActionPlan::Calls(calls))
                    },
                    Err(e) => Err(e),
                }
            },
            Action::CreateClip => match self.create_clip() {
                Ok(call) => {
                    let mut calls: Vec<PlatformCall> = Vec::new();
                    calls.push(call);
                    Ok(ActionPlan::Calls(calls))
                },
                Err(e) => Err(e),
            },
            Action::OpenClip => Ok(ActionPlan::Noop),
            Action::ViewerCount => Ok(ActionPlan::Noop),
        }
    }

    /// The patch call for one chat toggle, given the settings just
    /// read; fails if and only if the session is no longer
    /// authenticated when the credential is re-derived.
    pub fn plan_chat_toggle(&self, field: ChatToggleField, settings: &ChatSettings) -> (r: Result<
        PlatformCall,
        NotAuthenticatedError,
    >)
        ensures
            r is Ok <==> self.access_state is Authenticated,
            r matches Ok(c) ==> c matches PlatformCall::UpdateChatSettings {
                broadcaster_id,
                moderator_id,
                patch,
            } && broadcaster_id@ == self.spec_user_id() && moderator_id@ == self.spec_user_id()
                && patch == (ChatSettingsPatch {
                emote_mode: if field is EmoteOnly {
                    Some(!settings.emote_mode)
                } else {
                    None
                },
                follower_mode: if field is FollowerOnly {
                    Some(!settings.follower_mode)
                } else {
                    None
                },
                slow_mode: if field is SlowMode {
                    Some(!settings.slow_mode)
                } else {
                    None
                },
                subscriber_mode: if field is SubOnly {
                    Some(!settings.subscriber_mode)
                } else {
                    None
                },
            }),
    {
        match field {
            ChatToggleField::EmoteOnly => self.toggle_emote_only(settings),
            ChatToggleField::FollowerOnly => self.toggle_follower_only(settings),
            ChatToggleField::SubOnly => self.toggle_sub_only(settings),
            ChatToggleField::SlowMode => self.toggle_slow_mode(settings),
        }
    }
}

/// The observer-visible content of a notification value.
pub open spec fn note_view(note: Option<InspectorMessageOut>) -> Option<Seq<char>> {
    match note {
        Some(InspectorMessageOut::State { state }) => Some(state@),
        None => None,
    }
}

/// A full successful authentication attempt as a state transition:
/// `Loading` while validating, then `Authenticated` with the validated
/// credential.
pub open spec fn spec_attempt_auth_ok<I>(s: State<I>, t: UserToken) -> State<I> {
    s.with_access(AccessState::Loading).with_access(AccessState::Authenticated { user_token: t })
}

/// Repeated successful authentication is idempotent: a second successful
/// attempt leaves the session authenticated with the latest credential,
/// exactly as if only the second attempt had run, and each attempt owes
/// the observer the loading tag followed by the authenticated tag.
pub proof fn lemma_attempt_auth_idempotent<I>(s: State<I>, t1: UserToken, t2: UserToken)
    ensures
        spec_attempt_auth_ok(spec_attempt_auth_ok(s, t1), t2) == spec_attempt_auth_ok(s, t2),
        spec_attempt_auth_ok(spec_attempt_auth_ok(s, t1), t2).access_state == (
        AccessState::Authenticated { user_token: t2 }),
        forall|t: UserToken|
            #![auto]
            spec_attempt_auth_ok(s, t).with_access(AccessState::Loading).spec_note() == (
            if s.inspector is Some {
                Some("LOADING"@)
            } else {
                None
            }),
        forall|t: UserToken|
            #![auto]
            spec_attempt_auth_ok(s, t).spec_note() == (if s.inspector is Some {
                Some("AUTHENTICATED"@)
            } else {
                None
            }),
{
}

} // verus!
