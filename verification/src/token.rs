//! Shutdown authority: who asked the node to stop, and by when.
//!
//! Instants are nanoseconds since an origin that the embedding process fixes
//! once.
use vstd::prelude::*;

verus! {

/// The time that an owner grants a shutdown when its caller names none.
pub const HA_SERVER_SHUTDOWN_TIMEOUT: u64 = 25_000_000_000;

/// The identity of one cancellation of startup I/O.
#[derive(Clone, Copy, Debug, PartialEq, Eq, Structural)]
pub struct StartupCancellationToken {
    pub id: u64,
}

/// Whether the embedding application or the node itself asked for a shutdown.
#[derive(Clone, Copy, Debug, PartialEq, Eq, Structural)]
pub enum StartupCancellationAuthority {
    Internal,
    External,
}

/// Authority to stop a node before an absolute deadline.
#[derive(Clone, Copy, PartialEq, Eq, Structural)]
pub struct ShutdownToken {
    deadline: u64,
    startup_token: StartupCancellationToken,
    authority: StartupCancellationAuthority,
}

/// The shutdown that has been asked for, if any.
pub type ShutdownSignal = Option<ShutdownToken>;

impl StartupCancellationAuthority {
    /// An external request supersedes an internal one and never yields to one;
    /// within one authority the earlier deadline wins.
    pub open spec fn spec_replaces(
        self,
        current: StartupCancellationAuthority,
        deadline: u64,
        current_deadline: u64,
    ) -> bool {
        if self == current {
            deadline < current_deadline
        } else {
            self == StartupCancellationAuthority::External
        }
    }

    /// Whether a request of this authority and deadline supersedes `current`.
    pub fn replaces(
        self,
        current: StartupCancellationAuthority,
        deadline: u64,
        current_deadline: u64,
    ) -> (replaces: bool)
        ensures
            replaces == self.spec_replaces(current, deadline, current_deadline),
    {
        if self == current {
            deadline < current_deadline
        } else {
            self == StartupCancellationAuthority::External
        }
    }
}

impl ShutdownToken {
    pub closed spec fn spec_deadline(self) -> u64 {
        self.deadline
    }

    pub closed spec fn spec_startup_token(self) -> StartupCancellationToken {
        self.startup_token
    }

    pub closed spec fn spec_startup_authority(self) -> StartupCancellationAuthority {
        self.authority
    }

    /// The token with these parts.
    pub closed spec fn of(
        deadline: u64,
        startup_token: StartupCancellationToken,
        authority: StartupCancellationAuthority,
    ) -> ShutdownToken {
        ShutdownToken { deadline, startup_token, authority }
    }

    /// What may be shown of a token: neither its deadline nor whose it is.
    pub fn debug_text(&self) -> (text: String)
        ensures
            text@ == "ShutdownToken(..)"@,
    {
        "ShutdownToken(..)".to_owned()
    }

    /// An external token that expires `timeout` after `now`.
    pub fn new(now: u64, timeout: u64, startup_token: StartupCancellationToken) -> (token: Self)
        requires
            now + timeout <= u64::MAX,
        ensures
            token == Self::of(
                (now + timeout) as u64,
                startup_token,
                StartupCancellationAuthority::External,
            ),
    {
        Self::with_authority(now, timeout, startup_token, StartupCancellationAuthority::External)
    }

    /// An internal token that expires `timeout` after `now`.
    pub fn new_internal(now: u64, timeout: u64, startup_token: StartupCancellationToken) -> (token:
        Self)
        requires
            now + timeout <= u64::MAX,
        ensures
            token == Self::of(
                (now + timeout) as u64,
                startup_token,
                StartupCancellationAuthority::Internal,
            ),
    {
        Self::with_authority(now, timeout, startup_token, StartupCancellationAuthority::Internal)
    }

    /// An internal token that expires at `deadline`.
    pub fn new_internal_at(deadline: u64, startup_token: StartupCancellationToken) -> (token: Self)
        ensures
            token == Self::of(deadline, startup_token, StartupCancellationAuthority::Internal),
    {
        ShutdownToken { deadline, startup_token, authority: StartupCancellationAuthority::Internal }
    }

    fn with_authority(
        now: u64,
        timeout: u64,
        startup_token: StartupCancellationToken,
        authority: StartupCancellationAuthority,
    ) -> (token: Self)
        requires
            now + timeout <= u64::MAX,
        ensures
            token == Self::of((now + timeout) as u64, startup_token, authority),
    {
        ShutdownToken { deadline: now + timeout, startup_token, authority }
    }

    /// The instant at which the shutdown must be over.
    pub fn deadline(&self) -> (deadline: u64)
        ensures
            deadline == self.spec_deadline(),
    {
        self.deadline
    }

    /// The startup cancellation that this shutdown stands for.
    pub fn startup_token(&self) -> (token: StartupCancellationToken)
        ensures
            token == self.spec_startup_token(),
    {
        self.startup_token
    }

    /// Who asked.
    pub fn startup_authority(&self) -> (authority: StartupCancellationAuthority)
        ensures
            authority == self.spec_startup_authority(),
    {
        self.authority
    }

    /// Whether this request supersedes `current`.
    pub open spec fn spec_replaces(self, current: ShutdownToken) -> bool {
        self.spec_startup_authority().spec_replaces(
            current.spec_startup_authority(),
            self.spec_deadline(),
            current.spec_deadline(),
        )
    }

    /// Whether this request supersedes `current`.
    pub fn replaces(&self, current: &ShutdownToken) -> (replaces: bool)
        ensures
            replaces == self.spec_replaces(*current),
    {
        self.authority.replaces(current.authority, self.deadline, current.deadline)
    }

    /// A token is exactly its deadline, its cancellation and its authority.
    pub broadcast proof fn lemma_parts(
        deadline: u64,
        startup_token: StartupCancellationToken,
        authority: StartupCancellationAuthority,
    )
        ensures
            (#[trigger] ShutdownToken::of(deadline, startup_token, authority)).spec_deadline()
                == deadline,
            ShutdownToken::of(deadline, startup_token, authority).spec_startup_token()
                == startup_token,
            ShutdownToken::of(deadline, startup_token, authority).spec_startup_authority()
                == authority,
    {
    }
}

/// The deadline of the requested shutdown, or `now` where none was requested.
pub open spec fn deadline_of(signal: ShutdownSignal, now: u64) -> u64 {
    match signal {
        Some(token) => token.spec_deadline(),
        None => now,
    }
}

/// The deadline of the requested shutdown, or `now` where none was requested.
pub fn shutdown_deadline(signal: &ShutdownSignal, now: u64) -> (deadline: u64)
    ensures
        deadline == deadline_of(*signal, now),
{
    match signal {
        Some(token) => token.deadline(),
        None => now,
    }
}

/// Whether `requested` is installed where `current` stands.
pub open spec fn installs(current: ShutdownSignal, requested: ShutdownToken) -> bool {
    match current {
        Some(existing) => requested.spec_replaces(existing),
        None => true,
    }
}

/// The token in force once `requested` was asked for.
pub open spec fn installed(current: ShutdownSignal, requested: ShutdownToken) -> ShutdownToken {
    match current {
        Some(existing) => if requested.spec_replaces(existing) {
            requested
        } else {
            existing
        },
        None => requested,
    }
}

/// What a shutdown request did: the token now in force, and whether the
/// request itself was installed, in which case admission closes.
#[derive(Clone, Copy, PartialEq, Eq, Structural)]
pub struct ShutdownRequest {
    pub token: ShutdownToken,
    pub close_admission: bool,
}

/// Asks for a shutdown. The signal changes, and admission closes, only where
/// no shutdown was asked for before or `requested` supersedes the one that was.
pub fn request_ha_shutdown(shutdown: &mut ShutdownSignal, requested: ShutdownToken) -> (request:
    ShutdownRequest)
    ensures
        *final(shutdown) == Some(installed(*old(shutdown), requested)),
        request.token == installed(*old(shutdown), requested),
        request.close_admission == installs(*old(shutdown), requested),
{
    let replace = match &*shutdown {
        Some(existing) => requested.replaces(existing),
        None => true,
    };
    if replace {
        *shutdown = Some(requested);
        ShutdownRequest { token: requested, close_admission: true }
    } else {
        match *shutdown {
            Some(existing) => ShutdownRequest { token: existing, close_admission: false },
            None => ShutdownRequest { token: requested, close_admission: false },
        }
    }
}

/// The cancellation state of a node's startup I/O.
#[derive(Clone, Copy, PartialEq, Eq, Structural)]
pub struct StartupIoContext {
    pub cancellation: ShutdownSignal,
}

impl StartupIoContext {
    /// Startup I/O that nobody has cancelled.
    pub fn new() -> (startup: Self)
        ensures
            startup.cancellation is None,
    {
        StartupIoContext { cancellation: None }
    }

    pub open spec fn spec_is_cancelled_by(self, token: StartupCancellationToken) -> bool {
        self.cancellation is Some && self.cancellation->0.spec_startup_token() == token
    }

    /// Whether the cancellation in force is this one.
    pub fn is_cancelled_by(&self, token: &StartupCancellationToken) -> (cancelled: bool)
        ensures
            cancelled == self.spec_is_cancelled_by(*token),
    {
        match &self.cancellation {
            Some(cancellation) => cancellation.startup_token() == *token,
            None => false,
        }
    }
}

/// Cancels startup I/O on behalf of `token`. Precedence is that of
/// [`request_ha_shutdown`].
pub fn cancel_startup_for_token(startup: &mut StartupIoContext, token: &ShutdownToken)
    ensures
        final(startup).cancellation == Some(installed(old(startup).cancellation, *token)),
{
    let request = request_ha_shutdown(&mut startup.cancellation, *token);
    assert(request.token == installed(old(startup).cancellation, *token));
}

/// The signal after the requests of `requests` in turn.
pub open spec fn after_requests(initial: ShutdownSignal, requests: Seq<ShutdownToken>) -> ShutdownSignal
    decreases requests.len(),
{
    if requests.len() == 0 {
        initial
    } else {
        Some(installed(after_requests(initial, requests.drop_last()), requests.last()))
    }
}

/// No two requests supersede each other, and none supersedes itself: asking
/// twice with one token installs it once.
pub proof fn law_precedence_is_strict(left: ShutdownToken, right: ShutdownToken)
    ensures
        !(left.spec_replaces(right) && right.spec_replaces(left)),
        !left.spec_replaces(left),
        installed(Some(left), left) == left,
{
}

/// Supersession is transitive.
pub proof fn law_precedence_is_transitive(
    first: ShutdownToken,
    second: ShutdownToken,
    third: ShutdownToken,
)
    requires
        first.spec_replaces(second),
        second.spec_replaces(third),
    ensures
        first.spec_replaces(third),
{
}

/// An external request is never displaced by an internal one, whatever the
/// deadlines; an internal one always yields to an external one.
pub proof fn law_external_authority_wins(external: ShutdownToken, internal: ShutdownToken)
    requires
        external.spec_startup_authority() == StartupCancellationAuthority::External,
        internal.spec_startup_authority() == StartupCancellationAuthority::Internal,
    ensures
        installed(Some(external), internal) == external,
        installed(Some(internal), external) == external,
{
}

/// A shutdown that was asked for is never withdrawn, its authority never falls
/// back to internal, and within one authority its deadline is never extended.
pub proof fn law_requests_never_extend(current: ShutdownToken, requested: ShutdownToken)
    ensures
        ({
            let next = installed(Some(current), requested);
            &&& next.spec_startup_authority() == current.spec_startup_authority()
                ==> next.spec_deadline() <= current.spec_deadline()
            &&& current.spec_startup_authority() == StartupCancellationAuthority::External
                ==> next.spec_startup_authority() == StartupCancellationAuthority::External
        }),
{
}

/// After any run of requests the token in force is one of those asked for,
/// and none of them supersedes it.
pub proof fn law_strongest_request_stays(requests: Seq<ShutdownToken>)
    requires
        requests.len() > 0,
    ensures
        after_requests(None, requests) is Some,
        requests.contains(after_requests(None, requests)->0),
        forall|i: int|
            0 <= i < requests.len() ==> !(#[trigger] requests[i]).spec_replaces(
                after_requests(None, requests)->0,
            ),
    decreases requests.len(),
{
    let before = requests.drop_last();
    let last = requests.last();
    if before.len() == 0 {
        assert(after_requests(None, before) is None);
        assert(after_requests(None, requests) == Some(last));
        assert(requests[0] == last);
    } else {
        law_strongest_request_stays(before);
        let held = after_requests(None, before)->0;
        let now = after_requests(None, requests)->0;
        assert(requests[requests.len() - 1] == last);
        let k = choose|k: int| 0 <= k < before.len() && before[k] == held;
        assert(requests[k] == held);
        assert forall|i: int| 0 <= i < requests.len() implies !(
        #[trigger] requests[i]).spec_replaces(now) by {
            if i < before.len() {
                assert(before[i] == requests[i]);
            }
        }
    }
}

/// A node that passes every request on to startup cancels startup by exactly
/// the token in force: the two never disagree on who stops it.
pub proof fn law_startup_cancellation_follows_the_signal(
    signal: ShutdownSignal,
    requested: ShutdownToken,
)
    ensures
        Some(installed(signal, installed(signal, requested))) == Some(installed(signal, requested)),
        signal is Some ==> installed(Some(installed(signal, requested)), signal->0) == installed(
            signal,
            requested,
        ),
{
}

/// A request supersedes another exactly where it is the application's and the
/// other is the node's own, or where both have one authority and it is strictly
/// earlier.
pub proof fn law_a_request_supersedes_by_authority_and_then_by_deadline(
    requested: ShutdownToken,
    current: ShutdownToken,
)
    ensures
        requested.spec_replaces(current) <==> {
            ||| requested.spec_startup_authority() == StartupCancellationAuthority::External
                && current.spec_startup_authority() == StartupCancellationAuthority::Internal
            ||| requested.spec_startup_authority() == current.spec_startup_authority()
                && requested.spec_deadline() < current.spec_deadline()
        },
{
}

/// A request is installed where none was before it, and where it supersedes
/// the one in force. Then, and only then, admission closes because of it;
/// otherwise the one in force stays.
pub proof fn law_a_request_is_installed_or_the_one_in_force_stays(
    current: ShutdownSignal,
    requested: ShutdownToken,
)
    ensures
        current is None ==> installs(current, requested),
        current matches Some(existing) ==> (installs(current, requested)
            <==> requested.spec_replaces(existing)),
        installs(current, requested) ==> installed(current, requested) == requested,
        !installs(current, requested) ==> current == Some(installed(current, requested)),
{
}

/// A shutdown that was requested is due at its own deadline; where none was,
/// what is left to do is due now.
pub proof fn law_a_deadline_is_that_of_the_request_or_now(signal: ShutdownSignal, now: u64)
    ensures
        signal matches Some(token) ==> deadline_of(signal, now) == token.spec_deadline(),
        signal is None ==> deadline_of(signal, now) == now,
{
}

/// Startup is cancelled by a token exactly where the cancellation in force is
/// that token's.
pub proof fn law_startup_is_cancelled_by_one_token_only(
    startup: StartupIoContext,
    token: StartupCancellationToken,
)
    ensures
        startup.spec_is_cancelled_by(token) <==> (startup.cancellation matches Some(in_force)
            && in_force.spec_startup_token() == token),
        forall|other: StartupCancellationToken|
            startup.spec_is_cancelled_by(token) && #[trigger] startup.spec_is_cancelled_by(other)
                ==> other == token,
{
}

/// A token that a caller asks for has the caller's authority, and one that the
/// node makes for itself does not; both end as long after now as they were
/// given, and each cancels startup by the token that it was made with.
pub proof fn law_a_token_is_made_with_its_authority(
    now: u64,
    timeout: u64,
    startup_token: StartupCancellationToken,
    external: ShutdownToken,
    internal: ShutdownToken,
    dated: ShutdownToken,
)
    requires
        now + timeout <= u64::MAX,
        call_ensures(ShutdownToken::new, (now, timeout, startup_token), external),
        call_ensures(ShutdownToken::new_internal, (now, timeout, startup_token), internal),
        call_ensures(ShutdownToken::new_internal_at, (now, startup_token), dated),
    ensures
        external.spec_deadline() == now + timeout,
        internal.spec_deadline() == now + timeout,
        dated.spec_deadline() == now,
        external.spec_startup_authority() is External,
        internal.spec_startup_authority() is Internal,
        dated.spec_startup_authority() is Internal,
        external.spec_startup_token() == startup_token,
        internal.spec_startup_token() == startup_token,
        dated.spec_startup_token() == startup_token,
{
    broadcast use ShutdownToken::lemma_parts;
}

/// A token tells its own parts, and startup is cancelled by no token at first.
pub proof fn law_a_token_tells_its_own_parts(
    token: ShutdownToken,
    current: ShutdownToken,
    signal: ShutdownSignal,
    now: u64,
    deadline: u64,
    startup_token: StartupCancellationToken,
    authority: StartupCancellationAuthority,
    replaces: bool,
    until: u64,
    fresh: StartupIoContext,
    cancelled: bool,
)
    requires
        call_ensures(ShutdownToken::deadline, (&token,), deadline),
        call_ensures(ShutdownToken::startup_token, (&token,), startup_token),
        call_ensures(ShutdownToken::startup_authority, (&token,), authority),
        call_ensures(ShutdownToken::replaces, (&token, &current), replaces),
        call_ensures(shutdown_deadline, (&signal, now), until),
        call_ensures(StartupIoContext::new, (), fresh),
        call_ensures(StartupIoContext::is_cancelled_by, (&fresh, &startup_token), cancelled),
    ensures
        token == ShutdownToken::of(deadline, startup_token, authority),
        replaces == token.spec_replaces(current),
        signal is None ==> until == now,
        signal == Some(token) ==> until == deadline,
        !cancelled,
{
    broadcast use ShutdownToken::lemma_parts;
}

} // verus!
