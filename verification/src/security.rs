//! Abuse mitigation at the request boundary: rate limiting, the origin check
//! for state-changing requests, and the defensive response headers.

use vstd::prelude::*;
use vstd::string::*;
use crate::ambient::{fresh_id, is_hyphenated_id};
use crate::models::opt_text;
use crate::error::{AppError, AppErrorView};
use crate::origin::{origin_host, parse_origin_host, parse_referer_host, referer_host};
use crate::text::{ends_with, first_field, first_field_trimmed, has_suffix, str_eq, trimmed};

verus! {

/// Outcome of the admission of one request.
#[derive(Debug, Clone, Copy, PartialEq, Eq, Structural)]
pub enum Admission {
    Allowed,
    Denied,
}

/// Nanoseconds between `start` and `now`; none where `now` is the earlier.
pub open spec fn elapsed(now: u128, start: u128) -> int {
    if now >= start {
        now - start
    } else {
        0
    }
}

/// The windows that are still open at `now`: those that started less than
/// `window` nanoseconds ago.
pub open spec fn live_at(table: Map<Seq<char>, (u32, u128)>, now: u128, window: u128) -> Map<
    Seq<char>,
    (u32, u128),
> {
    Map::new(
        |k: Seq<char>| table.contains_key(k) && elapsed(now, table[k].1) < window,
        |k: Seq<char>| table[k],
    )
}

/// The number of requests of `client` in its window, this one included:
/// one more than before where its window is still open, else one.
pub open spec fn count_after(
    table: Map<Seq<char>, (u32, u128)>,
    client: Seq<char>,
    now: u128,
    window: u128,
) -> int {
    let live = live_at(table, now, window);
    if live.contains_key(client) {
        live[client].0 + 1
    } else {
        1
    }
}

/// The window of `client` after its request at `now`. The counter stays at
/// the largest number that it holds.
pub open spec fn window_after(
    table: Map<Seq<char>, (u32, u128)>,
    client: Seq<char>,
    now: u128,
    window: u128,
) -> (u32, u128) {
    let live = live_at(table, now, window);
    let count = count_after(table, client, now, window);
    (
        if count > u32::MAX {
            u32::MAX
        } else {
            count as u32
        },
        if live.contains_key(client) {
            live[client].1
        } else {
            now
        },
    )
}

/// The table after a request of `client` at `now`: the closed windows are
/// gone, and `client` has its new window.
pub open spec fn table_after(
    table: Map<Seq<char>, (u32, u128)>,
    client: Seq<char>,
    now: u128,
    window: u128,
) -> Map<Seq<char>, (u32, u128)> {
    live_at(table, now, window).insert(client, window_after(table, client, now, window))
}

/// Whether the request of `client` at `now` is admitted: it is denied where
/// the count, this request included, is over `max_requests`.
pub open spec fn admission(
    table: Map<Seq<char>, (u32, u128)>,
    client: Seq<char>,
    now: u128,
    window: u128,
    max_requests: u32,
) -> Admission {
    if count_after(table, client, now, window) > max_requests {
        Admission::Denied
    } else {
        Admission::Allowed
    }
}

/// Counter of one client: the requests in its window and the start of the
/// window.
#[derive(Debug, Clone)]
pub struct RateWindow {
    client: String,
    count: u32,
    window_start: u128,
}

/// The table that a list of windows stands for.
spec fn table_of(windows: Seq<RateWindow>) -> Map<Seq<char>, (u32, u128)>
    decreases windows.len(),
{
    if windows.len() == 0 {
        Map::empty()
    } else {
        table_of(windows.drop_last()).insert(
            windows.last().client@,
            (windows.last().count, windows.last().window_start),
        )
    }
}

/// No client has two windows.
spec fn one_window_each(windows: Seq<RateWindow>) -> bool
    decreases windows.len(),
{
    windows.len() == 0 || (one_window_each(windows.drop_last()) && !table_of(
        windows.drop_last(),
    ).contains_key(windows.last().client@))
}

/// A table has as many entries as the list that stands for it.
proof fn table_size(windows: Seq<RateWindow>)
    requires
        one_window_each(windows),
    ensures
        table_of(windows).dom().finite(),
        table_of(windows).len() == windows.len(),
    decreases windows.len(),
{
    if windows.len() > 0 {
        table_size(windows.drop_last());
    }
}

/// Fixed-window counter per client. It admits up to `max_requests` requests
/// of a client in each window. Instants and the length of a window are
/// counted in nanoseconds, as a monotonic clock gives them. All clients share
/// one table, which takes exclusive access to change.
#[derive(Debug)]
pub struct RateLimiter {
    windows: Vec<RateWindow>,
    max_requests: u32,
    window: u128,
}

impl RateLimiter {
    #[verifier::type_invariant]
    spec fn no_client_twice(&self) -> bool {
        one_window_each(self.windows@)
    }

    /// The window of each client that has one: its count and its start.
    pub closed spec fn table(&self) -> Map<Seq<char>, (u32, u128)> {
        table_of(self.windows@)
    }

    pub closed spec fn max_requests(&self) -> u32 {
        self.max_requests
    }

    /// Length of a window, in nanoseconds.
    pub closed spec fn window(&self) -> u128 {
        self.window
    }

    /// A limiter without windows that admits `max_requests` requests of a
    /// client in each window of `window_seconds` seconds.
    pub fn new(max_requests: u32, window_seconds: u64) -> (limiter: RateLimiter)
        ensures
            limiter.table() == Map::<Seq<char>, (u32, u128)>::empty(),
            limiter.max_requests() == max_requests,
            limiter.window() == window_seconds * 1_000_000_000,
    {
        RateLimiter {
            windows: Vec::new(),
            max_requests,
            window: window_seconds as u128 * 1_000_000_000,
        }
    }

    /// Number of clients that have a window.
    pub fn client_count(&self) -> (n: usize)
        ensures
            self.table().dom().finite(),
            n == self.table().len(),
    {
        proof {
            use_type_invariant(self);
            table_size(self.windows@);
        }
        self.windows.len()
    }

    /// The count and the start of the window of `client_id`, if it has one.
    pub fn window_of(&self, client_id: &str) -> (r: Option<(u32, u128)>)
        ensures
            match r {
                Some(w) => self.table().contains_key(client_id@) && self.table()[client_id@] == w,
                None => !self.table().contains_key(client_id@),
            },
    {
        let n: usize = self.windows.len();
        let mut i: usize = n;
        assert(self.windows@.take(n as int) =~= self.windows@);
        while i > 0
            invariant
                i <= n,
                n == self.windows@.len(),
                table_of(self.windows@).contains_key(client_id@) ==> table_of(
                    self.windows@.take(i as int),
                ).contains_key(client_id@) && table_of(self.windows@.take(i as int))[client_id@]
                    == table_of(self.windows@)[client_id@],
                table_of(self.windows@.take(i as int)).contains_key(client_id@) ==> table_of(
                    self.windows@,
                ).contains_key(client_id@),
            decreases i,
        {
            let ghost upto = self.windows@.take(i as int);
            assert(upto.drop_last() =~= self.windows@.take(i - 1));
            let w = &self.windows[i - 1];
            if str_eq(w.client.as_str(), client_id) {
                return Some((w.count, w.window_start));
            }
            i -= 1;
        }
        None
    }

    /// Admits or denies one request of `client_id` at the instant `now`, in
    /// nanoseconds on a clock that does not run backwards. The windows that have
    /// closed are dropped; the window of the client is counted up, or opened
    /// anew with this request as its first.
    pub fn admit_request(&mut self, client_id: &str, now: u128) -> (r: Admission)
        ensures
            final(self).table() == table_after(
                old(self).table(),
                client_id@,
                now,
                old(self).window(),
            ),
            r == admission(
                old(self).table(),
                client_id@,
                now,
                old(self).window(),
                old(self).max_requests(),
            ),
            final(self).max_requests() == old(self).max_requests(),
            final(self).window() == old(self).window(),
    {
        proof {
            use_type_invariant(&*self);
        }
        let window = self.window;
        let max_requests = self.max_requests;
        let mut queue: Vec<RateWindow> = Vec::new();
        std::mem::swap(&mut self.windows, &mut queue);
        let ghost before = table_of(queue@);
        let ghost client = client_id@;
        let mut kept: Vec<RateWindow> = Vec::new();
        let mut seen: Option<u32> = None;
        while queue.len() > 0
            invariant
                one_window_each(queue@),
                one_window_each(kept@),
                client == client_id@,
                forall|k: Seq<char>| #[trigger]
                    table_of(queue@).contains_key(k) ==> before.contains_key(k) && before[k]
                        == table_of(queue@)[k],
                forall|k: Seq<char>| #[trigger]
                    table_of(kept@).contains_key(k) ==> {
                        &&& before.contains_key(k)
                        &&& elapsed(now, before[k].1) < window
                        &&& !table_of(queue@).contains_key(k)
                        &&& table_of(kept@)[k] == (if k == client {
                            window_after(before, client, now, window)
                        } else {
                            before[k]
                        })
                    },
                forall|k: Seq<char>| #[trigger]
                    before.contains_key(k) && elapsed(now, before[k].1) < window ==> table_of(
                        queue@,
                    ).contains_key(k) || table_of(kept@).contains_key(k),
                match seen {
                    Some(count) => table_of(kept@).contains_key(client) && before[client].0
                        == count,
                    None => !table_of(kept@).contains_key(client),
                },
            decreases queue.len(),
        {
            let ghost queued = queue@;
            let ghost held = kept@;
            let w = queue.pop().unwrap();
            let ghost key = w.client@;
            proof {
                assert(table_of(queued).contains_key(key));
                assert forall|k: Seq<char>| #[trigger]
                    table_of(queue@).contains_key(k) implies before.contains_key(k) && before[k]
                    == table_of(queue@)[k] by {
                    assert(table_of(queued).contains_key(k));
                }
            }
            let age: u128 = if now >= w.window_start {
                now - w.window_start
            } else {
                0
            };
            if age < window {
                if str_eq(w.client.as_str(), client_id) {
                    seen = Some(w.count);
                    let count: u32 = if w.count < u32::MAX {
                        w.count + 1
                    } else {
                        u32::MAX
                    };
                    kept.push(RateWindow { client: w.client, count, window_start: w.window_start });
                    assert(kept@.drop_last() =~= held);
                    assert(table_of(kept@) == table_of(held).insert(
                        key,
                        window_after(before, client, now, window),
                    ));
                } else {
                    kept.push(w);
                    assert(kept@.drop_last() =~= held);
                }
            }
        }
        let r = match seen {
            Some(count) => {
                if count >= max_requests {
                    Admission::Denied
                } else {
                    Admission::Allowed
                }
            },
            None => {
                let ghost held = kept@;
                kept.push(RateWindow { client: client_id.to_owned(), count: 1, window_start: now });
                assert(kept@.drop_last() =~= held);
                if max_requests == 0 {
                    Admission::Denied
                } else {
                    Admission::Allowed
                }
            },
        };
        self.windows = kept;
        r
    }

    /// Admits or denies the request of the client that the forwarded-address
    /// header names, at the instant `now`.
    pub fn check_rate_limit(&mut self, forwarded_for: Option<&str>, now: u128) -> (r: Result<
        (),
        AppError,
    >)
        ensures
            final(self).table() == table_after(
                old(self).table(),
                client_of(opt_str(forwarded_for)),
                now,
                old(self).window(),
            ),
            r is Ok <==> admission(
                old(self).table(),
                client_of(opt_str(forwarded_for)),
                now,
                old(self).window(),
                old(self).max_requests(),
            ) == Admission::Allowed,
            r matches Err(e) ==> e@ == AppErrorView::RateLimitExceeded,
            final(self).max_requests() == old(self).max_requests(),
            final(self).window() == old(self).window(),
    {
        let client = client_identifier(forwarded_for);
        match self.admit_request(client.as_str(), now) {
            Admission::Allowed => Ok(()),
            Admission::Denied => Err(AppError::RateLimitExceeded),
        }
    }
}

/// The view of an optional string slice.
pub open spec fn opt_str(o: Option<&str>) -> Option<Seq<char>> {
    match o {
        Some(s) => Some(s@),
        None => None,
    }
}

/// The client that a forwarded-address header names: its first entry, without
/// the whitespace around it. Requests without the header share the client
/// `unknown`.
pub open spec fn client_of(forwarded_for: Option<Seq<char>>) -> Seq<char> {
    match forwarded_for {
        Some(v) => trimmed(first_field(v, ',')),
        None => "unknown"@,
    }
}

pub fn client_identifier(forwarded_for: Option<&str>) -> (client: String)
    ensures
        client@ == client_of(opt_str(forwarded_for)),
{
    match forwarded_for {
        Some(v) => first_field_trimmed(v, ','),
        None => "unknown".to_owned(),
    }
}

/// Within its window a client is denied once it has made `max_requests`
/// requests, and only then.
pub proof fn open_window_admits_up_to_max(
    table: Map<Seq<char>, (u32, u128)>,
    client: Seq<char>,
    now: u128,
    window: u128,
    max_requests: u32,
)
    requires
        table.contains_key(client),
        elapsed(now, table[client].1) < window,
    ensures
        admission(table, client, now, window, max_requests) == Admission::Denied
            <==> table[client].0 >= max_requests,
        table_after(table, client, now, window)[client].1 == table[client].1,
{
}

/// Once its window has closed, and for its first request, a client starts a
/// new window at `now` with this request as the only one, and is admitted
/// unless no request is allowed at all.
pub proof fn closed_window_starts_anew(
    table: Map<Seq<char>, (u32, u128)>,
    client: Seq<char>,
    now: u128,
    window: u128,
    max_requests: u32,
)
    requires
        !table.contains_key(client) || elapsed(now, table[client].1) >= window,
    ensures
        table_after(table, client, now, window)[client] == (1u32, now),
        admission(table, client, now, window, max_requests) == Admission::Allowed
            <==> max_requests >= 1,
{
}

/// Number of the requests of `client` that are admitted in a run of
/// requests, each of a client at an instant.
pub open spec fn admitted(
    table: Map<Seq<char>, (u32, u128)>,
    requests: Seq<(Seq<char>, u128)>,
    client: Seq<char>,
    window: u128,
    max_requests: u32,
) -> nat
    decreases requests.len(),
{
    if requests.len() == 0 {
        0
    } else {
        let first = if requests[0].0 == client && admission(
            table,
            client,
            requests[0].1,
            window,
            max_requests,
        ) == Admission::Allowed {
            1nat
        } else {
            0nat
        };
        first + admitted(
            table_after(table, requests[0].0, requests[0].1, window),
            requests.drop_first(),
            client,
            window,
            max_requests,
        )
    }
}

/// The instants of a run do not fall.
pub open spec fn in_order(requests: Seq<(Seq<char>, u128)>) -> bool {
    forall|i: int, j: int|
        0 <= i <= j < requests.len() ==> (#[trigger] requests[i]).1 <= (#[trigger] requests[j]).1
}

/// The requests that a window with `count` requests in it still admits.
pub open spec fn left_in_window(count: u32, max_requests: u32) -> nat {
    if count >= max_requests {
        0
    } else {
        (max_requests - count) as nat
    }
}

/// While the window of a client stays open, the client is admitted as often
/// as its window has requests left, and no more.
proof fn open_window_admits_what_is_left(
    table: Map<Seq<char>, (u32, u128)>,
    requests: Seq<(Seq<char>, u128)>,
    client: Seq<char>,
    window: u128,
    max_requests: u32,
)
    requires
        table.contains_key(client),
        forall|j: int|
            0 <= j < requests.len() ==> elapsed((#[trigger] requests[j]).1, table[client].1)
                < window,
    ensures
        admitted(table, requests, client, window, max_requests) <= left_in_window(
            table[client].0,
            max_requests,
        ),
    decreases requests.len(),
{
    if requests.len() > 0 {
        let rest = requests.drop_first();
        let next = table_after(table, requests[0].0, requests[0].1, window);
        assert(elapsed(requests[0].1, table[client].1) < window);
        assert(next.contains_key(client) && next[client].1 == table[client].1);
        assert forall|j: int| 0 <= j < rest.len() implies elapsed(
            (#[trigger] rest[j]).1,
            next[client].1,
        ) < window by {
            assert(rest[j] == requests[j + 1]);
        }
        open_window_admits_what_is_left(next, rest, client, window, max_requests);
    }
}

/// What a run that spans less than a window admits of a client: what its
/// window has left, and one window more.
proof fn short_run_admits_two_windows(
    table: Map<Seq<char>, (u32, u128)>,
    requests: Seq<(Seq<char>, u128)>,
    client: Seq<char>,
    window: u128,
    max_requests: u32,
)
    requires
        in_order(requests),
        requests.len() > 0 ==> requests.last().1 - requests[0].1 < window,
    ensures
        admitted(table, requests, client, window, max_requests) <= (if table.contains_key(
            client,
        ) {
            left_in_window(table[client].0, max_requests) + max_requests
        } else {
            max_requests as int
        }),
    decreases requests.len(),
{
    if requests.len() > 0 {
        let rest = requests.drop_first();
        let at = requests[0].1;
        let next = table_after(table, requests[0].0, at, window);
        assert forall|i: int, j: int| 0 <= i <= j < rest.len() implies (#[trigger] rest[i]).1 <= (
        #[trigger] rest[j]).1 by {
            assert(rest[i] == requests[i + 1]);
            assert(rest[j] == requests[j + 1]);
        }
        if rest.len() > 0 {
            assert(rest.last() == requests.last());
            assert(rest[0] == requests[1]);
            assert(requests[0].1 <= requests[1].1);
        }
        if requests[0].0 == client && !live_at(table, at, window).contains_key(client) {
            assert(next[client] == (1u32, at));
            assert forall|j: int| 0 <= j < rest.len() implies elapsed(
                (#[trigger] rest[j]).1,
                next[client].1,
            ) < window by {
                assert(rest[j] == requests[j + 1]);
                assert(requests[0].1 <= requests[j + 1].1);
                assert(requests[j + 1].1 <= requests[requests.len() - 1].1);
            }
            open_window_admits_what_is_left(next, rest, client, window, max_requests);
        } else {
            short_run_admits_two_windows(next, rest, client, window, max_requests);
        }
    }
}

/// In a run of requests that spans less than a window, a client is admitted
/// at most twice as often as a window allows: once to the end of the window
/// that it is in, and once in the window that it opens then.
pub proof fn burst_is_at_most_twice_the_limit(
    table: Map<Seq<char>, (u32, u128)>,
    requests: Seq<(Seq<char>, u128)>,
    client: Seq<char>,
    window: u128,
    max_requests: u32,
)
    requires
        in_order(requests),
        requests.len() > 0 ==> requests.last().1 - requests[0].1 < window,
    ensures
        admitted(table, requests, client, window, max_requests) <= 2 * max_requests,
{
    short_run_admits_two_windows(table, requests, client, window, max_requests);
}

/// A request of one client changes the window of no other client; it only
/// drops the windows that have closed.
pub proof fn other_clients_keep_their_window(
    table: Map<Seq<char>, (u32, u128)>,
    client: Seq<char>,
    other: Seq<char>,
    now: u128,
    window: u128,
)
    requires
        other != client,
        table.contains_key(other),
    ensures
        elapsed(now, table[other].1) < window ==> table_after(
            table,
            client,
            now,
            window,
        ).contains_key(other) && table_after(table, client, now, window)[other] == table[other],
        elapsed(now, table[other].1) >= window ==> !table_after(
            table,
            client,
            now,
            window,
        ).contains_key(other),
{
}

/// One entry of the set of trusted hosts.
#[derive(Debug, Clone)]
pub enum HostRule {
    /// This host and no other.
    Exact(String),
    /// Every host that ends with this text.
    Suffix(String),
}

/// Mathematical value of a [`HostRule`].
pub enum HostRuleView {
    Exact(Seq<char>),
    Suffix(Seq<char>),
}

impl View for HostRule {
    type V = HostRuleView;

    open spec fn view(&self) -> HostRuleView {
        match self {
            HostRule::Exact(h) => HostRuleView::Exact(h@),
            HostRule::Suffix(s) => HostRuleView::Suffix(s@),
        }
    }
}

impl HostRuleView {
    pub open spec fn matches(self, host: Seq<char>) -> bool {
        match self {
            HostRuleView::Exact(h) => host == h,
            HostRuleView::Suffix(s) => has_suffix(host, s),
        }
    }
}

impl HostRule {
    pub fn matches(&self, host: &str) -> (r: bool)
        ensures
            r == self@.matches(host@),
    {
        match self {
            HostRule::Exact(h) => str_eq(host, h.as_str()),
            HostRule::Suffix(s) => ends_with(host, s.as_str()),
        }
    }
}

/// What a request says in one of the two headers that name its source.
#[derive(Debug, Clone)]
pub enum SourceHost {
    /// The header is not there.
    Absent,
    /// The header is there and names no host.
    Unreadable,
    /// The header names this host.
    Host(String),
}

/// Mathematical value of a [`SourceHost`].
pub enum SourceHostView {
    Absent,
    Unreadable,
    Host(Seq<char>),
}

impl View for SourceHost {
    type V = SourceHostView;

    open spec fn view(&self) -> SourceHostView {
        match self {
            SourceHost::Absent => SourceHostView::Absent,
            SourceHost::Unreadable => SourceHostView::Unreadable,
            SourceHost::Host(h) => SourceHostView::Host(h@),
        }
    }
}

/// What a header says, given its value, if it is there, and the host that
/// the value names, if it names one.
pub open spec fn source_host(value: Option<Seq<char>>, host: Option<Seq<char>>) -> SourceHostView {
    match value {
        None => SourceHostView::Absent,
        Some(_) => match host {
            Some(h) => SourceHostView::Host(h),
            None => SourceHostView::Unreadable,
        },
    }
}

/// What the `Origin` header with this value says.
pub open spec fn origin_source(value: Option<Seq<char>>) -> SourceHostView {
    match value {
        None => SourceHostView::Absent,
        Some(v) => source_host(value, origin_host(v)),
    }
}

/// What the `Referer` header with this value says.
pub open spec fn referer_source(value: Option<Seq<char>>) -> SourceHostView {
    match value {
        None => SourceHostView::Absent,
        Some(v) => source_host(value, referer_host(v)),
    }
}

/// Methods that change no state: `GET`, `HEAD` and `OPTIONS`.
pub open spec fn is_safe_method(method: Seq<char>) -> bool {
    method == "GET"@ || method == "HEAD"@ || method == "OPTIONS"@
}

/// Whether one of `rules` matches `host`.
pub open spec fn trusted(rules: Seq<HostRuleView>, host: Seq<char>) -> bool {
    exists|i: int| 0 <= i < rules.len() && (#[trigger] rules[i]).matches(host)
}

/// Whether a request passes the origin check: its method is safe; or its
/// `Origin` names a trusted host; or it has no `Origin` and its `Referer`
/// names a trusted host. A request with neither header does not pass.
pub open spec fn passes_origin_check(
    rules: Seq<HostRuleView>,
    method: Seq<char>,
    origin: SourceHostView,
    referer: SourceHostView,
) -> bool {
    is_safe_method(method) || match origin {
        SourceHostView::Host(h) => trusted(rules, h),
        SourceHostView::Unreadable => false,
        SourceHostView::Absent => match referer {
            SourceHostView::Host(h) => trusted(rules, h),
            _ => false,
        },
    }
}

/// The set of trusted hosts.
#[derive(Debug, Clone)]
pub struct OriginGuard {
    pub rules: Vec<HostRule>,
}

impl View for OriginGuard {
    type V = Seq<HostRuleView>;

    open spec fn view(&self) -> Seq<HostRuleView> {
        Seq::new(self.rules@.len(), |i: int| self.rules@[i]@)
    }
}

impl OriginGuard {
    pub fn new(rules: Vec<HostRule>) -> (guard: OriginGuard)
        ensures
            guard.rules == rules,
    {
        OriginGuard { rules }
    }

    /// Whether `host` is trusted.
    pub fn trusts(&self, host: &str) -> (r: bool)
        ensures
            r == trusted(self@, host@),
    {
        let n: usize = self.rules.len();
        let mut i: usize = 0;
        while i < n
            invariant
                i <= n,
                n == self.rules@.len(),
                forall|j: int| 0 <= j < i ==> !(#[trigger] self@[j]).matches(host@),
            decreases n - i,
        {
            if self.rules[i].matches(host) {
                assert(self@[i as int].matches(host@));
                return true;
            }
            i += 1;
        }
        false
    }

    fn trusts_source(&self, source: &SourceHost) -> (r: bool)
        ensures
            r == (source@ matches SourceHostView::Host(h) && trusted(self@, h)),
    {
        match source {
            SourceHost::Host(h) => self.trusts(h.as_str()),
            _ => false,
        }
    }

    /// Decides the origin check for a request, given what its two headers
    /// say.
    pub fn decide(&self, method: &str, origin: &SourceHost, referer: &SourceHost) -> (r: Result<
        (),
        AppError,
    >)
        ensures
            r is Ok <==> passes_origin_check(self@, method@, origin@, referer@),
            r matches Err(e) ==> e@ == AppErrorView::Forbidden("invalid origin/referer"@),
    {
        if str_eq(method, "GET") || str_eq(method, "HEAD") || str_eq(method, "OPTIONS") {
            return Ok(());
        }
        let passes = match origin {
            SourceHost::Absent => self.trusts_source(referer),
            _ => self.trusts_source(origin),
        };
        if passes {
            Ok(())
        } else {
            Err(AppError::Forbidden("invalid origin/referer".to_owned()))
        }
    }
}

impl Default for OriginGuard {
    /// Trusts `localhost` and every host under `.your-domain.com`.
    fn default() -> (guard: OriginGuard)
        ensures
            guard@ == seq![
                HostRuleView::Exact("localhost"@),
                HostRuleView::Suffix(".your-domain.com"@),
            ],
    {
        let mut rules: Vec<HostRule> = Vec::new();
        rules.push(HostRule::Exact("localhost".to_owned()));
        rules.push(HostRule::Suffix(".your-domain.com".to_owned()));
        let guard = OriginGuard { rules };
        assert(guard@ =~= seq![
            HostRuleView::Exact("localhost"@),
            HostRuleView::Suffix(".your-domain.com"@),
        ]);
        guard
    }
}

/// What the `Origin` header with this value says.
pub fn read_origin(value: Option<&str>) -> (source: SourceHost)
    ensures
        source@ == origin_source(opt_str(value)),
{
    match value {
        None => SourceHost::Absent,
        Some(v) => match parse_origin_host(v) {
            Some(h) => SourceHost::Host(h),
            None => SourceHost::Unreadable,
        },
    }
}

/// What the `Referer` header with this value says.
pub fn read_referer(value: Option<&str>) -> (source: SourceHost)
    ensures
        source@ == referer_source(opt_str(value)),
{
    match value {
        None => SourceHost::Absent,
        Some(v) => match parse_referer_host(v) {
            Some(h) => SourceHost::Host(h),
            None => SourceHost::Unreadable,
        },
    }
}

/// The views of the values of a header: the text of each value, or `None`
/// for a value that is no visible text.
pub open spec fn values_view(values: Seq<Option<String>>) -> Seq<Option<Seq<char>>> {
    Seq::new(values.len(), |i: int| opt_text(values[i]))
}

/// The one value of a header, as a request may carry a header any number of
/// times: nothing where the header does not stand; the text where it stands
/// once with a visible text; and `None` within, for a header that cannot be
/// read, where it stands more than once or with a value that is no visible
/// text.
pub open spec fn single_value(values: Seq<Option<Seq<char>>>) -> Option<Option<Seq<char>>> {
    if values.len() == 0 {
        None
    } else if values.len() == 1 {
        Some(values[0])
    } else {
        Some(None)
    }
}

/// What the `Origin` header says that stands with these values.
pub open spec fn origin_values_source(values: Seq<Option<Seq<char>>>) -> SourceHostView {
    match single_value(values) {
        None => SourceHostView::Absent,
        Some(None) => SourceHostView::Unreadable,
        Some(Some(v)) => origin_source(Some(v)),
    }
}

/// What the `Referer` header says that stands with these values.
pub open spec fn referer_values_source(values: Seq<Option<Seq<char>>>) -> SourceHostView {
    match single_value(values) {
        None => SourceHostView::Absent,
        Some(None) => SourceHostView::Unreadable,
        Some(Some(v)) => referer_source(Some(v)),
    }
}

/// What the `Origin` header says that stands with these values.
pub fn read_origin_values(values: &Vec<Option<String>>) -> (source: SourceHost)
    ensures
        source@ == origin_values_source(values_view(values@)),
{
    if values.len() == 0 {
        SourceHost::Absent
    } else if values.len() == 1 {
        match &values[0] {
            Some(v) => read_origin(Some(v.as_str())),
            None => SourceHost::Unreadable,
        }
    } else {
        SourceHost::Unreadable
    }
}

/// What the `Referer` header says that stands with these values.
pub fn read_referer_values(values: &Vec<Option<String>>) -> (source: SourceHost)
    ensures
        source@ == referer_values_source(values_view(values@)),
{
    if values.len() == 0 {
        SourceHost::Absent
    } else if values.len() == 1 {
        match &values[0] {
            Some(v) => read_referer(Some(v.as_str())),
            None => SourceHost::Unreadable,
        }
    } else {
        SourceHost::Unreadable
    }
}

/// The origin check for a request with this method and all the values that
/// its `Origin` and `Referer` headers stand with.
pub fn check_request_origin(
    guard: &OriginGuard,
    method: &str,
    origin_values: &Vec<Option<String>>,
    referer_values: &Vec<Option<String>>,
) -> (r: Result<(), AppError>)
    ensures
        r is Ok <==> passes_origin_check(
            guard@,
            method@,
            origin_values_source(values_view(origin_values@)),
            referer_values_source(values_view(referer_values@)),
        ),
        r matches Err(e) ==> e@ == AppErrorView::Forbidden("invalid origin/referer"@),
{
    let origin = read_origin_values(origin_values);
    let referer = read_referer_values(referer_values);
    guard.decide(method, &origin, &referer)
}

/// The origin check for a request with this method and these values of the
/// `Origin` and `Referer` headers.
pub fn csrf_protection(
    guard: &OriginGuard,
    method: &str,
    origin: Option<&str>,
    referer: Option<&str>,
) -> (r: Result<(), AppError>)
    ensures
        r is Ok <==> passes_origin_check(
            guard@,
            method@,
            origin_source(opt_str(origin)),
            referer_source(opt_str(referer)),
        ),
        r matches Err(e) ==> e@ == AppErrorView::Forbidden("invalid origin/referer"@),
{
    let origin = read_origin(origin);
    let referer = read_referer(referer);
    guard.decide(method, &origin, &referer)
}

/// A request with a safe method passes, whatever its headers say.
pub proof fn safe_methods_pass(
    rules: Seq<HostRuleView>,
    method: Seq<char>,
    origin: SourceHostView,
    referer: SourceHostView,
)
    requires
        is_safe_method(method),
    ensures
        passes_origin_check(rules, method, origin, referer),
{
}

/// A state-changing request without `Origin` and without `Referer` does not
/// pass, and one whose `Origin` names a host that is not trusted does not
/// pass either, whatever its `Referer` says.
pub proof fn unsafe_methods_need_a_trusted_source(
    rules: Seq<HostRuleView>,
    method: Seq<char>,
    host: Seq<char>,
    referer: SourceHostView,
)
    requires
        !is_safe_method(method),
    ensures
        !passes_origin_check(rules, method, SourceHostView::Absent, SourceHostView::Absent),
        !trusted(rules, host) ==> !passes_origin_check(
            rules,
            method,
            SourceHostView::Host(host),
            referer,
        ),
{
}

/// The defensive headers, by name and value.
pub open spec fn header_policy() -> Seq<(Seq<char>, Seq<char>)> {
    seq![
        ("X-Frame-Options"@, "DENY"@),
        ("X-Content-Type-Options"@, "nosniff"@),
        ("X-XSS-Protection"@, "1; mode=block"@),
        ("Strict-Transport-Security"@, "max-age=31536000; includeSubDomains"@),
        (
            "Content-Security-Policy"@,
            "default-src 'self'; script-src 'self' 'unsafe-inline' 'unsafe-eval'; style-src 'self' 'unsafe-inline'; img-src 'self' data: https:; font-src 'self'; connect-src 'self'; frame-ancestors 'none';"@,
        ),
        ("Referrer-Policy"@, "strict-origin-when-cross-origin"@),
        (
            "Permissions-Policy"@,
            "camera=(), microphone=(), geolocation=(), payment=(), usb=(), magnetometer=(), gyroscope=()"@,
        ),
    ]
}

/// No two of the defensive headers have one name, so the order in which they
/// are attached does not matter.
pub proof fn policy_names_differ()
    ensures
        forall|i: int, j: int|
            0 <= i < j < header_policy().len() ==> (#[trigger] header_policy()[i]).0 != (
            #[trigger] header_policy()[j]).0,
{
    reveal_strlit("X-Frame-Options");
    reveal_strlit("X-Content-Type-Options");
    reveal_strlit("X-XSS-Protection");
    reveal_strlit("Strict-Transport-Security");
    reveal_strlit("Content-Security-Policy");
    reveal_strlit("Referrer-Policy");
    reveal_strlit("Permissions-Policy");
    let names = header_policy();
    assert(names.len() == 7);
    assert(names[0].0.len() == 15 && names[0].0[0] == 'X');
    assert(names[1].0.len() == 22);
    assert(names[2].0.len() == 16);
    assert(names[3].0.len() == 25);
    assert(names[4].0.len() == 23);
    assert(names[5].0.len() == 15 && names[5].0[0] == 'R');
    assert(names[6].0.len() == 18);
}

/// The view of a list of headers.
pub open spec fn headers_view(headers: Seq<(&'static str, &'static str)>) -> Seq<
    (Seq<char>, Seq<char>),
> {
    Seq::new(headers.len(), |i: int| (headers[i].0@, headers[i].1@))
}

/// The headers that every response gets.
pub fn security_headers() -> (headers: Vec<(&'static str, &'static str)>)
    ensures
        headers_view(headers@) == header_policy(),
{
    let mut headers: Vec<(&'static str, &'static str)> = Vec::new();
    headers.push(("X-Frame-Options", "DENY"));
    headers.push(("X-Content-Type-Options", "nosniff"));
    headers.push(("X-XSS-Protection", "1; mode=block"));
    headers.push(("Strict-Transport-Security", "max-age=31536000; includeSubDomains"));
    headers.push(
        (
            "Content-Security-Policy",
            "default-src 'self'; script-src 'self' 'unsafe-inline' 'unsafe-eval'; style-src 'self' 'unsafe-inline'; img-src 'self' data: https:; font-src 'self'; connect-src 'self'; frame-ancestors 'none';",
        ),
    );
    headers.push(("Referrer-Policy", "strict-origin-when-cross-origin"));
    headers.push(
        (
            "Permissions-Policy",
            "camera=(), microphone=(), geolocation=(), payment=(), usb=(), magnetometer=(), gyroscope=()",
        ),
    );
    headers
}

/// Name of the header that carries the identifier of a request, inbound and
/// outbound.
pub const REQUEST_ID_HEADER: &'static str = "x-request-id";

/// The header that tags one request and its response: a fresh identifier
/// under the name `x-request-id`. The identifier has 36 characters, digits to
/// the base 16 and hyphens, so that it can stand as the value of a header.
pub fn request_id() -> (tag: (&'static str, String))
    ensures
        tag.0@ == "x-request-id"@,
        is_hyphenated_id(tag.1@),
{
    (REQUEST_ID_HEADER, fresh_id())
}

} // verus!
