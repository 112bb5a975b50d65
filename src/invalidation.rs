use vstd::prelude::*;
use vstd::string::StringExecFns;

use crate::strategy::{secs_to_millis, Ttl, DEFAULT_TTL_MILLIS};
use crate::tier::{bump, bump_counter};

verus! {

/// A message on the invalidation bus.
#[derive(Clone, Debug, PartialEq, Eq)]
pub enum InvalidationMessage {
    /// Remove one key everywhere.
    Remove { key: String },
    /// Store new encoded bytes under a key everywhere.
    Update { key: String, value: Vec<u8>, ttl_secs: Option<u64> },
    /// Remove every key that matches a glob pattern.
    RemovePattern { pattern: String },
    /// Remove several keys at once.
    RemoveBulk { keys: Vec<String> },
}

/// What a received message does to one key of the local top tier.
pub enum StoreOp {
    Del(Seq<char>),
    Put(Seq<char>, Seq<u8>, nat),
}

/// One change to make in the local top tier.
#[derive(Clone, Debug, PartialEq, Eq)]
pub enum TierAction {
    Remove { key: String },
    Store { key: String, value: Vec<u8>, ttl: Ttl },
}

impl TierAction {
    pub open spec fn view(&self) -> StoreOp {
        match self {
            TierAction::Remove { key } => StoreOp::Del(key@),
            TierAction::Store { key, value, ttl } => StoreOp::Put(key@, value@, ttl.millis as nat),
        }
    }
}

/// The TTL, in milliseconds, that an update carrying `ttl_secs` is stored with.
pub open spec fn update_ttl_millis(ttl_secs: Option<u64>) -> nat {
    match ttl_secs {
        Some(s) => secs_to_millis(s as nat),
        None => DEFAULT_TTL_MILLIS as nat,
    }
}

/// One removal per key, in order.
pub open spec fn removals(keys: Seq<String>) -> Seq<StoreOp> {
    Seq::new(keys.len(), |i: int| StoreOp::Del(keys[i]@))
}

/// The changes a received message makes to the local top tier.
pub open spec fn ops_of(m: InvalidationMessage) -> Seq<StoreOp> {
    match m {
        InvalidationMessage::Remove { key } => seq![StoreOp::Del(key@)],
        InvalidationMessage::Update { key, value, ttl_secs } => seq![
            StoreOp::Put(key@, value@, update_ttl_millis(ttl_secs)),
        ],
        InvalidationMessage::RemovePattern { .. } => Seq::empty(),
        InvalidationMessage::RemoveBulk { keys } => removals(keys@),
    }
}

/// A store: each key's bytes and TTL in milliseconds.
pub open spec fn apply_op(s: Map<Seq<char>, (Seq<u8>, nat)>, op: StoreOp) -> Map<
    Seq<char>,
    (Seq<u8>, nat),
> {
    match op {
        StoreOp::Del(k) => s.remove(k),
        StoreOp::Put(k, v, t) => s.insert(k, (v, t)),
    }
}

pub open spec fn apply_ops(s: Map<Seq<char>, (Seq<u8>, nat)>, ops: Seq<StoreOp>) -> Map<
    Seq<char>,
    (Seq<u8>, nat),
>
    decreases ops.len(),
{
    if ops.len() == 0 {
        s
    } else {
        apply_ops(apply_op(s, ops[0]), ops.drop_first())
    }
}

/// The local top tier after a received message is applied to it.
pub open spec fn message_effect(s: Map<Seq<char>, (Seq<u8>, nat)>, m: InvalidationMessage) -> Map<
    Seq<char>,
    (Seq<u8>, nat),
> {
    apply_ops(s, ops_of(m))
}

impl InvalidationMessage {
    pub fn remove(key: &str) -> (r: InvalidationMessage)
        ensures
            r matches InvalidationMessage::Remove { key: k } && k@ == key@,
    {
        InvalidationMessage::Remove { key: key.to_owned() }
    }

    /// An update carrying `value`; its TTL travels in whole seconds.
    pub fn update(key: &str, value: Vec<u8>, ttl: Option<Ttl>) -> (r: InvalidationMessage)
        ensures
            r matches InvalidationMessage::Update { key: k, value: v, ttl_secs } && k@ == key@
                && v == value && ttl_secs == (match ttl {
                Some(t) => Some((t.millis / 1000) as u64),
                None => None::<u64>,
            }),
    {
        let ttl_secs = match ttl {
            Some(t) => Some(t.as_secs()),
            None => None,
        };
        InvalidationMessage::Update { key: key.to_owned(), value, ttl_secs }
    }

    pub fn remove_pattern(pattern: &str) -> (r: InvalidationMessage)
        ensures
            r matches InvalidationMessage::RemovePattern { pattern: p } && p@ == pattern@,
    {
        InvalidationMessage::RemovePattern { pattern: pattern.to_owned() }
    }

    pub fn remove_bulk(keys: Vec<String>) -> (r: InvalidationMessage)
        ensures
            r == (InvalidationMessage::RemoveBulk { keys }),
    {
        InvalidationMessage::RemoveBulk { keys }
    }

    /// The TTL of an update; other messages carry none.
    pub fn ttl(&self) -> (r: Option<Ttl>)
        ensures
            r == (match self {
                InvalidationMessage::Update { ttl_secs: Some(s), .. } => Some(
                    Ttl { millis: secs_to_millis(*s as nat) as u64 },
                ),
                _ => None::<Ttl>,
            }),
    {
        match self {
            InvalidationMessage::Update { ttl_secs: Some(s), .. } => Some(Ttl::from_secs(*s)),
            _ => None,
        }
    }

    /// The changes that this message, once received, makes to the local top tier:
    /// removals for `Remove` and `RemoveBulk`, one write for `Update`, and none
    /// for `RemovePattern`, whose keys there expire on their own.
    pub fn local_actions(&self) -> (r: Vec<TierAction>)
        ensures
            r@.len() == ops_of(*self).len(),
            forall|i: int| 0 <= i < r@.len() ==> #[trigger] r@[i].view() == ops_of(*self)[i],
    {
        match self {
            InvalidationMessage::Remove { key } => {
                let mut v: Vec<TierAction> = Vec::new();
                v.push(TierAction::Remove { key: key.clone() });
                v
            },
            InvalidationMessage::Update { key, value, ttl_secs } => {
                let ttl = match ttl_secs {
                    Some(s) => Ttl::from_secs(*s),
                    None => Ttl::from_millis(DEFAULT_TTL_MILLIS),
                };
                let mut v: Vec<TierAction> = Vec::new();
                v.push(TierAction::Store { key: key.clone(), value: value.clone(), ttl });
                v
            },
            InvalidationMessage::RemovePattern { .. } => Vec::new(),
            InvalidationMessage::RemoveBulk { keys } => {
                let mut v: Vec<TierAction> = Vec::new();
                let mut i: usize = 0;
                while i < keys.len()
                    invariant
                        i <= keys@.len(),
                        v@.len() == i,
                        forall|j: int| 0 <= j < i ==> #[trigger] v@[j].view() == StoreOp::Del(keys@[j]@),
                    decreases keys@.len() - i,
                {
                    v.push(TierAction::Remove { key: keys[i].clone() });
                    i = i + 1;
                }
                v
            },
        }
    }
}

/// The keys named in `keys`, as a set.
pub open spec fn key_set(keys: Seq<String>) -> Set<Seq<char>> {
    Set::new(|k: Seq<char>| exists|i: int| 0 <= i < keys.len() && #[trigger] keys[i]@ == k)
}

/// Removing the keys one by one removes exactly the set of them.
pub proof fn lemma_removals_remove_keys(s: Map<Seq<char>, (Seq<u8>, nat)>, keys: Seq<String>)
    ensures
        apply_ops(s, removals(keys)) == s.remove_keys(key_set(keys)),
    decreases keys.len(),
{
    let ks = key_set(keys);
    if keys.len() == 0 {
        assert(ks =~= Set::empty());
        assert(s.remove_keys(ks) =~= s);
    } else {
        let rest = keys.drop_first();
        let rs = key_set(rest);
        assert(removals(keys).drop_first() =~= removals(rest));
        lemma_removals_remove_keys(s.remove(keys[0]@), rest);
        assert(ks =~= rs.insert(keys[0]@)) by {
            assert forall|k: Seq<char>| ks.contains(k) <==> rs.insert(keys[0]@).contains(k) by {
                if ks.contains(k) {
                    let i = choose|i: int| 0 <= i < keys.len() && #[trigger] keys[i]@ == k;
                    if i > 0 {
                        assert(rest[i - 1]@ == k);
                    }
                }
                if rs.contains(k) {
                    let i = choose|i: int| 0 <= i < rest.len() && #[trigger] rest[i]@ == k;
                    assert(keys[i + 1]@ == k);
                }
                if k == keys[0]@ {
                    assert(keys[0]@ == k);
                }
            }
        }
        assert(s.remove(keys[0]@).remove_keys(rs) =~= s.remove_keys(ks));
    }
}

proof fn lemma_apply_single(s: Map<Seq<char>, (Seq<u8>, nat)>, op: StoreOp)
    ensures
        apply_ops(s, seq![op]) == apply_op(s, op),
{
    assert(seq![op].drop_first() =~= Seq::<StoreOp>::empty());
    assert(apply_ops(apply_op(s, op), Seq::<StoreOp>::empty()) == apply_op(s, op));
}

/// Applying any received message a second time changes nothing more: in
/// particular a repeated `Remove { k }` acts as one, and a repeated update as one.
pub proof fn lemma_apply_twice_same_as_once(s: Map<Seq<char>, (Seq<u8>, nat)>, m: InvalidationMessage)
    ensures
        message_effect(message_effect(s, m), m) == message_effect(s, m),
{
    match m {
        InvalidationMessage::Remove { key } => {
            lemma_apply_single(s, StoreOp::Del(key@));
            lemma_apply_single(s.remove(key@), StoreOp::Del(key@));
            assert(s.remove(key@).remove(key@) =~= s.remove(key@));
        },
        InvalidationMessage::Update { key, value, ttl_secs } => {
            let t = update_ttl_millis(ttl_secs);
            lemma_apply_single(s, StoreOp::Put(key@, value@, t));
            lemma_apply_single(s.insert(key@, (value@, t)), StoreOp::Put(key@, value@, t));
            assert(s.insert(key@, (value@, t)).insert(key@, (value@, t)) =~= s.insert(key@, (value@, t)));
        },
        InvalidationMessage::RemovePattern { .. } => {},
        InvalidationMessage::RemoveBulk { keys } => {
            let ks = key_set(keys@);
            lemma_removals_remove_keys(s, keys@);
            lemma_removals_remove_keys(s.remove_keys(ks), keys@);
            assert(s.remove_keys(ks).remove_keys(ks) =~= s.remove_keys(ks));
        },
    }
}

/// Two updates of the same key, one after the other, leave the local top tier as
/// the later update alone would.
pub proof fn lemma_later_update_wins(
    s: Map<Seq<char>, (Seq<u8>, nat)>,
    first: InvalidationMessage,
    second: InvalidationMessage,
)
    requires
        first is Update,
        second is Update,
        first->Update_key@ == second->Update_key@,
    ensures
        message_effect(message_effect(s, first), second) == message_effect(s, second),
{
    let k = first->Update_key@;
    let a = (first->Update_value@, update_ttl_millis(first->Update_ttl_secs));
    let b = (second->Update_value@, update_ttl_millis(second->Update_ttl_secs));
    lemma_apply_single(s, StoreOp::Put(k, a.0, a.1));
    lemma_apply_single(s, StoreOp::Put(k, b.0, b.1));
    lemma_apply_single(s.insert(k, a), StoreOp::Put(k, b.0, b.1));
    assert(s.insert(k, a).insert(k, b) =~= s.insert(k, b));
}

/// Settings of the invalidation bus.
#[derive(Clone, Debug)]
pub struct InvalidationConfig {
    /// Channel that messages are published on.
    pub channel: String,
    /// Whether writes broadcast an update by themselves.
    pub auto_broadcast_on_write: bool,
    /// Whether each published message is also appended to the audit stream.
    pub enable_audit_stream: bool,
    /// Name of the audit stream.
    pub audit_stream: String,
    /// Approximate length the audit stream is trimmed to.
    pub audit_stream_maxlen: Option<usize>,
}

impl Default for InvalidationConfig {
    fn default() -> (r: Self)
        ensures
            r.channel@ == "cache:invalidate"@,
            !r.auto_broadcast_on_write,
            !r.enable_audit_stream,
            r.audit_stream@ == "cache:invalidations"@,
            r.audit_stream_maxlen == Some(10_000usize),
    {
        InvalidationConfig {
            channel: "cache:invalidate".to_owned(),
            auto_broadcast_on_write: false,
            enable_audit_stream: false,
            audit_stream: "cache:invalidations".to_owned(),
            audit_stream_maxlen: Some(10_000),
        }
    }
}

/// A snapshot of the bus counters.
#[derive(Clone, Copy, Debug, PartialEq, Eq, Structural)]
pub struct InvalidationStats {
    pub messages_sent: u64,
    pub messages_received: u64,
    pub removes_received: u64,
    pub updates_received: u64,
    pub patterns_received: u64,
    pub bulk_removes_received: u64,
    pub processing_errors: u64,
}

impl Default for InvalidationStats {
    fn default() -> (r: Self)
        ensures
            r == (InvalidationStats {
                messages_sent: 0,
                messages_received: 0,
                removes_received: 0,
                updates_received: 0,
                patterns_received: 0,
                bulk_removes_received: 0,
                processing_errors: 0,
            }),
    {
        InvalidationStats {
            messages_sent: 0,
            messages_received: 0,
            removes_received: 0,
            updates_received: 0,
            patterns_received: 0,
            bulk_removes_received: 0,
            processing_errors: 0,
        }
    }
}

/// The running counters of the invalidation bus, shared by the publisher and
/// the subscriber; each counter stops at the largest `u64`.
#[derive(Debug)]
pub struct AtomicInvalidationStats {
    pub messages_sent: u64,
    pub messages_received: u64,
    pub removes_received: u64,
    pub updates_received: u64,
    pub patterns_received: u64,
    pub bulk_removes_received: u64,
    pub processing_errors: u64,
}

impl Default for AtomicInvalidationStats {
    fn default() -> (r: Self)
        ensures
            r.messages_sent == 0,
            r.messages_received == 0,
            r.removes_received == 0,
            r.updates_received == 0,
            r.patterns_received == 0,
            r.bulk_removes_received == 0,
            r.processing_errors == 0,
    {
        AtomicInvalidationStats {
            messages_sent: 0,
            messages_received: 0,
            removes_received: 0,
            updates_received: 0,
            patterns_received: 0,
            bulk_removes_received: 0,
            processing_errors: 0,
        }
    }
}

impl AtomicInvalidationStats {
    pub open spec fn view(&self) -> InvalidationStats {
        InvalidationStats {
            messages_sent: self.messages_sent,
            messages_received: self.messages_received,
            removes_received: self.removes_received,
            updates_received: self.updates_received,
            patterns_received: self.patterns_received,
            bulk_removes_received: self.bulk_removes_received,
            processing_errors: self.processing_errors,
        }
    }

    /// The counters as they stand.
    pub fn snapshot(&self) -> (r: InvalidationStats)
        ensures
            r == self@,
    {
        InvalidationStats {
            messages_sent: self.messages_sent,
            messages_received: self.messages_received,
            removes_received: self.removes_received,
            updates_received: self.updates_received,
            patterns_received: self.patterns_received,
            bulk_removes_received: self.bulk_removes_received,
            processing_errors: self.processing_errors,
        }
    }

    /// Counts one published message.
    pub fn record_sent(&mut self)
        ensures
            final(self)@ == (InvalidationStats { messages_sent: bump(old(self).messages_sent), ..old(self)@ }),
    {
        bump_counter(&mut self.messages_sent);
    }

    /// Counts one message that could not be read or applied.
    pub fn record_error(&mut self)
        ensures
            final(self)@ == (InvalidationStats {
                processing_errors: bump(old(self).processing_errors),
                ..old(self)@
            }),
    {
        bump_counter(&mut self.processing_errors);
    }

    /// Counts one received message, in the total and under its kind.
    pub fn record_received(&mut self, message: &InvalidationMessage)
        ensures
            final(self)@ == (match message {
                InvalidationMessage::Remove { .. } => InvalidationStats {
                    messages_received: bump(old(self).messages_received),
                    removes_received: bump(old(self).removes_received),
                    ..old(self)@
                },
                InvalidationMessage::Update { .. } => InvalidationStats {
                    messages_received: bump(old(self).messages_received),
                    updates_received: bump(old(self).updates_received),
                    ..old(self)@
                },
                InvalidationMessage::RemovePattern { .. } => InvalidationStats {
                    messages_received: bump(old(self).messages_received),
                    patterns_received: bump(old(self).patterns_received),
                    ..old(self)@
                },
                InvalidationMessage::RemoveBulk { .. } => InvalidationStats {
                    messages_received: bump(old(self).messages_received),
                    bulk_removes_received: bump(old(self).bulk_removes_received),
                    ..old(self)@
                },
            }),
    {
        bump_counter(&mut self.messages_received);
        match message {
            InvalidationMessage::Remove { .. } => bump_counter(&mut self.removes_received),
            InvalidationMessage::Update { .. } => bump_counter(&mut self.updates_received),
            InvalidationMessage::RemovePattern { .. } => bump_counter(&mut self.patterns_received),
            InvalidationMessage::RemoveBulk { .. } => bump_counter(&mut self.bulk_removes_received),
        }
    }
}

/// The decimal digit `d`.
pub open spec fn digit_char(d: nat) -> char {
    if d == 0 { '0' }
    else if d == 1 { '1' }
    else if d == 2 { '2' }
    else if d == 3 { '3' }
    else if d == 4 { '4' }
    else if d == 5 { '5' }
    else if d == 6 { '6' }
    else if d == 7 { '7' }
    else if d == 8 { '8' }
    else { '9' }
}

/// `n` written in decimal, without leading zeros.
pub open spec fn decimal(n: nat) -> Seq<char>
    decreases n,
{
    if n < 10 {
        seq![digit_char(n)]
    } else {
        decimal(n / 10) + seq![digit_char(n % 10)]
    }
}

fn digit_str(d: usize) -> (r: &'static str)
    requires
        d < 10,
    ensures
        r@ == seq![digit_char(d as nat)],
{
    proof {
        reveal_strlit("0");
        reveal_strlit("1");
        reveal_strlit("2");
        reveal_strlit("3");
        reveal_strlit("4");
        reveal_strlit("5");
        reveal_strlit("6");
        reveal_strlit("7");
        reveal_strlit("8");
        reveal_strlit("9");
    }
    match d {
        0 => "0",
        1 => "1",
        2 => "2",
        3 => "3",
        4 => "4",
        5 => "5",
        6 => "6",
        7 => "7",
        8 => "8",
        _ => "9",
    }
}

/// `n` written in decimal.
pub fn decimal_string(n: usize) -> (r: String)
    ensures
        r@ == decimal(n as nat),
    decreases n,
{
    if n < 10 {
        digit_str(n).to_owned()
    } else {
        let mut s = decimal_string(n / 10);
        s.append(digit_str(n % 10));
        s
    }
}

/// The name an audit record gives a message's kind.
pub open spec fn audit_type(m: InvalidationMessage) -> Seq<char> {
    match m {
        InvalidationMessage::Remove { .. } => "remove"@,
        InvalidationMessage::Update { .. } => "update"@,
        InvalidationMessage::RemovePattern { .. } => "remove_pattern"@,
        InvalidationMessage::RemoveBulk { .. } => "remove_bulk"@,
    }
}

/// The key an audit record names: the message's key or pattern; none for a bulk removal.
pub open spec fn audit_key(m: InvalidationMessage) -> Seq<char> {
    match m {
        InvalidationMessage::Remove { key } => key@,
        InvalidationMessage::Update { key, .. } => key@,
        InvalidationMessage::RemovePattern { pattern } => pattern@,
        InvalidationMessage::RemoveBulk { .. } => Seq::empty(),
    }
}

/// The fields of the audit record of `m` stamped `timestamp`: its type and
/// timestamp, then its key when that is not empty, then for a bulk removal the
/// number of keys.
pub open spec fn audit_record(m: InvalidationMessage, timestamp: Seq<char>) -> Seq<(Seq<char>, Seq<char>)> {
    let head = seq![("type"@, audit_type(m)), ("timestamp"@, timestamp)];
    let with_key = if audit_key(m).len() > 0 { head.push(("key"@, audit_key(m))) } else { head };
    match m {
        InvalidationMessage::RemoveBulk { keys } => with_key.push(("count"@, decimal(keys@.len()))),
        _ => with_key,
    }
}

pub open spec fn view_pairs(v: Seq<(String, String)>) -> Seq<(Seq<char>, Seq<char>)> {
    Seq::new(v.len(), |i: int| (v[i].0@, v[i].1@))
}

fn pair(name: &str, value: &str) -> (r: (String, String))
    ensures
        r.0@ == name@,
        r.1@ == value@,
{
    (name.to_owned(), value.to_owned())
}

/// The fields of the audit stream entry for `message`, stamped `timestamp`.
pub fn audit_fields(message: &InvalidationMessage, timestamp: &str) -> (r: Vec<(String, String)>)
    ensures
        view_pairs(r@) == audit_record(*message, timestamp@),
{
    proof {
        reveal_strlit("type");
        reveal_strlit("timestamp");
        reveal_strlit("key");
        reveal_strlit("count");
        reveal_strlit("remove");
        reveal_strlit("update");
        reveal_strlit("remove_pattern");
        reveal_strlit("remove_bulk");
    }
    let kind_name = match message {
        InvalidationMessage::Remove { .. } => "remove",
        InvalidationMessage::Update { .. } => "update",
        InvalidationMessage::RemovePattern { .. } => "remove_pattern",
        InvalidationMessage::RemoveBulk { .. } => "remove_bulk",
    };
    let mut fields: Vec<(String, String)> = Vec::new();
    fields.push(pair("type", kind_name));
    fields.push(pair("timestamp", timestamp));
    let key: &str = match message {
        InvalidationMessage::Remove { key } => key.as_str(),
        InvalidationMessage::Update { key, .. } => key.as_str(),
        InvalidationMessage::RemovePattern { pattern } => pattern.as_str(),
        InvalidationMessage::RemoveBulk { .. } => "",
    };
    proof {
        reveal_strlit("");
    }
    if !key.is_empty() {
        fields.push(pair("key", key));
    }
    if let InvalidationMessage::RemoveBulk { keys } = message {
        let count = decimal_string(keys.len());
        fields.push(("count".to_owned(), count));
    }
    proof {
        assert(view_pairs(fields@) =~= audit_record(*message, timestamp@));
    }
    fields
}

/// Seconds the subscriber waits before it connects again.
pub const RECONNECT_DELAY_SECS: u64 = 5;

/// Where the bus subscriber stands.
#[derive(Clone, Copy, Debug, PartialEq, Eq, Structural)]
pub enum SubscriberState {
    Connecting,
    Subscribed,
    Running,
    Reconnecting,
    Stopped,
}

/// What happened to the subscriber.
#[derive(Clone, Copy, Debug, PartialEq, Eq, Structural)]
pub enum SubscriberEvent {
    /// The connection and subscription succeeded.
    Connected,
    /// Connecting or subscribing failed.
    ConnectFailed,
    /// A message arrived on the channel.
    MessageArrived,
    /// The message stream ended or the connection broke.
    StreamEnded,
    /// The wait before reconnecting is over.
    WaitOver,
    /// The owner asked the subscriber to stop.
    Shutdown,
}

/// What the subscriber's driver does next.
#[derive(Clone, Copy, Debug, PartialEq, Eq, Structural)]
pub enum SubscriberAction {
    /// Open a connection and subscribe to the channel.
    Connect,
    /// Wait for the next message.
    AwaitMessage,
    /// Decode and apply the message that arrived, then wait for the next.
    HandleMessage,
    /// Sleep for the given TTL (or until shutdown), then report `WaitOver`.
    Wait(Ttl),
    /// Leave the loop.
    Exit,
}

/// The subscriber's transitions.
pub open spec fn subscriber_next(s: SubscriberState, e: SubscriberEvent) -> (SubscriberState, SubscriberAction) {
    let wait = SubscriberAction::Wait(Ttl { millis: (RECONNECT_DELAY_SECS * 1000) as u64 });
    match (s, e) {
        (SubscriberState::Stopped, _) => (SubscriberState::Stopped, SubscriberAction::Exit),
        (_, SubscriberEvent::Shutdown) => (SubscriberState::Stopped, SubscriberAction::Exit),
        (SubscriberState::Connecting, SubscriberEvent::Connected) => (SubscriberState::Subscribed, SubscriberAction::AwaitMessage),
        (SubscriberState::Connecting, SubscriberEvent::ConnectFailed) => (SubscriberState::Reconnecting, wait),
        (SubscriberState::Connecting, _) => (SubscriberState::Connecting, SubscriberAction::Connect),
        (SubscriberState::Reconnecting, SubscriberEvent::WaitOver) => (SubscriberState::Connecting, SubscriberAction::Connect),
        (SubscriberState::Reconnecting, _) => (SubscriberState::Reconnecting, wait),
        (_, SubscriberEvent::MessageArrived) => (SubscriberState::Running, SubscriberAction::HandleMessage),
        (_, SubscriberEvent::StreamEnded) => (SubscriberState::Reconnecting, wait),
        (_, SubscriberEvent::ConnectFailed) => (SubscriberState::Reconnecting, wait),
        (st, _) => (st, SubscriberAction::AwaitMessage),
    }
}

impl SubscriberState {
    /// The state a new subscriber starts in, and what it does first.
    pub fn start() -> (r: (SubscriberState, SubscriberAction))
        ensures
            r == (SubscriberState::Connecting, SubscriberAction::Connect),
    {
        (SubscriberState::Connecting, SubscriberAction::Connect)
    }

    /// The next state and action after `event`. Shutdown stops the subscriber
    /// from any state, and a stopped subscriber stays stopped; a broken
    /// connection leads to a wait of five seconds and a new connection.
    pub fn step(self, event: SubscriberEvent) -> (r: (SubscriberState, SubscriberAction))
        ensures
            r == subscriber_next(self, event),
            event == SubscriberEvent::Shutdown ==> r == (SubscriberState::Stopped, SubscriberAction::Exit),
            self == SubscriberState::Stopped ==> r.0 == SubscriberState::Stopped,
    {
        let wait = SubscriberAction::Wait(Ttl::from_secs(RECONNECT_DELAY_SECS));
        match (self, event) {
            (SubscriberState::Stopped, _) => (SubscriberState::Stopped, SubscriberAction::Exit),
            (_, SubscriberEvent::Shutdown) => (SubscriberState::Stopped, SubscriberAction::Exit),
            (SubscriberState::Connecting, SubscriberEvent::Connected) => (SubscriberState::Subscribed, SubscriberAction::AwaitMessage),
            (SubscriberState::Connecting, SubscriberEvent::ConnectFailed) => (SubscriberState::Reconnecting, wait),
            (SubscriberState::Connecting, _) => (SubscriberState::Connecting, SubscriberAction::Connect),
            (SubscriberState::Reconnecting, SubscriberEvent::WaitOver) => (SubscriberState::Connecting, SubscriberAction::Connect),
            (SubscriberState::Reconnecting, _) => (SubscriberState::Reconnecting, wait),
            (_, SubscriberEvent::MessageArrived) => (SubscriberState::Running, SubscriberAction::HandleMessage),
            (_, SubscriberEvent::StreamEnded) => (SubscriberState::Reconnecting, wait),
            (_, SubscriberEvent::ConnectFailed) => (SubscriberState::Reconnecting, wait),
            (st, _) => (st, SubscriberAction::AwaitMessage),
        }
    }
}

} // verus!
