//! Envelopes that carry commands and events between components, the
//! clock, and identifier generation.

use vstd::prelude::*;

verus! {

/// A point in time as seconds and nanoseconds since the Unix epoch.
#[derive(Debug, Clone, Copy, PartialEq, Eq, Default)]
pub struct Timestamp {
    pub seconds: i64,
    pub nanos: i32,
}

/// Aggregate identifier bytes.
#[derive(Debug, Clone, PartialEq, Eq, Default)]
pub struct ProtoUuid {
    pub value: Vec<u8>,
}

/// Which aggregate a book addresses.
#[derive(Debug, Clone, PartialEq, Eq, Default)]
pub struct Cover {
    pub domain: String,
    pub root: Option<ProtoUuid>,
    pub correlation_id: String,
}

/// How a page is sequenced in its aggregate's stream.
#[derive(Debug, Clone, PartialEq, Eq)]
pub enum SequenceType {
    /// An explicit sequence number.
    Sequence(u32),
    /// Deferred sequencing, deduplicated on a stable external identifier.
    ExternalDeferred(String),
}

/// One event at a position of a stream, with the time it was produced
/// (absent on events that were not stamped).
#[derive(Debug, Clone, PartialEq, Eq)]
pub struct EventPage<E> {
    pub sequence: SequenceType,
    pub created_at: Option<Timestamp>,
    pub event: E,
}

/// Events addressed to one aggregate (or to the emitting component when the
/// cover is absent).
#[derive(Debug, Clone, PartialEq, Eq)]
pub struct EventBook<E> {
    pub cover: Option<Cover>,
    pub pages: Vec<EventPage<E>>,
}

/// How the runtime merges a command that races another on the same
/// aggregate.
#[derive(Debug, Clone, Copy, PartialEq, Eq, Default)]
pub enum MergeStrategy {
    /// Allowed when the state the two commands change does not overlap.
    #[default]
    Commutative,
    /// Refused when the sequence does not match.
    Strict,
    /// Left to the aggregate.
    AggregateHandles,
    /// Set aside for review when the sequence does not match.
    Manual,
}

/// A single command addressed to one aggregate. `decision_sync` asks the
/// runtime for a synchronous accept/reject answer.
#[derive(Debug, Clone, PartialEq, Eq)]
pub struct CommandBook<C> {
    pub domain: String,
    pub root: Vec<u8>,
    pub correlation_id: String,
    pub decision_sync: bool,
    pub merge_strategy: MergeStrategy,
    pub command: C,
}

/// What a process manager hands back for one triggering event: commands to
/// other aggregates and events for its own stream.
#[derive(Debug, Clone, PartialEq, Eq)]
pub struct PmResponse<C, E> {
    pub commands: Vec<CommandBook<C>>,
    pub process_events: Vec<EventBook<E>>,
}

/// What a saga hands back for one triggering event: commands to other
/// aggregates and facts recorded directly on them.
#[derive(Debug, Clone, PartialEq, Eq)]
pub struct SagaResponse<C, E> {
    pub commands: Vec<CommandBook<C>>,
    pub events: Vec<EventBook<E>>,
}

/// The command a rejection notification reports as refused.
#[derive(Debug, Clone, PartialEq, Eq, Default)]
pub struct RejectedCommand {
    pub cover: Option<Cover>,
}

/// Why a command issued by a saga or process manager was refused.
#[derive(Debug, Clone, PartialEq, Eq, Default)]
pub struct RejectionNotification {
    pub rejected_command: Option<RejectedCommand>,
    pub rejection_reason: String,
}

/// A notification addressed to an aggregate, with its payload already
/// unpacked (`None` when absent or not a rejection).
#[derive(Debug, Clone, PartialEq, Eq, Default)]
pub struct Notification {
    pub cover: Option<Cover>,
    pub rejection: Option<RejectionNotification>,
}

/// The root bytes of the refused command's cover; empty when any part is
/// missing.
pub open spec fn rejected_root(n: Option<RejectionNotification>) -> Seq<u8> {
    match n {
        Some(r) => match r.rejected_command {
            Some(c) => match c.cover {
                Some(cv) => match cv.root {
                    Some(u) => u.value@,
                    None => Seq::empty(),
                },
                None => Seq::empty(),
            },
            None => Seq::empty(),
        },
        None => Seq::empty(),
    }
}

/// The root bytes of a refused command, empty when absent.
pub fn rejected_root_of(n: &Option<RejectionNotification>) -> (r: Vec<u8>)
    ensures
        r@ == rejected_root(*n),
{
    match n {
        Some(rn) => match &rn.rejected_command {
            Some(c) => match &c.cover {
                Some(cv) => match &cv.root {
                    Some(u) => copy_bytes(&u.value),
                    None => Vec::new(),
                },
                None => Vec::new(),
            },
            None => Vec::new(),
        },
        None => Vec::new(),
    }
}

/// The root bytes of an optional cover, empty when absent.
pub open spec fn cover_root(c: Option<Cover>) -> Seq<u8> {
    match c {
        Some(cv) => match cv.root {
            Some(u) => u.value@,
            None => Seq::empty(),
        },
        None => Seq::empty(),
    }
}

/// The root bytes of an optional cover, empty when absent.
pub fn cover_root_of(c: &Option<Cover>) -> (r: Vec<u8>)
    ensures
        r@ == cover_root(*c),
{
    match c {
        Some(cv) => match &cv.root {
            Some(u) => copy_bytes(&u.value),
            None => Vec::new(),
        },
        None => Vec::new(),
    }
}

/// `b` holds exactly one event, at sequence `seq`, with no cover.
pub open spec fn single_page<E>(b: EventBook<E>, seq: u32) -> bool {
    &&& b.cover is None
    &&& b.pages@.len() == 1
    &&& b.pages@[0].sequence == SequenceType::Sequence(seq)
    &&& b.pages@[0].created_at is Some
}

/// The event on the first page of a book.
pub open spec fn first_of<E>(b: EventBook<E>) -> E {
    b.pages@[0].event
}

/// A book with one event at the given sequence and no cover.
pub fn single_page_book<E>(seq: u32, event: E) -> (b: EventBook<E>)
    ensures
        b.cover is None,
        b.pages@.len() == 1,
        b.pages@[0].sequence == SequenceType::Sequence(seq),
        b.pages@[0].created_at is Some,
        b.pages@[0].event == event,
{
    let mut pages: Vec<EventPage<E>> = Vec::new();
    pages.push(EventPage { sequence: SequenceType::Sequence(seq), created_at: Some(now()), event });
    EventBook { cover: None, pages }
}

/// `angzarr_client::now`: the current wall-clock time. Nothing is promised
/// of the value.
#[verifier::external_body]
pub(crate) fn now() -> (t: Timestamp) {
    let t = angzarr_client::now();
    Timestamp { seconds: t.seconds, nanos: t.nanos }
}

/// `uuid::Uuid::new_v4` taken as bytes: a random identifier; `as_bytes` of a
/// `Uuid` is always sixteen bytes.
#[verifier::external_body]
pub(crate) fn new_uuid_bytes() -> (b: Vec<u8>)
    ensures
        b@.len() == 16,
{
    uuid::Uuid::new_v4().as_bytes().to_vec()
}

/// `uuid::Uuid::new_v4` rendered by `to_string`: the hyphenated form, which
/// the crate documents as 36 characters. Nothing else is promised.
#[verifier::external_body]
pub(crate) fn new_correlation_id() -> (s: String)
    ensures
        s@.len() == 36,
{
    uuid::Uuid::new_v4().to_string()
}

/// A copy of a byte string.
pub fn copy_bytes(b: &Vec<u8>) -> (r: Vec<u8>)
    ensures
        r@ == b@,
{
    let mut r: Vec<u8> = Vec::new();
    let mut i: usize = 0;
    while i < b.len()
        invariant
            i <= b@.len(),
            r@ == b@.subrange(0, i as int),
        decreases b@.len() - i,
    {
        r.push(b[i]);
        i = i + 1;
        proof {
            assert(r@ =~= b@.subrange(0, i as int));
        }
    }
    assert(r@ =~= b@);
    r
}

/// A command book addressed to `domain`/`root` with a fresh correlation id,
/// merged commutatively.
pub fn make_command<C>(domain: &str, root: &Vec<u8>, decision_sync: bool, command: C) -> (b:
    CommandBook<C>)
    ensures
        b.domain@ == domain@,
        b.root@ == root@,
        b.correlation_id@.len() == 36,
        b.decision_sync == decision_sync,
        b.merge_strategy == MergeStrategy::Commutative,
        b.command == command,
{
    CommandBook {
        domain: String::from_str(domain),
        root: copy_bytes(root),
        correlation_id: new_correlation_id(),
        decision_sync,
        merge_strategy: MergeStrategy::Commutative,
        command,
    }
}

} // verus!
