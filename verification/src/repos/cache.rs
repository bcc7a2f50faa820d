//! Cache keys and the cache store protocol.

use vstd::prelude::*;
use vstd::string::*;
use crate::bindings::{hex_alphabet, hex_encode, hex_lower, sha256, sha256_digest};
use crate::errors::{RedisConnectError, RedisConnectErrorView};

verus! {

/// Length of every derived cache key, in characters.
pub const KEY_LENGTH: usize = 64;

/// Length of a SHA-256 digest, in bytes.
pub const DIGEST_LENGTH: usize = 32;

/// `digest` as exactly [`DIGEST_LENGTH`] bytes: its first bytes up to that
/// length, with zero bytes in place of any that are missing. A SHA-256
/// digest has that length and is left as it is; reading it this way makes
/// every key have its shape, whatever else is known of the digest.
pub open spec fn digest_bytes(digest: Seq<u8>) -> Seq<u8> {
    Seq::new(
        DIGEST_LENGTH as nat,
        |i: int|
            if i < digest.len() {
                digest[i]
            } else {
                0u8
            },
    )
}

/// The cache key under which the short identifier of `long_url` is kept: the
/// lowercase hexadecimal SHA-256 digest of the URL's UTF-8 bytes.
pub open spec fn long_url_key(long_url: Seq<char>) -> Seq<char> {
    hex_lower(digest_bytes(sha256(vstd::utf8::encode_utf8(long_url))))
}

/// Whether `c` is a lowercase hexadecimal digit.
pub open spec fn is_hex_digit(c: char) -> bool {
    ('0' <= c && c <= '9') || ('a' <= c && c <= 'f')
}

/// Whether `key` has the shape of a derived cache key.
pub open spec fn is_derived_key(key: Seq<char>) -> bool {
    &&& key.len() == KEY_LENGTH
    &&& forall|i: int| 0 <= i < key.len() ==> is_hex_digit(#[trigger] key[i])
}

/// Derives the cache key of a long URL.
///
/// The key is a function of the URL alone, so deriving it again gives the
/// same key. It is always [`KEY_LENGTH`] printable characters long, whatever
/// the length of the URL.
pub fn get_long_url_key(long_url: &str) -> (key: String)
    ensures
        key@ == long_url_key(long_url@),
        is_derived_key(key@),
{
    let digest = sha256_digest(long_url.as_bytes());
    key_of_digest(digest.as_slice())
}

/// The key that spells `digest`: two lowercase hexadecimal digits for each
/// byte, the high nibble first.
pub fn key_of_digest(digest: &[u8]) -> (key: String)
    ensures
        key@ == hex_lower(digest@),
        key@.len() == 2 * digest@.len(),
        forall|i: int| 0 <= i < key@.len() ==> is_hex_digit(#[trigger] key@[i]),
{
    hex_encode(digest)
}

/// Whether `text` has the shape of a derived cache key.
pub fn has_key_shape(text: &str) -> (shaped: bool)
    ensures
        shaped == is_derived_key(text@),
{
    if text.unicode_len() != KEY_LENGTH {
        return false;
    }
    let mut i: usize = 0;
    while i < KEY_LENGTH
        invariant
            text@.len() == KEY_LENGTH,
            i <= KEY_LENGTH,
            forall|j: int| 0 <= j < i ==> is_hex_digit(#[trigger] text@[j]),
        decreases KEY_LENGTH - i,
    {
        let c = text.get_char(i);
        if !(('0' <= c && c <= '9') || ('a' <= c && c <= 'f')) {
            return false;
        }
        i += 1;
    }
    true
}

/// Every derived key has the shape of one.
pub proof fn lemma_long_url_key_shape(long_url: Seq<char>)
    ensures
        is_derived_key(long_url_key(long_url)),
{
}

/// Hexadecimal text spells one byte string only: equal texts come from
/// equal bytes.
pub proof fn lemma_hex_lower_injective(first: Seq<u8>, second: Seq<u8>)
    requires
        hex_lower(first) == hex_lower(second),
    ensures
        first == second,
{
    assert(hex_lower(second).len() == 2 * second.len());
    assert forall|i: int| 0 <= i < first.len() implies first[i] == second[i] by {
        let byte = second[i] as int;
        assert(hex_lower(second)[2 * i] == hex_alphabet()[byte / 16]);
        assert(hex_lower(second)[2 * i + 1] == hex_alphabet()[byte % 16]);
    }
}

/// Two long URLs share a derived key exactly when their digests agree:
/// the hexadecimal spelling adds no collisions of its own.
pub proof fn lemma_keys_collide_only_with_digests(first: Seq<char>, second: Seq<char>)
    ensures
        long_url_key(first) == long_url_key(second) <==> digest_bytes(
            sha256(vstd::utf8::encode_utf8(first)),
        ) == digest_bytes(sha256(vstd::utf8::encode_utf8(second))),
{
    if long_url_key(first) == long_url_key(second) {
        lemma_hex_lower_injective(
            digest_bytes(sha256(vstd::utf8::encode_utf8(first))),
            digest_bytes(sha256(vstd::utf8::encode_utf8(second))),
        );
    }
}

/// Two distinct long URLs share a derived key only where SHA-256 gives two
/// distinct byte strings the same digest: distinct URLs have distinct UTF-8
/// bytes, and equal keys spell equal digests.
pub proof fn lemma_distinct_urls_share_key_only_by_collision(first: Seq<char>, second: Seq<char>)
    requires
        first != second,
        long_url_key(first) == long_url_key(second),
    ensures
        vstd::utf8::encode_utf8(first) != vstd::utf8::encode_utf8(second),
        digest_bytes(sha256(vstd::utf8::encode_utf8(first))) == digest_bytes(
            sha256(vstd::utf8::encode_utf8(second)),
        ),
{
    lemma_keys_collide_only_with_digests(first, second);
    vstd::utf8::encode_utf8_decode_utf8(first);
    vstd::utf8::encode_utf8_decode_utf8(second);
}

/// The key of a long URL is a function of the URL alone: the same URL has
/// the same key every time it is derived.
pub proof fn lemma_key_is_determined(first: Seq<char>, second: Seq<char>)
    requires
        first == second,
    ensures
        long_url_key(first) == long_url_key(second),
{
}

/// One request to the cache store.
#[derive(Clone, Debug, PartialEq, Eq)]
pub enum CacheCommand {
    /// Take a connection from the pool.
    Connect,
    /// Store `value` under `key`.
    SetValue { key: String, value: String },
    /// Let `key` expire after `seconds` seconds.
    Expire { key: String, seconds: i64 },
    /// Read what is stored under `key`.
    GetValue { key: String },
}

/// Mathematical value of a [`CacheCommand`].
pub enum CacheCommandView {
    Connect,
    SetValue { key: Seq<char>, value: Seq<char> },
    Expire { key: Seq<char>, seconds: i64 },
    GetValue { key: Seq<char> },
}

impl View for CacheCommand {
    type V = CacheCommandView;

    open spec fn view(&self) -> CacheCommandView {
        match self {
            CacheCommand::Connect => CacheCommandView::Connect,
            CacheCommand::SetValue { key, value } => CacheCommandView::SetValue { key: key@, value: value@ },
            CacheCommand::Expire { key, seconds } => CacheCommandView::Expire {
                key: key@,
                seconds: *seconds,
            },
            CacheCommand::GetValue { key } => CacheCommandView::GetValue { key: key@ },
        }
    }
}

impl CacheCommand {
    /// A copy of the command.
    fn duplicate(&self) -> (copy: CacheCommand)
        ensures
            copy@ == self@,
    {
        match self {
            CacheCommand::Connect => CacheCommand::Connect,
            CacheCommand::SetValue { key, value } => CacheCommand::SetValue {
                key: key.clone(),
                value: value.clone(),
            },
            CacheCommand::Expire { key, seconds } => CacheCommand::Expire {
                key: key.clone(),
                seconds: *seconds,
            },
            CacheCommand::GetValue { key } => CacheCommand::GetValue { key: key.clone() },
        }
    }
}

/// How the store answered the command last issued.
#[derive(Clone, Debug, PartialEq, Eq)]
pub enum CacheEvent {
    /// The command went through. For a `GetValue` the value read, if any; for
    /// every other command `None`.
    Completed(Option<String>),
    /// The command failed; the text is the client's report.
    Failed(String),
}

/// Mathematical value of a [`CacheEvent`].
pub enum CacheEventView {
    Completed(Option<Seq<char>>),
    Failed(Seq<char>),
}

impl View for CacheEvent {
    type V = CacheEventView;

    open spec fn view(&self) -> CacheEventView {
        match self {
            CacheEvent::Completed(Some(value)) => CacheEventView::Completed(Some(value@)),
            CacheEvent::Completed(None) => CacheEventView::Completed(None),
            CacheEvent::Failed(detail) => CacheEventView::Failed(detail@),
        }
    }
}

/// Mathematical value of what a finished call returns.
pub type CacheOutcomeView = Result<Option<Seq<char>>, RedisConnectErrorView>;

/// Mathematical value of an outcome as the library hands it out.
pub open spec fn outcome_view(outcome: Result<Option<String>, RedisConnectError>)
    -> CacheOutcomeView {
    match outcome {
        Ok(Some(value)) => Ok(Some(value@)),
        Ok(None) => Ok(None),
        Err(error) => Err(error@),
    }
}

/// One call to the cache store in flight: the commands it consists of, how
/// many of them went through, and how it ended if it has.
///
/// Commands are issued one at a time, in order. The first failure ends the
/// call; no later command is issued.
#[derive(Debug)]
pub struct CacheCall {
    script: Vec<CacheCommand>,
    done: usize,
    fetched: Option<String>,
    failure: Option<RedisConnectError>,
}

/// Mathematical value of a [`CacheCall`].
pub struct CacheCallView {
    /// The commands of the call, in the order they are issued.
    pub script: Seq<CacheCommandView>,
    /// How many commands went through.
    pub done: nat,
    /// What the last `GetValue` that went through read.
    pub fetched: Option<Seq<char>>,
    /// Why the call failed, if it did.
    pub failure: Option<RedisConnectErrorView>,
}

impl CacheCallView {
    /// A write of `value` under `key` that expires after `lifetime` seconds:
    /// connect, set, then expire.
    pub open spec fn write(key: Seq<char>, value: Seq<char>, lifetime: i64) -> CacheCallView {
        CacheCallView {
            script: seq![
                CacheCommandView::Connect,
                CacheCommandView::SetValue { key, value },
                CacheCommandView::Expire { key, seconds: lifetime },
            ],
            done: 0,
            fetched: None,
            failure: None,
        }
    }

    /// A read of `key`: connect, then get.
    pub open spec fn read(key: Seq<char>) -> CacheCallView {
        CacheCallView {
            script: seq![CacheCommandView::Connect, CacheCommandView::GetValue { key }],
            done: 0,
            fetched: None,
            failure: None,
        }
    }

    /// The command to issue now, `None` once the call has ended.
    pub open spec fn command(self) -> Option<CacheCommandView> {
        if self.failure is None && self.done < self.script.len() {
            Some(self.script[self.done as int])
        } else {
            None
        }
    }

    /// The call after the store answers the command in flight. A failed
    /// connect is a connection error, any other failure an operation error.
    /// An answer to a call that has ended changes nothing.
    pub open spec fn advance(self, event: CacheEventView) -> CacheCallView {
        match self.command() {
            None => self,
            Some(command) => match event {
                CacheEventView::Completed(value) => CacheCallView {
                    done: self.done + 1,
                    fetched: if command is GetValue {
                        value
                    } else {
                        self.fetched
                    },
                    ..self
                },
                CacheEventView::Failed(detail) => CacheCallView {
                    failure: Some(
                        if command is Connect {
                            RedisConnectErrorView::ConnectionError(detail)
                        } else {
                            RedisConnectErrorView::GettingValueError(detail)
                        },
                    ),
                    ..self
                },
            },
        }
    }

    /// What the call returns, `None` while a command is still to be issued.
    pub open spec fn outcome(self) -> Option<CacheOutcomeView> {
        match self.failure {
            Some(error) => Some(Err(error)),
            None => if self.done < self.script.len() {
                None
            } else {
                Some(Ok(self.fetched))
            },
        }
    }
}

impl View for CacheCall {
    type V = CacheCallView;

    closed spec fn view(&self) -> CacheCallView {
        CacheCallView {
            script: self.script@.map_values(|command: CacheCommand| command@),
            done: self.done as nat,
            fetched: match self.fetched {
                Some(value) => Some(value@),
                None => None,
            },
            failure: match self.failure {
                Some(error) => Some(error@),
                None => None,
            },
        }
    }
}

impl CacheCall {
    #[verifier::type_invariant]
    spec fn within_script(self) -> bool {
        self.done <= self.script.len()
    }

    /// The command to issue now, `None` once the call has ended.
    pub fn command(&self) -> (command: Option<CacheCommand>)
        ensures
            command is Some == self@.command() is Some,
            command matches Some(c) ==> self@.command() == Some(c@),
    {
        if self.failure.is_none() && self.done < self.script.len() {
            Some(self.script[self.done].duplicate())
        } else {
            None
        }
    }

    /// Reports how the store answered the command in flight.
    pub fn advance(self, event: CacheEvent) -> (call: CacheCall)
        ensures
            call@ == self@.advance(event@),
    {
        proof {
            use_type_invariant(&self);
        }
        if self.failure.is_some() || self.done >= self.script.len() {
            return self;
        }
        let CacheCall { script, done, fetched, failure } = self;
        match event {
            CacheEvent::Completed(value) => {
                let fetched = match &script[done] {
                    CacheCommand::GetValue { .. } => value,
                    _ => fetched,
                };
                CacheCall { script, done: done + 1, fetched, failure }
            },
            CacheEvent::Failed(detail) => {
                let error = match &script[done] {
                    CacheCommand::Connect => RedisConnectError::ConnectionError(detail),
                    _ => RedisConnectError::GettingValueError(detail),
                };
                CacheCall { script, done, fetched, failure: Some(error) }
            },
        }
    }

    /// What the call returns, `None` while a command is still to be issued.
    pub fn outcome(&self) -> (outcome: Option<Result<Option<String>, RedisConnectError>>)
        ensures
            outcome is Some == self@.outcome() is Some,
            outcome matches Some(o) ==> self@.outcome() == Some(outcome_view(o)),
    {
        match &self.failure {
            Some(error) => Some(Err(error.duplicate())),
            None => {
                if self.done < self.script.len() {
                    None
                } else {
                    match &self.fetched {
                        Some(value) => Some(Ok(Some(value.clone()))),
                        None => Some(Ok(None)),
                    }
                }
            },
        }
    }
}

/// Begins storing `value` under `key`, to expire after `lifetime` seconds.
pub fn cache_set(key: &str, value: &str, lifetime: i64) -> (call: CacheCall)
    ensures
        call@ == CacheCallView::write(key@, value@, lifetime),
{
    let script = vec![
        CacheCommand::Connect,
        CacheCommand::SetValue { key: key.to_owned(), value: value.to_owned() },
        CacheCommand::Expire { key: key.to_owned(), seconds: lifetime },
    ];
    let call = CacheCall { script, done: 0, fetched: None, failure: None };
    assert(call@.script =~= CacheCallView::write(key@, value@, lifetime).script);
    call
}

/// Begins reading what is stored under `key`.
pub fn cache_get(key: &str) -> (call: CacheCall)
    ensures
        call@ == CacheCallView::read(key@),
{
    let script = vec![CacheCommand::Connect, CacheCommand::GetValue { key: key.to_owned() }];
    let call = CacheCall { script, done: 0, fetched: None, failure: None };
    assert(call@.script =~= CacheCallView::read(key@).script);
    call
}

/// Begins storing the short identifier of `long_url` under the URL's derived
/// key, to expire after `lifetime` seconds.
pub fn add_short_to_cache(long_url: &str, short: &str, lifetime: i64) -> (call: CacheCall)
    ensures
        call@ == CacheCallView::write(long_url_key(long_url@), short@, lifetime),
{
    let key = get_long_url_key(long_url);
    cache_set(key.as_str(), short, lifetime)
}

/// Begins reading the short identifier stored for `long_url`.
pub fn get_short_from_cache(long_url: &str) -> (call: CacheCall)
    ensures
        call@ == CacheCallView::read(long_url_key(long_url@)),
{
    let key = get_long_url_key(long_url);
    cache_get(key.as_str())
}

/// A failure ends a call at once: no further command is issued, and the
/// call returns a connection error if the command that failed was the
/// connect, and an operation error otherwise.
pub proof fn lemma_failure_ends_call(call: CacheCallView, detail: Seq<char>)
    requires
        call.command() is Some,
    ensures
        call.advance(CacheEventView::Failed(detail)).command() is None,
        call.advance(CacheEventView::Failed(detail)).outcome() == Some(
            Err::<Option<Seq<char>>, RedisConnectErrorView>(
                if call.command() == Some(CacheCommandView::Connect) {
                    RedisConnectErrorView::ConnectionError(detail)
                } else {
                    RedisConnectErrorView::GettingValueError(detail)
                },
            ),
        ),
{
}

/// A call that has ended stays as it is, whatever is reported to it.
pub proof fn lemma_ended_call_is_final(call: CacheCallView, event: CacheEventView)
    requires
        call.command() is None,
    ensures
        call.advance(event) == call,
{
}

/// A write connects, sets the value, then sets its expiry, each after the
/// one before went through, and then returns without a value.
pub proof fn lemma_write_runs_in_order(key: Seq<char>, value: Seq<char>, lifetime: i64)
    ensures
        ({
            let call = CacheCallView::write(key, value, lifetime);
            let connected = call.advance(CacheEventView::Completed(None));
            let stored = connected.advance(CacheEventView::Completed(None));
            let expiring = stored.advance(CacheEventView::Completed(None));
            &&& call.command() == Some(CacheCommandView::Connect)
            &&& connected.command() == Some(CacheCommandView::SetValue { key, value })
            &&& stored.command() == Some(CacheCommandView::Expire { key, seconds: lifetime })
            &&& stored.outcome() is None
            &&& expiring.command() is None
            &&& expiring.outcome() == Some(Ok::<Option<Seq<char>>, RedisConnectErrorView>(None))
        }),
{
}

/// A read connects, gets the value, and returns what the store read.
pub proof fn lemma_read_returns_value(key: Seq<char>, value: Option<Seq<char>>)
    ensures
        ({
            let call = CacheCallView::read(key);
            let connected = call.advance(CacheEventView::Completed(None));
            let fetched = connected.advance(CacheEventView::Completed(value));
            &&& call.command() == Some(CacheCommandView::Connect)
            &&& connected.command() == Some(CacheCommandView::GetValue { key })
            &&& connected.outcome() is None
            &&& fetched.command() is None
            &&& fetched.outcome() == Some(Ok::<Option<Seq<char>>, RedisConnectErrorView>(value))
        }),
{
}

} // verus!
