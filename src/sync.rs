use vstd::prelude::*;
use vstd::utf8::encode_utf8;

use crate::aggregate::{phase_of, Aggregation, EndpointOutcome, Phase};
use crate::config::Config;
use crate::request::{url_of, VerificationRequest};
use crate::yubicoerror::{ConfigError, YubicoError};
use reqwest::blocking::{Client, ClientBuilder};
use reqwest::header::{HeaderMap, HeaderValue, InvalidHeaderValue, USER_AGENT};
use std::sync::mpsc::Receiver;
use threadpool::ThreadPool;

verus! {

#[verifier::external_type_specification]
#[verifier::external_body]
pub struct ExHeaderValue(HeaderValue);

#[verifier::external_type_specification]
#[verifier::external_body]
pub struct ExInvalidHeaderValue(InvalidHeaderValue);

#[verifier::external_type_specification]
#[verifier::external_body]
pub struct ExClient(Client);

#[verifier::external_type_specification]
#[verifier::external_body]
pub struct ExReqwestError(reqwest::Error);

#[verifier::external_type_specification]
#[verifier::external_body]
pub struct ExThreadPool(ThreadPool);

#[verifier::external_type_specification]
#[verifier::external_body]
#[verifier::reject_recursive_types(T)]
pub struct ExReceiver<T>(Receiver<T>);

/// Relies on std's Receiver::recv: blocks until an outcome arrives, or
/// yields nothing once every sender is gone with nothing left to take.
/// Which outcome comes depends on the other threads.
#[verifier::external_body]
fn receive_outcome(receiver: &Receiver<EndpointOutcome>) -> (r: Option<EndpointOutcome>) {
    receiver.recv().ok()
}

/// A byte that may stand in an HTTP header value: a tab, or any byte from
/// the space on except DEL.
pub open spec fn header_byte_ok(b: u8) -> bool {
    (b >= 32 && b != 127) || b == 9
}

/// Whether the text `s`, encoded as UTF-8, may be sent as a header value.
pub open spec fn header_value_ok(s: Seq<char>) -> bool {
    forall|i: int| 0 <= i < encode_utf8(s).len() ==> header_byte_ok(#[trigger] encode_utf8(s)[i])
}

/// The bytes a header value carries.
pub uninterp spec fn header_bytes(h: HeaderValue) -> Seq<u8>;

/// The number of workers a pool was made with.
pub uninterp spec fn pool_size(p: ThreadPool) -> nat;

/// The per-request timeout a client was built with, in milliseconds.
pub uninterp spec fn client_timeout_ms(c: Client) -> u64;

/// The bytes of the User-Agent header a client sends with every request.
pub uninterp spec fn client_user_agent(c: Client) -> Seq<u8>;

/// Relies on http's HeaderValue::from_str (re-exported by reqwest): it
/// succeeds exactly when every byte of the text is a tab or lies in
/// 32..=255 other than 127, and the value then holds the text's UTF-8
/// bytes unchanged.
pub assume_specification[ HeaderValue::from_str ](src: &str) -> (r: Result<HeaderValue, InvalidHeaderValue>)
    ensures
        r is Ok <==> header_value_ok(src@),
        r matches Ok(h) ==> header_bytes(h) == encode_utf8(src@),
;

/// Relies on threadpool's ThreadPool::new: a pool of `num_threads` workers
/// (the count it stores and `max_count` reads back). It panics on zero
/// threads (excluded here) and when the system refuses to start a thread
/// (which no condition here can exclude).
pub assume_specification[ ThreadPool::new ](num_threads: usize) -> (r: ThreadPool)
    requires
        num_threads > 0,
    ensures
        pool_size(r) == num_threads,
;

/// Relies on reqwest's blocking ClientBuilder: a client that sends
/// `user_agent` as its User-Agent header on every request and gives up on
/// a request after `timeout_ms` milliseconds. Whether building succeeds
/// depends on the machine (TLS backend), so success is not promised. It
/// panics when called from inside an async runtime.
#[verifier::external_body]
fn build_client(timeout_ms: u64, user_agent: HeaderValue) -> (r: Result<Client, reqwest::Error>)
    ensures
        r matches Ok(c) ==> client_timeout_ms(c) == timeout_ms && client_user_agent(c)
            == header_bytes(user_agent),
{
    let mut headers = HeaderMap::new();
    headers.insert(USER_AGENT, user_agent);
    ClientBuilder::new()
        .timeout(std::time::Duration::from_millis(timeout_ms))
        .default_headers(headers)
        .build()
}

/// A verifier bound to one configuration: a shared HTTP client and a worker
/// pool with one thread per endpoint, so that all attempts run at once.
pub struct SyncVerifier {
    config: Config,
    client: Client,
    thread_pool: ThreadPool,
}

impl SyncVerifier {
    #[verifier::type_invariant]
    spec fn inv(&self) -> bool {
        self.config.api_hosts@.len() > 0
    }

    /// The configuration this verifier was built from.
    pub closed spec fn spec_config(&self) -> Config {
        self.config
    }

    /// The number of workers in the pool.
    pub closed spec fn spec_workers(&self) -> nat {
        pool_size(self.thread_pool)
    }

    /// The timeout of each request sent through the client, in milliseconds.
    pub closed spec fn spec_timeout_ms(&self) -> u64 {
        client_timeout_ms(self.client)
    }

    /// The User-Agent bytes the client sends with every request.
    pub closed spec fn spec_user_agent(&self) -> Seq<u8> {
        client_user_agent(self.client)
    }

    /// Checks `config` and builds the client and the worker pool. No
    /// endpoint is contacted. A verifier that comes back has one worker per
    /// endpoint and a client with the configured timeout and user agent.
    pub fn new(config: Config) -> (r: Result<SyncVerifier, YubicoError>)
        ensures
            config.api_hosts@.len() == 0 ==> r == Err::<SyncVerifier, YubicoError>(
                YubicoError::Configuration(ConfigError::EmptyEndpoints),
            ),
            config.api_hosts@.len() > 0 && !header_value_ok(config.user_agent@) ==> r == Err::<
                SyncVerifier,
                YubicoError,
            >(YubicoError::Configuration(ConfigError::InvalidUserAgent)),
            config.api_hosts@.len() > 0 && header_value_ok(config.user_agent@) ==> (r matches Ok(
                v,
            ) && v.spec_config() == config) || r == Err::<SyncVerifier, YubicoError>(
                YubicoError::Configuration(ConfigError::TransportBuild),
            ),
            r matches Ok(v) ==> {
                &&& v.spec_config() == config
                &&& v.spec_workers() == config.api_hosts@.len()
                &&& v.spec_timeout_ms() == config.request_timeout_ms
                &&& v.spec_user_agent() == encode_utf8(config.user_agent@)
            },
    {
        let number_of_hosts = config.api_hosts.len();
        if number_of_hosts == 0 {
            return Err(YubicoError::Configuration(ConfigError::EmptyEndpoints));
        }
        let value = match HeaderValue::from_str(config.user_agent.as_str()) {
            Ok(v) => v,
            Err(_) => {
                return Err(YubicoError::Configuration(ConfigError::InvalidUserAgent));
            },
        };
        let client = match build_client(config.request_timeout_ms, value) {
            Ok(c) => c,
            Err(_) => {
                return Err(YubicoError::Configuration(ConfigError::TransportBuild));
            },
        };
        let thread_pool = ThreadPool::new(number_of_hosts);
        Ok(SyncVerifier { config, client, thread_pool })
    }

    pub fn config(&self) -> (r: &Config)
        ensures
            *r == self.spec_config(),
            r.api_hosts@.len() > 0,
    {
        proof {
            use_type_invariant(self);
        }
        &self.config
    }

    /// The HTTP client shared by all attempts.
    pub fn client(&self) -> &Client {
        &self.client
    }

    /// The worker pool that runs the attempts.
    pub fn thread_pool(&self) -> &ThreadPool {
        &self.thread_pool
    }

    /// The addresses to contact for `request`: one per configured endpoint,
    /// each exactly once, in the configured order.
    pub fn endpoint_urls(&self, request: &VerificationRequest) -> (r: Vec<String>)
        ensures
            r@.len() == self.spec_config().api_hosts@.len(),
            forall|i: int|
                0 <= i < r@.len() ==> (#[trigger] r@[i])@ == url_of(
                    self.spec_config().api_hosts@[i]@,
                    request.query@,
                ),
    {
        let hosts = &self.config.api_hosts;
        let mut urls: Vec<String> = Vec::new();
        let mut i: usize = 0;
        while i < hosts.len()
            invariant
                i <= hosts@.len(),
                hosts == &self.config.api_hosts,
                urls@.len() == i,
                forall|j: int|
                    0 <= j < i ==> (#[trigger] urls@[j])@ == url_of(hosts@[j]@, request.query@),
            decreases hosts@.len() - i,
        {
            urls.push(request.build_url(hosts[i].as_str()));
            i = i + 1;
        }
        urls
    }

    /// Takes outcomes from `receiver`, in completion order, until the
    /// verdict is fixed: at the first success, once every endpoint has
    /// reported, or when the channel fails first. Outcomes that arrive after
    /// a success are not waited for.
    pub fn collect_outcomes(&self, receiver: &Receiver<EndpointOutcome>) -> (r: Aggregation)
        ensures
            r.wf(),
            r.expected() == self.spec_config().api_hosts@.len(),
            r.history().len() <= r.expected(),
            !(r.phase() is Pending),
            forall|j: int|
                0 <= j < r.history().len() ==> (#[trigger] phase_of(
                    r.expected(),
                    r.history().take(j),
                    false,
                )) is Pending,
    {
        let mut aggregation = self.start_aggregation();
        let ghost n = aggregation.expected();
        loop
            invariant_except_break
                !aggregation.broken(),
            invariant
                aggregation.wf(),
                aggregation.expected() == n,
                n == self.spec_config().api_hosts@.len(),
                forall|j: int|
                    0 <= j < aggregation.history().len() ==> (#[trigger] phase_of(
                        n,
                        aggregation.history().take(j),
                        false,
                    )) is Pending,
            ensures
                aggregation.wf(),
                aggregation.expected() == n,
                aggregation.history().len() <= n,
                !(aggregation.phase() is Pending),
                forall|j: int|
                    0 <= j < aggregation.history().len() ==> (#[trigger] phase_of(
                        n,
                        aggregation.history().take(j),
                        false,
                    )) is Pending,
            decreases n - aggregation.history().len(),
        {
            if aggregation.is_resolved() {
                proof {
                    aggregation.lemma_bounds();
                }
                break;
            }
            let ghost before = aggregation.history();
            match receive_outcome(receiver) {
                Some(outcome) => {
                    aggregation.receive(outcome);
                    proof {
                        aggregation.lemma_bounds();
                        let after = aggregation.history();
                        assert forall|j: int| 0 <= j < after.len() implies (#[trigger] phase_of(
                            n,
                            after.take(j),
                            false,
                        )) is Pending by {
                            if j < before.len() {
                                assert(after.take(j) =~= before.take(j));
                            } else {
                                assert(after.take(j) =~= before);
                            }
                        }
                    }
                },
                None => {
                    aggregation.channel_failed();
                    proof {
                        aggregation.lemma_bounds();
                    }
                    break;
                },
            }
        }
        aggregation
    }

    /// Starts the accounting of one verification: one outcome is expected
    /// from each configured endpoint.
    pub fn start_aggregation(&self) -> (r: Aggregation)
        ensures
            r.wf(),
            r.expected() == self.spec_config().api_hosts@.len(),
            r.history() == Seq::<EndpointOutcome>::empty(),
            !r.broken(),
            r.phase() == Phase::Pending,
    {
        proof {
            use_type_invariant(self);
        }
        Aggregation::new(self.config.api_hosts.len())
    }
}

} // verus!
