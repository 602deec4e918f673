//! The relay: what is sent to the remote store for a reading, and what the
//! store's answer means for the count of readings sent.
//!
//! Delivery is at most once. A reading whose request cannot be built, cannot be
//! sent or is answered with anything but success is dropped; the next one is
//! handled as if nothing had happened.

use crate::decimal::nat_text;
use crate::frame::Reading;
use vstd::prelude::*;
use vstd::string::*;

verus! {

/// Number of successful sends after which progress is logged.
pub const PROGRESS_EVERY: u64 = 10;

/// Largest number of characters that a host or a database name may have.
pub const MAX_NAME_CHARS: usize = 0x100_0000;

/// Largest number of characters of a text that an address is made of.
pub const MAX_URL_TEXT: usize = 0x200_0000;

/// Where and as whom readings are stored.
#[derive(Clone, Debug)]
pub struct SinkConfig {
    pub host: String,
    pub database: String,
    pub username: String,
    pub password: String,
}

/// A `SinkConfig` as text.
pub struct SinkConfigView {
    pub host: Seq<char>,
    pub database: Seq<char>,
    pub username: Seq<char>,
    pub password: Seq<char>,
}

impl View for SinkConfig {
    type V = SinkConfigView;

    open spec fn view(&self) -> SinkConfigView {
        SinkConfigView {
            host: self.host@,
            database: self.database@,
            username: self.username@,
            password: self.password@,
        }
    }
}

/// One request to the store: a POST to `url` with basic credentials and a form
/// of one field, `sql`, that holds `statement`.
#[derive(Clone, Debug)]
pub struct RelayRequest {
    pub url: String,
    pub username: String,
    pub password: String,
    pub statement: String,
}

/// A `RelayRequest` as text.
pub struct RelayRequestView {
    pub url: Seq<char>,
    pub username: Seq<char>,
    pub password: Seq<char>,
    pub statement: Seq<char>,
}

impl View for RelayRequest {
    type V = RelayRequestView;

    open spec fn view(&self) -> RelayRequestView {
        RelayRequestView {
            url: self.url@,
            username: self.username@,
            password: self.password@,
            statement: self.statement@,
        }
    }
}

/// Why a reading was dropped.
#[derive(Clone, Copy, Debug, PartialEq, Eq, Structural)]
pub enum RelayFault {
    /// No address could be made of the configured host.
    BadUrl,
    /// The request did not get through.
    Network,
    /// The store answered with a status that is no success.
    Status { code: u16 },
}

/// What the relay logs after a reading was handled.
#[derive(Clone, Copy, Debug, PartialEq, Eq, Structural)]
pub enum RelayLog {
    /// Nothing.
    Quiet,
    /// The number of readings sent so far.
    Progress { sent: u64 },
    /// The fault for which the reading was dropped.
    Dropped(RelayFault),
}

/// Count of the readings that the store has taken.
#[derive(Clone, Copy, Debug, PartialEq, Eq, Structural)]
pub struct RelayCounters {
    pub sent: u64,
}

/// The address of the store's SQL endpoint on `host`, before the database is
/// named.
pub open spec fn sink_url_text(host: Seq<char>) -> Seq<char> {
    "https://"@ + host + "/v1/sql"@
}

/// The statement that inserts `reading`: time, volatile organic compounds,
/// formaldehyde and carbon dioxide, in decimal.
pub open spec fn statement_text(reading: Reading) -> Seq<char> {
    "insert into air_quality (ts,tvoc,cho2,co2) values ("@ + nat_text(reading.captured_at as nat)
        + ","@ + reading.tvoc@.text() + ","@ + reading.formaldehyde@.text() + ","@
        + reading.co2@.text() + ")"@
}

/// The serialisation of the address `base` after the query parameter `key`
/// with the value `value` was added to it, as the `url` crate parses and
/// writes addresses; nothing where it does not take `base` for an absolute
/// address.
pub uninterp spec fn url_with_param(base: Seq<char>, key: Seq<char>, value: Seq<char>) -> Option<
    Seq<char>,
>;

/// Calls `reqwest::Url::parse_with_params` with the one pair `(key, value)` and
/// hands out the address as text. The result depends on the three texts alone.
/// The `url` crate keeps positions in an address as 32-bit numbers and panics
/// where an address that it builds outgrows them; texts of at most
/// `MAX_URL_TEXT` characters each keep every address, with all that is escaped
/// in it, far below that size.
#[verifier::external_body]
fn parse_with_param(base: &str, key: &str, value: &str) -> (r: Option<String>)
    requires
        base@.len() <= MAX_URL_TEXT,
        key@.len() <= MAX_URL_TEXT,
        value@.len() <= MAX_URL_TEXT,
    ensures
        match r {
            Some(url) => url_with_param(base@, key@, value@) == Some(url@),
            None => url_with_param(base@, key@, value@).is_none(),
        },
{
    reqwest::Url::parse_with_params(base, [(key, value)]).ok().map(String::from)
}

/// Formats with the `Display` of `u128`, which writes the number in decimal.
#[verifier::external_body]
fn u128_to_string(n: u128) -> (s: String)
    ensures
        s@ == nat_text(n as nat),
{
    n.to_string()
}

/// Whether `status` is a success: a code from 200 to 299.
pub open spec fn is_success(status: u16) -> bool {
    200 <= status <= 299
}

/// The fault in a delivery, if there is one. A delivery is the status that the
/// store answered with, or the fault that kept the request from being
/// answered.
pub open spec fn delivery_fault(delivery: Result<u16, RelayFault>) -> Option<RelayFault> {
    match delivery {
        Ok(status) => if is_success(status) {
            None
        } else {
            Some(RelayFault::Status { code: status })
        },
        Err(fault) => Some(fault),
    }
}

/// The count after a delivery: a success counts one, up to the largest count
/// there is, and a fault counts nothing.
pub open spec fn sent_after(sent: u64, delivery: Result<u16, RelayFault>) -> u64 {
    if delivery_fault(delivery).is_none() && sent < u64::MAX {
        (sent + 1) as u64
    } else {
        sent
    }
}

/// What is logged after a delivery: the fault, or the count on every tenth
/// success.
pub open spec fn log_after(sent: u64, delivery: Result<u16, RelayFault>) -> RelayLog {
    match delivery_fault(delivery) {
        Some(fault) => RelayLog::Dropped(fault),
        None => if sent_after(sent, delivery) % PROGRESS_EVERY == 0 {
            RelayLog::Progress { sent: sent_after(sent, delivery) }
        } else {
            RelayLog::Quiet
        },
    }
}

/// The address of the store's SQL endpoint on `host`.
pub fn sink_url(host: &str) -> (url: String)
    ensures
        url@ == sink_url_text(host@),
{
    let mut url = String::from_str("https://");
    url.append(host);
    url.append("/v1/sql");
    url
}

/// The statement that inserts `reading` into the store.
pub fn insert_statement(reading: &Reading) -> (statement: String)
    ensures
        statement@ == statement_text(*reading),
{
    let ts = u128_to_string(reading.captured_at);
    let tvoc = reading.tvoc.to_text();
    let formaldehyde = reading.formaldehyde.to_text();
    let co2 = reading.co2.to_text();
    let mut statement = String::from_str("insert into air_quality (ts,tvoc,cho2,co2) values (");
    statement.append(ts.as_str());
    statement.append(",");
    statement.append(tvoc.as_str());
    statement.append(",");
    statement.append(formaldehyde.as_str());
    statement.append(",");
    statement.append(co2.as_str());
    statement.append(")");
    statement
}

/// The request for `reading`, given the address that was made of the
/// configured host and database: with an address, the request that carries the
/// credentials and the insert statement; without one, the fault.
pub fn request_for(conn: &SinkConfig, reading: &Reading, endpoint: Option<String>) -> (r: Result<
    RelayRequest,
    RelayFault,
>)
    ensures
        match r {
            Ok(request) => endpoint.is_some() && request@ == (RelayRequestView {
                url: endpoint.unwrap()@,
                username: conn@.username,
                password: conn@.password,
                statement: statement_text(*reading),
            }),
            Err(fault) => endpoint.is_none() && fault == RelayFault::BadUrl,
        },
{
    match endpoint {
        Some(url) => Ok(
            RelayRequest {
                url,
                username: conn.username.clone(),
                password: conn.password.clone(),
                statement: insert_statement(reading),
            },
        ),
        None => Err(RelayFault::BadUrl),
    }
}

/// Whether host and database name of `conn` are short enough for an address
/// to be made of them.
pub open spec fn names_fit(conn: SinkConfigView) -> bool {
    conn.host.len() <= MAX_NAME_CHARS && conn.database.len() <= MAX_NAME_CHARS
}

/// The address of the request that stores a reading in the database of `conn`:
/// the SQL endpoint of the host with the database as the query parameter `db`,
/// where host and database name are short enough and the `url` crate takes the
/// endpoint for an address; else nothing.
pub open spec fn endpoint_of(conn: SinkConfigView) -> Option<Seq<char>> {
    if names_fit(conn) {
        url_with_param(sink_url_text(conn.host), "db"@, conn.database)
    } else {
        None
    }
}

/// The request that stores `reading` in the database of `conn`: a POST to the
/// SQL endpoint of the host, with the database as the query parameter `db`. A
/// host or a database name of more than `MAX_NAME_CHARS` characters is a bad
/// address. Whether an address can be made of a shorter host is for the `url`
/// crate to say.
pub fn build_request(conn: &SinkConfig, reading: &Reading) -> (r: Result<RelayRequest, RelayFault>)
    ensures
        match r {
            Ok(request) => endpoint_of(conn@) == Some(request@.url) && request@.username
                == conn@.username && request@.password == conn@.password && request@.statement
                == statement_text(*reading),
            Err(fault) => endpoint_of(conn@).is_none() && fault == RelayFault::BadUrl,
        },
        !names_fit(conn@) ==> r.is_err(),
{
    if conn.host.as_str().unicode_len() > MAX_NAME_CHARS
        || conn.database.as_str().unicode_len() > MAX_NAME_CHARS {
        return Err(RelayFault::BadUrl);
    }
    let base = sink_url(conn.host.as_str());
    proof {
        reveal_strlit("https://");
        reveal_strlit("/v1/sql");
        reveal_strlit("db");
    }
    let endpoint = parse_with_param(base.as_str(), "db", conn.database.as_str());
    request_for(conn, reading, endpoint)
}

impl RelayCounters {
    /// Counters of a relay that has sent nothing yet.
    pub fn new() -> (counters: RelayCounters)
        ensures
            counters.sent == 0,
    {
        RelayCounters { sent: 0 }
    }

    /// Takes note of a delivery: the status that the store answered with, or the
    /// fault that kept the request from being answered. A success is counted,
    /// and logged when the count is a multiple of ten; a fault is logged and
    /// leaves the count as it is.
    pub fn record(&mut self, delivery: Result<u16, RelayFault>) -> (log: RelayLog)
        ensures
            final(self).sent == sent_after(old(self).sent, delivery),
            log == log_after(old(self).sent, delivery),
    {
        match delivery {
            Ok(status) => {
                if 200 <= status && status <= 299 {
                    if self.sent < u64::MAX {
                        self.sent = self.sent + 1;
                    }
                    if self.sent % PROGRESS_EVERY == 0 {
                        RelayLog::Progress { sent: self.sent }
                    } else {
                        RelayLog::Quiet
                    }
                } else {
                    RelayLog::Dropped(RelayFault::Status { code: status })
                }
            },
            Err(fault) => RelayLog::Dropped(fault),
        }
    }
}

/// The count after the deliveries `deliveries`, in order, starting from `sent`.
pub open spec fn sent_after_all(sent: u64, deliveries: Seq<Result<u16, RelayFault>>) -> u64
    decreases deliveries.len(),
{
    if deliveries.len() == 0 {
        sent
    } else {
        sent_after(sent_after_all(sent, deliveries.drop_last()), deliveries.last())
    }
}

/// Number of successes among `deliveries`.
pub open spec fn successes(deliveries: Seq<Result<u16, RelayFault>>) -> nat
    decreases deliveries.len(),
{
    if deliveries.len() == 0 {
        0
    } else {
        successes(deliveries.drop_last()) + if delivery_fault(deliveries.last()).is_none() {
            1nat
        } else {
            0nat
        }
    }
}

/// A fault changes nothing but the log: the count stays, and the delivery that
/// follows is counted and logged as if the fault had not happened.
pub proof fn lemma_fault_leaves_relay_unchanged(
    sent: u64,
    failed: Result<u16, RelayFault>,
    next: Result<u16, RelayFault>,
)
    requires
        delivery_fault(failed).is_some(),
    ensures
        sent_after(sent, failed) == sent,
        log_after(sent, failed) == RelayLog::Dropped(delivery_fault(failed).unwrap()),
        sent_after(sent_after(sent, failed), next) == sent_after(sent, next),
        log_after(sent_after(sent, failed), next) == log_after(sent, next),
{
}

/// The count is the number of successes: starting from zero, after any
/// deliveries, as long as the count has room.
pub proof fn lemma_sent_counts_successes(deliveries: Seq<Result<u16, RelayFault>>)
    requires
        successes(deliveries) <= u64::MAX,
    ensures
        sent_after_all(0, deliveries) == successes(deliveries),
    decreases deliveries.len(),
{
    if deliveries.len() > 0 {
        lemma_sent_counts_successes(deliveries.drop_last());
    }
}

} // verus!
