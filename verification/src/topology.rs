//! Fixed settings of the service.

use vstd::prelude::*;
use vstd::string::*;

verus! {

/// The directory that the server and the worker share.
pub const SHARED_DIR: &'static str = "/tmp/transcribe";

/// The largest upload, in mebibytes.
pub const MAX_UPLOAD_MB: u64 = 500;

/// The largest request body, in bytes.
pub const MAX_BODY_BYTES: usize = 524_288_000;

/// How often old files are looked for, in seconds.
pub const CLEANUP_INTERVAL_SECS: u64 = 600;

/// The age in seconds above which a file is removed.
pub const MAX_FILE_AGE_SECS: u64 = 3600;

/// The pause in seconds before the worker tries again to reach the broker.
pub const RECONNECT_PAUSE_SECS: u64 = 5;

/// The port of the message broker.
pub const BROKER_PORT: u16 = 5672;

/// The exchange that tasks are published to.
pub const EXCHANGE: &'static str = "transcribe";

/// The kind of that exchange.
pub const EXCHANGE_KIND: &'static str = "direct";

/// The key that tasks are published with, and that the queue is bound by.
pub const ROUTING_KEY: &'static str = "transcribe.task";

/// The queue that the worker consumes.
pub const QUEUE: &'static str = "transcribe.task";

/// The name of the worker's consumer.
pub const CONSUMER_TAG: &'static str = "worker_consumer";

/// The delivery mode of messages that survive a restart of the broker.
pub const PERSISTENT: u8 = 2;

/// Whether a rejected message is queued again.
pub const REQUEUE_REJECTED: bool = false;

/// Whether an acknowledgement also covers the messages before it.
pub const ACK_MULTIPLE: bool = false;

/// How many unacknowledged tasks the broker hands to a worker.
pub const PREFETCH_COUNT: u16 = 1;

/// How many unacknowledged bytes the broker hands to a worker: no limit.
pub const PREFETCH_SIZE: u32 = 0;

/// Whether these limits hold for the whole connection.
pub const PREFETCH_GLOBAL: bool = false;

/// The value of a setting, or its default where it is not set.
pub open spec fn setting(value: Option<Seq<char>>, default: Seq<char>) -> Seq<char> {
    match value {
        Some(value) => value,
        None => default,
    }
}

fn setting_or(value: Option<String>, default: &str) -> (r: String)
    ensures
        r@ == setting(crate::task::optional_text(value), default@),
{
    match value {
        Some(value) => value,
        None => default.to_owned(),
    }
}

/// How the message broker is reached.
#[derive(Debug)]
pub struct BrokerSettings {
    pub host: String,
    pub user: String,
    pub password: String,
}

impl BrokerSettings {
    /// Takes the settings that are given, and the defaults for the others.
    pub fn from_vars(
        host: Option<String>,
        user: Option<String>,
        password: Option<String>,
    ) -> (r: BrokerSettings)
        ensures
            r.host@ == setting(crate::task::optional_text(host), "localhost"@),
            r.user@ == setting(crate::task::optional_text(user), "guest"@),
            r.password@ == setting(crate::task::optional_text(password), "guest"@),
            r.host@ == (if host is Some { host->Some_0@ } else { "localhost"@ }),
            r.user@ == (if user is Some { user->Some_0@ } else { "guest"@ }),
            r.password@ == (if password is Some { password->Some_0@ } else { "guest"@ }),
    {
        BrokerSettings {
            host: setting_or(host, "localhost"),
            user: setting_or(user, "guest"),
            password: setting_or(password, "guest"),
        }
    }
}

/// The address that the server listens on: the given host or the loopback
/// address, and the port of the service.
pub fn bind_address(host: Option<String>) -> (r: String)
    ensures
        r@ == setting(crate::task::optional_text(host), "127.0.0.1"@) + ":3000"@,
        r@ == (if host is Some { host->Some_0@ } else { "127.0.0.1"@ }) + ":3000"@,
{
    setting_or(host, "127.0.0.1").concat(":3000")
}

/// A setting that is given is taken as it is, and its default only where it is not.
pub proof fn law_given_settings_are_taken(value: Seq<char>, default: Seq<char>)
    ensures
        setting(Some(value), default) == value,
        setting(None, default) == default,
{
}

/// The settings fit each other: a request may be as large as the largest upload, in
/// bytes; a result outlives six sweeps, which is an hour; tasks are handed out one at
/// a time, and one that is refused does not come back.
pub proof fn law_settings_fit_each_other()
    ensures
        MAX_BODY_BYTES == MAX_UPLOAD_MB * 1024 * 1024,
        MAX_UPLOAD_MB == 500,
        MAX_FILE_AGE_SECS == 6 * CLEANUP_INTERVAL_SECS,
        MAX_FILE_AGE_SECS == 60 * 60,
        PERSISTENT == 2,
        PREFETCH_COUNT == 1,
        PREFETCH_SIZE == 0,
        !PREFETCH_GLOBAL,
        !REQUEUE_REJECTED,
        !ACK_MULTIPLE,
        BROKER_PORT == 5672,
        RECONNECT_PAUSE_SECS == 5,
        SHARED_DIR@ == "/tmp/transcribe"@,
        EXCHANGE@ == "transcribe"@,
        EXCHANGE_KIND@ == "direct"@,
        QUEUE@ == ROUTING_KEY@,
        ROUTING_KEY@ == "transcribe.task"@,
        CONSUMER_TAG@ == "worker_consumer"@,
{
}

} // verus!
