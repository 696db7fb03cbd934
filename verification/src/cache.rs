//! Records and rules of the offline cache: the cached RFID items, the queue
//! of operations that wait for the network, and what the cache commands
//! answer. The host runs the queries; what is decided around them is here.

use vstd::prelude::*;
use vstd::string::*;
use crate::clock::unix_seconds_now;
use crate::text::{strip_spaces, without_spaces};

verus! {

/// A cached RFID item.
#[derive(Debug, Clone, PartialEq, Eq)]
pub struct RfidItem {
    pub id: String,
    pub tag: String,
    pub tid: Option<String>,
    pub linen_item_id: Option<String>,
    pub linen_item_name: Option<String>,
    pub linen_item_sku: Option<String>,
    pub full_number: Option<String>,
    pub batch_number: Option<i32>,
    pub piece_number: Option<i32>,
    pub status: Option<String>,
    pub client_id: Option<String>,
    pub client_name: Option<String>,
    pub updated_at: i64,
}

/// An operation that waits to be sent.
#[derive(Debug, Clone, PartialEq, Eq)]
pub struct PendingOperation {
    pub id: i64,
    pub operation_type: String,
    pub payload: String,
    pub created_at: i64,
    pub retry_count: i32,
    pub last_error: Option<String>,
}

/// What `str::to_uppercase` makes of a text: each character replaced by its
/// uppercase form as Unicode defines it, which may be more than one character.
pub uninterp spec fn uppercase_of(text: Seq<char>) -> Seq<char>;

/// `str::to_uppercase` returns the uppercase form of the text as a new string.
pub assume_specification[ str::to_uppercase ](s: &str) -> (r: String)
    ensures
        r@ == uppercase_of(s@),
;

/// The form under which a tag is looked up: in upper case and without
/// spaces.
pub fn normalize_tag(tag: &str) -> (r: String)
    ensures
        r@ == without_spaces(uppercase_of(tag@)),
{
    let upper = tag.to_uppercase();
    strip_spaces(upper.as_str())
}

/// What a query for one row came to.
#[derive(Debug, PartialEq, Eq)]
pub enum RowOutcome<T> {
    /// The query found this row.
    Row(T),
    /// The query found nothing.
    NoRows,
    /// The query failed; the text is the database's.
    Failed(String),
}

/// The answer to a lookup: the row if there is one, nothing if there is none,
/// and the failure otherwise. That nothing was found is no error.
pub fn lookup_result(outcome: RowOutcome<RfidItem>) -> (r: Result<Option<RfidItem>, String>)
    ensures
        match outcome {
            RowOutcome::Row(item) => r == Ok::<Option<RfidItem>, String>(Some(item)),
            RowOutcome::NoRows => r == Ok::<Option<RfidItem>, String>(None),
            RowOutcome::Failed(e) => r == Err::<Option<RfidItem>, String>(e),
        },
{
    match outcome {
        RowOutcome::Row(item) => Ok(Some(item)),
        RowOutcome::NoRows => Ok(None),
        RowOutcome::Failed(e) => Err(e),
    }
}

/// The time of the last synchronisation of an entity, in seconds since the
/// Unix epoch: what the log holds, and zero for an entity that was never
/// synchronised.
pub fn last_sync_result(outcome: RowOutcome<i64>) -> (r: Result<i64, String>)
    ensures
        match outcome {
            RowOutcome::Row(at) => r == Ok::<i64, String>(at),
            RowOutcome::NoRows => r == Ok::<i64, String>(0),
            RowOutcome::Failed(e) => r == Err::<i64, String>(e),
        },
{
    match outcome {
        RowOutcome::Row(at) => Ok(at),
        RowOutcome::NoRows => Ok(0),
        RowOutcome::Failed(e) => Err(e),
    }
}

/// An operation on its way into the queue: what it is, and when it was
/// queued, in seconds since the Unix epoch. The database gives it its number.
#[derive(Debug, PartialEq, Eq)]
pub struct QueuedOperation {
    pub operation_type: String,
    pub payload: String,
    pub created_at: i64,
}

impl QueuedOperation {
    /// The operation, queued at the given time.
    pub fn at(operation_type: &str, payload: &str, created_at: i64) -> (r: QueuedOperation)
        ensures
            r.operation_type@ == operation_type@,
            r.payload@ == payload@,
            r.created_at == created_at,
    {
        QueuedOperation {
            operation_type: String::from_str(operation_type),
            payload: String::from_str(payload),
            created_at,
        }
    }

    /// The operation, queued at this moment. The time is whatever the clock
    /// gives, never negative.
    pub fn now(operation_type: &str, payload: &str) -> (r: QueuedOperation)
        ensures
            r.operation_type@ == operation_type@,
            r.payload@ == payload@,
            r.created_at >= 0,
    {
        let created_at: i64 = unix_seconds_now();
        QueuedOperation::at(operation_type, payload, created_at)
    }
}

/// The note of a failed attempt to send an operation: which operation, what
/// went wrong, and when, in seconds since the Unix epoch.
#[derive(Debug, PartialEq, Eq)]
pub struct RetryMark {
    pub id: i64,
    pub error: String,
    pub retried_at: i64,
}

impl RetryMark {
    /// The note of an attempt that failed at the given time.
    pub fn at(id: i64, error: &str, retried_at: i64) -> (r: RetryMark)
        ensures
            r.id == id,
            r.error@ == error@,
            r.retried_at == retried_at,
    {
        RetryMark { id, error: String::from_str(error), retried_at }
    }

    /// The note of an attempt that failed at this moment. The time is
    /// whatever the clock gives, never negative.
    pub fn now(id: i64, error: &str) -> (r: RetryMark)
        ensures
            r.id == id,
            r.error@ == error@,
            r.retried_at >= 0,
    {
        let retried_at: i64 = unix_seconds_now();
        RetryMark::at(id, error, retried_at)
    }
}

/// The entry of the synchronisation log for one entity: when it was last
/// synchronised, in seconds since the Unix epoch, and how many records came.
#[derive(Debug, PartialEq, Eq)]
pub struct SyncMark {
    pub entity: String,
    pub synced_at: i64,
    pub count: i64,
}

impl SyncMark {
    /// The entry for a synchronisation at the given time.
    pub fn at(entity: &str, count: i64, synced_at: i64) -> (r: SyncMark)
        ensures
            r.entity@ == entity@,
            r.count == count,
            r.synced_at == synced_at,
    {
        SyncMark { entity: String::from_str(entity), synced_at, count }
    }

    /// The entry for a synchronisation at this moment. The time is whatever
    /// the clock gives, never negative.
    pub fn now(entity: &str, count: i64) -> (r: SyncMark)
        ensures
            r.entity@ == entity@,
            r.count == count,
            r.synced_at >= 0,
    {
        let synced_at: i64 = unix_seconds_now();
        SyncMark::at(entity, count, synced_at)
    }
}

/// The file of the cache, below the host's data directory.
pub const DATABASE_FILE: &'static str = "ecolav.db";

/// How many pending operations a request is answered with where it names no
/// limit.
pub const DEFAULT_PENDING_LIMIT: usize = 100;

/// The limit of a request for pending operations: the one it names, else the
/// default.
pub fn pending_limit(limit: Option<usize>) -> (r: usize)
    ensures
        r == match limit {
            Some(n) => n,
            None => DEFAULT_PENDING_LIMIT,
        },
{
    match limit {
        Some(n) => n,
        None => DEFAULT_PENDING_LIMIT,
    }
}

/// The figures of the cache.
#[derive(Clone, Copy, Debug, PartialEq, Eq, Structural)]
pub struct CacheStats {
    pub rfid_items_cached: i64,
    pub pending_operations: i64,
    pub last_sync_timestamp: i64,
}

/// The figures of the cache from its three counts. `last_sync` is the latest
/// synchronisation over all entities, `None` where there was none yet or the
/// log could not be read; it counts as zero then.
pub fn stats_from_counts(
    rfid_count: i64,
    pending_count: i64,
    last_sync: Option<i64>,
) -> (stats: CacheStats)
    ensures
        stats.rfid_items_cached == rfid_count,
        stats.pending_operations == pending_count,
        stats.last_sync_timestamp == match last_sync {
            Some(at) => at,
            None => 0,
        },
{
    CacheStats {
        rfid_items_cached: rfid_count,
        pending_operations: pending_count,
        last_sync_timestamp: match last_sync {
            Some(at) => at,
            None => 0,
        },
    }
}

/// The commands that the host offers on the cache.
#[derive(Clone, Copy, Debug, PartialEq, Eq, Structural)]
pub enum CacheCommand {
    LookupRfidLocal,
    CacheRfidItem,
    BulkCacheRfidItems,
    QueueOperation,
    GetPendingOperations,
    DeleteOperation,
    IncrementRetryCount,
    GetPendingCount,
    GetLastSync,
    UpdateSyncLog,
    GetDbStats,
}

impl CacheCommand {
    /// How the report of a failed command begins.
    pub open spec fn failure_prefix(self) -> Seq<char> {
        match self {
            CacheCommand::LookupRfidLocal => "Erro ao buscar tag no cache local: "@,
            CacheCommand::CacheRfidItem => "Erro ao salvar item no cache: "@,
            CacheCommand::BulkCacheRfidItems => "Erro ao salvar itens em lote: "@,
            CacheCommand::QueueOperation => "Erro ao enfileirar operação: "@,
            CacheCommand::GetPendingOperations => "Erro ao buscar operações pendentes: "@,
            CacheCommand::DeleteOperation => "Erro ao deletar operação: "@,
            CacheCommand::IncrementRetryCount => "Erro ao incrementar contador de retry: "@,
            CacheCommand::GetPendingCount => "Erro ao contar operações pendentes: "@,
            CacheCommand::GetLastSync => "Erro ao buscar última sincronização: "@,
            CacheCommand::UpdateSyncLog => "Erro ao atualizar log de sincronização: "@,
            CacheCommand::GetDbStats => "Erro ao buscar estatísticas: "@,
        }
    }

    /// The report of a failed command: what was attempted, and what the
    /// database said.
    pub fn failure(&self, detail: &str) -> (s: String)
        ensures
            s@ == self.failure_prefix() + detail@,
    {
        let prefix: &'static str = match self {
            CacheCommand::LookupRfidLocal => "Erro ao buscar tag no cache local: ",
            CacheCommand::CacheRfidItem => "Erro ao salvar item no cache: ",
            CacheCommand::BulkCacheRfidItems => "Erro ao salvar itens em lote: ",
            CacheCommand::QueueOperation => "Erro ao enfileirar operação: ",
            CacheCommand::GetPendingOperations => "Erro ao buscar operações pendentes: ",
            CacheCommand::DeleteOperation => "Erro ao deletar operação: ",
            CacheCommand::IncrementRetryCount => "Erro ao incrementar contador de retry: ",
            CacheCommand::GetPendingCount => "Erro ao contar operações pendentes: ",
            CacheCommand::GetLastSync => "Erro ao buscar última sincronização: ",
            CacheCommand::UpdateSyncLog => "Erro ao atualizar log de sincronização: ",
            CacheCommand::GetDbStats => "Erro ao buscar estatísticas: ",
        };
        let mut s = String::from_str(prefix);
        s.append(detail);
        s
    }
}

} // verus!
