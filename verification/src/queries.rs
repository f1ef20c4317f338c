//! The ClickHouse statements the storage layer sends.

use vstd::prelude::*;
use crate::api::Pagination;
use crate::text::{decimal_string, decimal_text};

verus! {

/// The tables that keep a per-bell history.
#[derive(Debug, Clone, Copy, PartialEq, Eq, Structural)]
pub enum HistoryTable {
    SensorReadings,
    CastingSimulation,
    AcousticSimulation,
    CastingProcess,
}

impl HistoryTable {
    /// The table's name.
    pub open spec fn spec_name(self) -> Seq<char> {
        match self {
            HistoryTable::SensorReadings => "sensor_readings"@,
            HistoryTable::CastingSimulation => "casting_simulation"@,
            HistoryTable::AcousticSimulation => "acoustic_simulation"@,
            HistoryTable::CastingProcess => "casting_process"@,
        }
    }

    /// The table's name.
    pub fn name(&self) -> (name: &'static str)
        ensures
            name@ == self.spec_name(),
    {
        match self {
            HistoryTable::SensorReadings => "sensor_readings",
            HistoryTable::CastingSimulation => "casting_simulation",
            HistoryTable::AcousticSimulation => "acoustic_simulation",
            HistoryTable::CastingProcess => "casting_process",
        }
    }
}

/// Different tables have different names, so a history statement reads the
/// table it was asked for and no other.
pub proof fn lemma_table_names_distinct(a: HistoryTable, b: HistoryTable)
    ensures
        a != b ==> a.spec_name() != b.spec_name(),
{
    reveal_strlit("sensor_readings");
    assert("sensor_readings"@.len() == 15);
    reveal_strlit("casting_simulation");
    assert("casting_simulation"@.len() == 18);
    reveal_strlit("acoustic_simulation");
    assert("acoustic_simulation"@.len() == 19);
    reveal_strlit("casting_process");
    assert("casting_process"@.len() == 15);
    assert("casting_simulation"@ != "sensor_readings"@);
    assert("acoustic_simulation"@ != "sensor_readings"@);
    assert("acoustic_simulation"@ != "casting_simulation"@);
    assert("casting_process"@[0] != "sensor_readings"@[0]);
    assert("casting_process"@ != "sensor_readings"@);
    assert("casting_process"@ != "casting_simulation"@);
    assert("casting_process"@ != "acoustic_simulation"@);
}

impl HistoryTable {
    /// How many rows a history query returns when the client sets no limit.
    pub open spec fn spec_default_limit(self) -> usize {
        match self {
            HistoryTable::SensorReadings => 100,
            HistoryTable::CastingSimulation => 20,
            HistoryTable::AcousticSimulation => 20,
            HistoryTable::CastingProcess => 50,
        }
    }

    /// How many rows a history query returns when the client sets no limit:
    /// a hundred sensor readings, twenty simulations of either kind, fifty
    /// casting-process records.
    pub fn default_limit(&self) -> (limit: usize)
        ensures
            limit == self.spec_default_limit(),
    {
        match self {
            HistoryTable::SensorReadings => 100,
            HistoryTable::CastingSimulation => 20,
            HistoryTable::AcousticSimulation => 20,
            HistoryTable::CastingProcess => 50,
        }
    }
}

/// The number of rows to fetch from `table` for a request with `pagination`:
/// its limit when given, the table's default otherwise.
pub fn history_limit(pagination: Pagination, table: HistoryTable) -> (limit: usize)
    ensures
        limit == match pagination.limit {
            Some(l) => l,
            None => table.spec_default_limit(),
        },
{
    match pagination.limit {
        Some(l) => l,
        None => table.default_limit(),
    }
}

/// The statement that fetches the newest `limit` rows of a bell's history,
/// newest first.
pub open spec fn history_statement(table: HistoryTable, bell_id: Seq<char>, limit: nat) -> Seq<char> {
    "SELECT * FROM "@ + table.spec_name() + " WHERE bell_id = toUUID('"@ + bell_id
        + "')\n             ORDER BY timestamp DESC LIMIT "@ + decimal_text(limit)
}

/// The statement that fetches the hundred newest unresolved alerts.
pub open spec fn active_alerts_statement() -> Seq<char> {
    "SELECT * FROM alerts WHERE resolved = false ORDER BY timestamp DESC LIMIT 100"@
}

/// The statement that fetches the hundred newest unresolved alerts.
pub fn active_alerts_query() -> (statement: &'static str)
    ensures
        statement@ == active_alerts_statement(),
{
    "SELECT * FROM alerts WHERE resolved = false ORDER BY timestamp DESC LIMIT 100"
}

/// The statement that marks an alert as resolved now.
pub open spec fn resolve_alert_statement(alert_id: Seq<char>) -> Seq<char> {
    "ALTER TABLE alerts UPDATE resolved = true, resolved_at = now()\n             WHERE alert_id = toUUID('"@
        + alert_id + "')"@
}

/// The statement that fetches the newest `limit` rows of the history of the
/// bell whose UUID is written `bell_id`.
pub fn history_query(table: HistoryTable, bell_id: &str, limit: usize) -> (statement: String)
    ensures
        statement@ == history_statement(table, bell_id@, limit as nat),
{
    let mut statement = "SELECT * FROM ".to_string();
    statement.append(table.name());
    statement.append(" WHERE bell_id = toUUID('");
    statement.append(bell_id);
    statement.append("')\n             ORDER BY timestamp DESC LIMIT ");
    let count = decimal_string(limit as u64);
    statement.append(count.as_str());
    statement
}

/// The statement that marks the alert whose UUID is written `alert_id` as
/// resolved.
pub fn resolve_alert_query(alert_id: &str) -> (statement: String)
    ensures
        statement@ == resolve_alert_statement(alert_id@),
{
    let mut statement = "ALTER TABLE alerts UPDATE resolved = true, resolved_at = now()\n             WHERE alert_id = toUUID('".to_string();
    statement.append(alert_id);
    statement.append("')");
    statement
}

} // verus!
