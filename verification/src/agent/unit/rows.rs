//! Managed units as the state store keeps them.

use crate::agent::state::{UnitRow, UnitRowModel};
use crate::agent::task::sidecar::{self, socket_path};
use crate::json::{self, Json, JsonObject, JsonView};
use crate::protocol::unit::{HealthCheck, HealthCheckModel, ManagedUnit, ManagedUnitModel};
use crate::text;
use crate::wire::Wire;
use vstd::prelude::*;
use vstd::string::*;

verus! {

/// The socket of a unit.
pub fn socket_path_for(socket_dir: &str, unit_name: &str) -> (r: String)
    ensures
        r@ == sidecar::socket_of(socket_dir@, unit_name@),
{
    socket_path(socket_dir, unit_name)
}

/// What is kept of a unit's configuration and health check: the configuration
/// with the check under `health_check`. A configuration that is no object is kept
/// beside the check, under `config`.
pub open spec fn kept_config(config: Option<JsonView>, check: Option<HealthCheckModel>) -> Option<
    JsonView,
> {
    match (config, check) {
        (config, None) => config,
        (None, Some(c)) => Some(
            JsonView::Object(
                Map::<Seq<char>, JsonView>::empty().insert("health_check"@, HealthCheck::tree(c)),
            ),
        ),
        (Some(JsonView::Object(o)), Some(c)) => Some(
            JsonView::Object(o.insert("health_check"@, HealthCheck::tree(c))),
        ),
        (Some(v), Some(c)) => Some(
            JsonView::Object(
                Map::<Seq<char>, JsonView>::empty().insert("config"@, v).insert(
                    "health_check"@,
                    HealthCheck::tree(c),
                ),
            ),
        ),
    }
}

/// Puts a unit's configuration and health check together.
pub fn keep_config(config: &Option<Json>, check: &Option<HealthCheck>) -> (r: Option<Json>)
    ensures
        crate::wire::optional_model(r) == kept_config(
            crate::wire::optional_model(*config),
            crate::wire::optional_model(*check),
        ),
{
    match (config, check) {
        (None, None) => None,
        (Some(v), None) => Some(v.clone()),
        (None, Some(c)) => {
            let mut o = JsonObject::new();
            o.set("health_check", c.to_json());
            Some(o.finish())
        },
        (Some(v), Some(c)) => if v.is_object() {
            let mut kept = v.clone();
            kept.insert("health_check", c.to_json());
            Some(kept)
        } else {
            let mut o = JsonObject::new();
            o.set("config", v.clone());
            o.set("health_check", c.to_json());
            Some(o.finish())
        },
    }
}

/// The row of a unit that nothing is known of but what its task says.
pub open spec fn fresh_row(unit: ManagedUnitModel, now_ms: i64) -> UnitRowModel {
    UnitRowModel {
        name: unit.name,
        kind: unit.kind.wire_name(),
        version: unit.version,
        state: unit.state.wire_name(),
        health: None,
        health_error: None,
        pid: None,
        socket_path: unit.socket_path,
        config_json: match kept_config(unit.config, unit.health_check) {
            Some(v) => Some(json::compact_text(v)),
            None => None,
        },
        updated_at: now_ms,
    }
}

/// The row of a unit that nothing is known of but what its task says. What it
/// keeps of the configuration can be read again.
pub fn unit_to_row(unit: &ManagedUnit, now_ms: i64) -> (r: UnitRow)
    ensures
        r@ == fresh_row(unit.model(), now_ms),
        kept_config(unit.model().config, unit.model().health_check) matches Some(v)
            ==> json::rereadable(v) ==> json::parsed_text(r@.config_json->0) == Ok::<
            JsonView,
            Seq<char>,
        >(v),
{
    UnitRow {
        name: unit.name.clone(),
        kind: unit.kind.as_str().to_owned(),
        version: unit.version.clone(),
        state: unit.state.as_str().to_owned(),
        health: None,
        health_error: None,
        pid: None,
        socket_path: match &unit.socket_path {
            Some(p) => Some(p.clone()),
            None => None,
        },
        config_json: match keep_config(&unit.config, &unit.health_check) {
            Some(v) => Some(v.to_text()),
            None => None,
        },
        updated_at: now_ms,
    }
}

impl UnitRow {
    /// A copy.
    pub fn duplicate(&self) -> (r: UnitRow)
        ensures
            r == *self,
    {
        UnitRow {
            name: self.name.clone(),
            kind: self.kind.clone(),
            version: self.version.clone(),
            state: self.state.clone(),
            health: copy_text(&self.health),
            health_error: copy_text(&self.health_error),
            pid: self.pid,
            socket_path: copy_text(&self.socket_path),
            config_json: copy_text(&self.config_json),
            updated_at: self.updated_at,
        }
    }
}

/// A copy of an optional text.
pub fn copy_text(s: &Option<String>) -> (r: Option<String>)
    ensures
        r == *s,
{
    match s {
        Some(x) => Some(x.clone()),
        None => None,
    }
}

/// What is kept of a unit's configuration and check: without a check the
/// configuration as it is; with one an object that has it under `health_check`,
/// beside the members of a configuration that is an object, and beside any other
/// under `config`.
pub proof fn law_configuration_is_kept_whole(
    config: Option<JsonView>,
    check: Option<HealthCheckModel>,
    key: Seq<char>,
)
    ensures
        ({
            let kept = kept_config(config, check);
            &&& check is None ==> kept == config
            &&& check matches Some(c) ==> kept is Some && kept->0.field("health_check"@) == Some(
                HealthCheck::tree(c),
            )
            &&& (check is Some && config is Some && config->0 is Object && key != "health_check"@)
                ==> kept->0.field(key) == config->0.field(key)
            &&& (check is Some && config is Some && !(config->0 is Object)) ==> kept->0.field(
                "config"@,
            ) == config
        }),
{
    reveal_strlit("config");
    reveal_strlit("health_check");
    assert("config"@.len() == 6);
    assert("health_check"@.len() == 12);
}

/// The row of a unit says what its task says of it, and knows nothing else.
pub proof fn law_fresh_row_says_what_the_task_says(unit: ManagedUnitModel, now_ms: i64)
    ensures
        ({
            let row = fresh_row(unit, now_ms);
            &&& row.name == unit.name
            &&& row.kind == unit.kind.wire_name()
            &&& row.version == unit.version
            &&& row.state == unit.state.wire_name()
            &&& row.socket_path == unit.socket_path
            &&& row.health is None
            &&& row.health_error is None
            &&& row.pid is None
            &&& row.updated_at == now_ms
            &&& row.config_json is Some <==> unit.config is Some || unit.health_check is Some
            &&& (unit.config is Some && unit.health_check is None) ==> row.config_json == Some(
                json::compact_text(unit.config->0),
            )
        }),
{
}

} // verus!
