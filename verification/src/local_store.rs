use vstd::prelude::*;

use crate::bindings::opt_str_view;
use crate::error::{RuntimeError, is_config_err};
use crate::render::{context_text, nl, pairs_text, render_pairs, row, rows_view, write_context};
use crate::render_views::{render_report_tail, report_tail_text, write_line2};
use crate::runtime_config::LocalConfig;
use crate::text::{concat2, concat3, decimal, decimal_string, owned, str_eq, strings_view};

verus! {

/// Where local-first data is described as coming from.
pub open spec fn local_source() -> Seq<char> {
    "local replica · local first"@
}

fn local_source_exec() -> (r: String)
    ensures
        r@ == local_source(),
{
    owned("local replica · local first")
}

/// The reason given while the local replica is missing.
pub open spec fn not_initialized_reason() -> Seq<char> {
    "local replica database is not initialized"@
}

/// The next step while the local replica is missing.
pub open spec fn init_action() -> Seq<char> {
    "radroots store init"@
}

/// How many rows one table of the replica holds.
#[derive(Debug, Clone, PartialEq, Eq)]
pub struct TableCount {
    pub name: String,
    pub row_count: u64,
}

/// What the replica database reports of itself: its versions, schema hash and table sizes.
#[derive(Debug, Clone, PartialEq, Eq)]
pub struct ReplicaManifest {
    pub replica_db_version: String,
    pub backup_format_version: String,
    pub export_version: String,
    pub schema_hash: String,
    pub table_counts: Vec<TableCount>,
}

/// The replica's sync queue: events expected and still pending.
#[derive(Debug, Clone, Copy, PartialEq, Eq, Structural)]
pub struct LocalReplicaSyncView {
    pub expected_count: u64,
    pub pending_count: u64,
}

/// The sizes of the tables `local status` reports.
#[derive(Debug, Clone, Copy, PartialEq, Eq, Structural)]
pub struct LocalReplicaCountsView {
    pub farms: u64,
    pub listings: u64,
    pub profiles: u64,
    pub relays: u64,
    pub event_states: u64,
}

/// What `local status` reports.
#[derive(Debug, Clone, PartialEq, Eq)]
pub struct LocalStatusView {
    pub state: String,
    pub source: String,
    pub local_root: String,
    pub replica_db: String,
    pub path: String,
    pub replica_db_version: String,
    pub backup_format_version: String,
    pub schema_hash: String,
    pub counts: LocalReplicaCountsView,
    pub sync: LocalReplicaSyncView,
    pub reason: Option<String>,
    pub actions: Vec<String>,
}

/// What `local init` reports.
#[derive(Debug, Clone, PartialEq, Eq)]
pub struct LocalInitView {
    pub state: String,
    pub source: String,
    pub local_root: String,
    pub replica_db: String,
    pub path: String,
    pub replica_db_version: String,
    pub backup_format_version: String,
}

/// What `local backup` reports.
#[derive(Debug, Clone, PartialEq, Eq)]
pub struct LocalBackupView {
    pub state: String,
    pub source: String,
    pub file: String,
    pub size_bytes: u64,
    pub backup_format_version: String,
    pub replica_db_version: String,
    pub reason: Option<String>,
    pub actions: Vec<String>,
}

/// What `local export` reports.
#[derive(Debug, Clone, PartialEq, Eq)]
pub struct LocalExportView {
    pub state: String,
    pub source: String,
    pub format: String,
    pub file: String,
    pub records: usize,
    pub export_version: String,
    pub schema_hash: String,
    pub reason: Option<String>,
    pub actions: Vec<String>,
}

/// The two shapes `local export` writes.
#[derive(Debug, Clone, Copy, PartialEq, Eq, Structural)]
pub enum LocalExportFormat {
    Json,
    Ndjson,
}

/// The name of an export format.
pub open spec fn export_format_name(f: LocalExportFormat) -> Seq<char> {
    match f {
        LocalExportFormat::Json => "json"@,
        LocalExportFormat::Ndjson => "ndjson"@,
    }
}

/// The name of an export format.
pub fn export_format_str(f: LocalExportFormat) -> (r: &'static str)
    ensures
        r@ == export_format_name(f),
{
    match f {
        LocalExportFormat::Json => "json",
        LocalExportFormat::Ndjson => "ndjson",
    }
}

/// The row count of the first table named `name`, or 0 when there is none.
pub open spec fn table_rows(tables: Seq<TableCount>, name: Seq<char>) -> u64
    decreases tables.len(),
{
    if tables.len() == 0 {
        0
    } else if tables[0].name@ == name {
        tables[0].row_count
    } else {
        table_rows(tables.drop_first(), name)
    }
}

/// The row count of the first table named `name`, or 0 when there is none.
pub fn table_row_count(manifest: &ReplicaManifest, name: &str) -> (r: u64)
    ensures
        r == table_rows(manifest.table_counts@, name@),
{
    let tables = &manifest.table_counts;
    let mut i: usize = 0;
    proof {
        assert(tables@.skip(0) =~= tables@);
    }
    while i < tables.len()
        invariant
            i <= tables@.len(),
            tables@ == manifest.table_counts@,
            table_rows(tables@, name@) == table_rows(tables@.skip(i as int), name@),
        decreases tables@.len() - i,
    {
        proof {
            assert(tables@.skip(i as int).drop_first() =~= tables@.skip(i + 1));
            assert(tables@.skip(i as int)[0] == tables@[i as int]);
        }
        if str_eq(tables[i].name.as_str(), name) {
            proof {
                let rest = tables@.skip(i as int);
                assert(rest.len() > 0);
                assert(rest[0].name@ == name@);
                assert(table_rows(rest, name@) == rest[0].row_count);
            }
            return tables[i].row_count;
        }
        i = i + 1;
    }
    proof {
        assert(tables@.skip(i as int) =~= Seq::<TableCount>::empty());
    }
    0
}

/// The table sizes `local status` reports, read from the manifest.
pub open spec fn manifest_counts_spec(tables: Seq<TableCount>) -> LocalReplicaCountsView {
    LocalReplicaCountsView {
        farms: table_rows(tables, "farm"@),
        listings: table_rows(tables, "trade_product"@),
        profiles: table_rows(tables, "nostr_profile"@),
        relays: table_rows(tables, "nostr_relay"@),
        event_states: table_rows(tables, "nostr_event_state"@),
    }
}

/// The table sizes `local status` reports, read from the manifest.
pub fn manifest_counts(manifest: &ReplicaManifest) -> (r: LocalReplicaCountsView)
    ensures
        r == manifest_counts_spec(manifest.table_counts@),
{
    proof {
        reveal_strlit("farm");
        reveal_strlit("trade_product");
        reveal_strlit("nostr_profile");
        reveal_strlit("nostr_relay");
        reveal_strlit("nostr_event_state");
    }
    LocalReplicaCountsView {
        farms: table_row_count(manifest, "farm"),
        listings: table_row_count(manifest, "trade_product"),
        profiles: table_row_count(manifest, "nostr_profile"),
        relays: table_row_count(manifest, "nostr_relay"),
        event_states: table_row_count(manifest, "nostr_event_state"),
    }
}

/// Whether two paths are equal as `std::path::Path` compares them, component by component.
pub uninterp spec fn same_path(a: Seq<char>, b: Seq<char>) -> bool;

/// `std::path::Path::new(a) == std::path::Path::new(b)`: equal texts are equal paths.
#[verifier::external_body]
fn paths_equal(a: &str, b: &str) -> (r: bool)
    ensures
        r == same_path(a@, b@),
        a@ == b@ ==> r,
{
    std::path::Path::new(a) == std::path::Path::new(b)
}

/// Refuses an output path that is the replica database itself.
pub fn ensure_safe_output_path(local: &LocalConfig, output: &str) -> (r: Result<(), RuntimeError>)
    ensures
        same_path(output@, local.replica_db_path@) ==> is_config_err(
            r,
            "output path "@ + output@ + " would overwrite the local replica database"@,
        ),
        !same_path(output@, local.replica_db_path@) ==> r is Ok,
{
    if paths_equal(output, local.replica_db_path.as_str()) {
        return Err(RuntimeError::Config(concat3("output path ", output, " would overwrite the local replica database")));
    }
    Ok(())
}

/// What `local status` reports: unconfigured while the replica is missing, else its manifest and
/// sync queue.
pub fn local_status_view(local: &LocalConfig, replica: Option<(&ReplicaManifest, LocalReplicaSyncView)>) -> (r:
    LocalStatusView)
    ensures
        r.source@ == local_source(),
        r.local_root@ == local.root@,
        r.path@ == local.replica_db_path@,
        match replica {
            None => {
                &&& r.state@ == "unconfigured"@
                &&& r.replica_db@ == "missing"@
                &&& r.replica_db_version@.len() == 0 && r.backup_format_version@.len() == 0 && r.schema_hash@.len() == 0
                &&& r.counts == LocalReplicaCountsView {
                    farms: 0,
                    listings: 0,
                    profiles: 0,
                    relays: 0,
                    event_states: 0,
                }
                &&& r.sync == LocalReplicaSyncView { expected_count: 0, pending_count: 0 }
                &&& opt_str_view(r.reason) == Some(not_initialized_reason())
                &&& strings_view(r.actions@) == seq![init_action()]
            },
            Some((m, sync)) => {
                &&& r.state@ == "ready"@
                &&& r.replica_db@ == "ready"@
                &&& r.replica_db_version@ == m.replica_db_version@
                &&& r.backup_format_version@ == m.backup_format_version@
                &&& r.schema_hash@ == m.schema_hash@
                &&& r.counts == manifest_counts_spec(m.table_counts@)
                &&& r.sync == sync
                &&& r.reason is None
                &&& r.actions@.len() == 0
            },
        },
{
    match replica {
        None => {
            let mut actions: Vec<String> = Vec::new();
            actions.push(owned("radroots store init"));
            proof {
                assert(strings_view(actions@) =~= seq![init_action()]);
            }
            LocalStatusView {
                state: owned("unconfigured"),
                source: local_source_exec(),
                local_root: local.root.clone(),
                replica_db: owned("missing"),
                path: local.replica_db_path.clone(),
                replica_db_version: String::new(),
                backup_format_version: String::new(),
                schema_hash: String::new(),
                counts: LocalReplicaCountsView { farms: 0, listings: 0, profiles: 0, relays: 0, event_states: 0 },
                sync: LocalReplicaSyncView { expected_count: 0, pending_count: 0 },
                reason: Some(owned("local replica database is not initialized")),
                actions,
            }
        },
        Some((manifest, sync)) => LocalStatusView {
            state: owned("ready"),
            source: local_source_exec(),
            local_root: local.root.clone(),
            replica_db: owned("ready"),
            path: local.replica_db_path.clone(),
            replica_db_version: manifest.replica_db_version.clone(),
            backup_format_version: manifest.backup_format_version.clone(),
            schema_hash: manifest.schema_hash.clone(),
            counts: manifest_counts(manifest),
            sync,
            reason: None,
            actions: Vec::new(),
        },
    }
}

/// What `local init` reports: `ready` when the replica already existed, else `initialized`.
pub fn local_init_view(local: &LocalConfig, existed: bool, manifest: &ReplicaManifest) -> (r: LocalInitView)
    ensures
        r.state@ == (if existed {
            "ready"@
        } else {
            "initialized"@
        }),
        r.source@ == local_source(),
        r.local_root@ == local.root@,
        r.replica_db@ == "ready"@,
        r.path@ == local.replica_db_path@,
        r.replica_db_version@ == manifest.replica_db_version@,
        r.backup_format_version@ == manifest.backup_format_version@,
{
    LocalInitView {
        state: owned(if existed { "ready" } else { "initialized" }),
        source: local_source_exec(),
        local_root: local.root.clone(),
        replica_db: owned("ready"),
        path: local.replica_db_path.clone(),
        replica_db_version: manifest.replica_db_version.clone(),
        backup_format_version: manifest.backup_format_version.clone(),
    }
}

/// What `local backup` reports: unconfigured while the replica is missing, else the size written.
pub fn local_backup_view(file: &str, written: Option<(&ReplicaManifest, u64)>) -> (r: LocalBackupView)
    ensures
        r.source@ == local_source(),
        r.file@ == file@,
        match written {
            None => {
                &&& r.state@ == "unconfigured"@
                &&& r.size_bytes == 0
                &&& r.backup_format_version@.len() == 0 && r.replica_db_version@.len() == 0
                &&& opt_str_view(r.reason) == Some(not_initialized_reason())
                &&& strings_view(r.actions@) == seq![init_action()]
            },
            Some((m, size)) => {
                &&& r.state@ == "backup created"@
                &&& r.size_bytes == size
                &&& r.backup_format_version@ == m.backup_format_version@
                &&& r.replica_db_version@ == m.replica_db_version@
                &&& r.reason is None
                &&& r.actions@.len() == 0
            },
        },
{
    match written {
        None => {
            let mut actions: Vec<String> = Vec::new();
            actions.push(owned("radroots store init"));
            proof {
                assert(strings_view(actions@) =~= seq![init_action()]);
            }
            LocalBackupView {
                state: owned("unconfigured"),
                source: local_source_exec(),
                file: owned(file),
                size_bytes: 0,
                backup_format_version: String::new(),
                replica_db_version: String::new(),
                reason: Some(owned("local replica database is not initialized")),
                actions,
            }
        },
        Some((manifest, size)) => LocalBackupView {
            state: owned("backup created"),
            source: local_source_exec(),
            file: owned(file),
            size_bytes: size,
            backup_format_version: manifest.backup_format_version.clone(),
            replica_db_version: manifest.replica_db_version.clone(),
            reason: None,
            actions: Vec::new(),
        },
    }
}

/// How many records an export writes: the whole manifest as one JSON document, or one line for the
/// manifest, one for the sync queue and one per table.
pub open spec fn export_records(format: LocalExportFormat, tables: nat) -> nat {
    match format {
        LocalExportFormat::Json => 1,
        LocalExportFormat::Ndjson => 2 + tables,
    }
}

/// How many records an export of a manifest with `tables` tables writes.
pub fn export_record_count(format: LocalExportFormat, tables: usize) -> (r: usize)
    requires
        tables + 2 <= usize::MAX,
    ensures
        r as nat == export_records(format, tables as nat),
{
    match format {
        LocalExportFormat::Json => 1,
        LocalExportFormat::Ndjson => 2 + tables,
    }
}

/// What `local export` reports: unconfigured while the replica is missing, else the records written.
pub fn local_export_view(format: LocalExportFormat, file: &str, written: Option<(&ReplicaManifest, usize)>) -> (r:
    LocalExportView)
    ensures
        r.source@ == local_source(),
        r.format@ == export_format_name(format),
        r.file@ == file@,
        match written {
            None => {
                &&& r.state@ == "unconfigured"@
                &&& r.records == 0
                &&& r.export_version@.len() == 0 && r.schema_hash@.len() == 0
                &&& opt_str_view(r.reason) == Some(not_initialized_reason())
                &&& strings_view(r.actions@) == seq![init_action()]
            },
            Some((m, records)) => {
                &&& r.state@ == "exported"@
                &&& r.records == records
                &&& r.export_version@ == m.export_version@
                &&& r.schema_hash@ == m.schema_hash@
                &&& r.reason is None
                &&& r.actions@.len() == 0
            },
        },
{
    match written {
        None => {
            let mut actions: Vec<String> = Vec::new();
            actions.push(owned("radroots store init"));
            proof {
                assert(strings_view(actions@) =~= seq![init_action()]);
            }
            LocalExportView {
                state: owned("unconfigured"),
                source: local_source_exec(),
                format: owned(export_format_str(format)),
                file: owned(file),
                records: 0,
                export_version: String::new(),
                schema_hash: String::new(),
                reason: Some(owned("local replica database is not initialized")),
                actions,
            }
        },
        Some((manifest, records)) => LocalExportView {
            state: owned("exported"),
            source: local_source_exec(),
            format: owned(export_format_str(format)),
            file: owned(file),
            records,
            export_version: manifest.export_version.clone(),
            schema_hash: manifest.schema_hash.clone(),
            reason: None,
            actions: Vec::new(),
        },
    }
}

/// The rows of the `local` pairs of `local status`.
pub open spec fn local_status_rows(v: LocalStatusView) -> Seq<(Seq<char>, Seq<char>)> {
    seq![("replica db"@, v.replica_db@), ("path"@, v.path@), ("local root"@, v.local_root@)] + (if v.state@
        == "ready"@ {
        seq![
            ("replica db version"@, v.replica_db_version@),
            ("backup format version"@, v.backup_format_version@),
            ("schema hash"@, v.schema_hash@),
        ]
    } else {
        seq![]
    })
}

/// The `sync` and `counts` pairs of a ready replica.
pub open spec fn local_ready_text(v: LocalStatusView) -> Seq<char> {
    pairs_text(
        "sync"@,
        seq![("expected"@, decimal(v.sync.expected_count as nat)), ("pending"@, decimal(v.sync.pending_count as nat))],
    ) + pairs_text(
        "counts"@,
        seq![
            ("farms"@, decimal(v.counts.farms as nat)),
            ("listings"@, decimal(v.counts.listings as nat)),
            ("profiles"@, decimal(v.counts.profiles as nat)),
            ("relays"@, decimal(v.counts.relays as nat)),
            ("event states"@, decimal(v.counts.event_states as nat)),
        ],
    )
}

/// What `local status` writes.
pub open spec fn local_status_text(v: LocalStatusView) -> Seq<char> {
    context_text(
        if v.state@ == "ready"@ {
            "local · status"@
        } else {
            "local · unconfigured"@
        },
    ) + pairs_text("local"@, local_status_rows(v)) + (if v.state@ == "ready"@ {
        local_ready_text(v)
    } else {
        seq![]
    }) + report_tail_text(opt_str_view(v.reason), v.source@, strings_view(v.actions@))
}

fn render_local_ready(out: &mut String, v: &LocalStatusView)
    ensures
        final(out)@ == old(out)@ + local_ready_text(*v),
{
    let ghost start = out@;
    let mut sync: Vec<(String, String)> = Vec::new();
    sync.push(row("expected", decimal_string(v.sync.expected_count as u128)));
    sync.push(row("pending", decimal_string(v.sync.pending_count as u128)));
    proof {
        assert(rows_view(sync@) =~= seq![
            ("expected"@, decimal(v.sync.expected_count as nat)),
            ("pending"@, decimal(v.sync.pending_count as nat)),
        ]);
    }
    render_pairs(out, "sync", &sync);
    let mut counts: Vec<(String, String)> = Vec::new();
    counts.push(row("farms", decimal_string(v.counts.farms as u128)));
    counts.push(row("listings", decimal_string(v.counts.listings as u128)));
    counts.push(row("profiles", decimal_string(v.counts.profiles as u128)));
    counts.push(row("relays", decimal_string(v.counts.relays as u128)));
    counts.push(row("event states", decimal_string(v.counts.event_states as u128)));
    proof {
        assert(rows_view(counts@) =~= seq![
            ("farms"@, decimal(v.counts.farms as nat)),
            ("listings"@, decimal(v.counts.listings as nat)),
            ("profiles"@, decimal(v.counts.profiles as nat)),
            ("relays"@, decimal(v.counts.relays as nat)),
            ("event states"@, decimal(v.counts.event_states as nat)),
        ]);
    }
    render_pairs(out, "counts", &counts);
    proof {
        assert(out@ =~= start + local_ready_text(*v));
    }
}

/// Appends what `local status` writes.
pub fn render_local_status(out: &mut String, view: &LocalStatusView)
    ensures
        final(out)@ == old(out)@ + local_status_text(*view),
{
    let ghost start = out@;
    let ready = str_eq(view.state.as_str(), "ready");
    if ready {
        write_context(out, "local · status");
    } else {
        write_context(out, "local · unconfigured");
    }
    let mut rows: Vec<(String, String)> = Vec::new();
    rows.push(row("replica db", view.replica_db.clone()));
    rows.push(row("path", view.path.clone()));
    rows.push(row("local root", view.local_root.clone()));
    if ready {
        rows.push(row("replica db version", view.replica_db_version.clone()));
        rows.push(row("backup format version", view.backup_format_version.clone()));
        rows.push(row("schema hash", view.schema_hash.clone()));
    }
    proof {
        assert(rows_view(rows@) =~= local_status_rows(*view));
    }
    render_pairs(out, "local", &rows);
    if ready {
        render_local_ready(out, view);
    }
    render_report_tail(out, &view.reason, &view.source, &view.actions);
    proof {
        assert(out@ =~= start + local_status_text(*view));
    }
}

/// The rows of the `local` pairs of `local init`.
pub open spec fn local_init_rows(v: LocalInitView) -> Seq<(Seq<char>, Seq<char>)> {
    seq![
        ("replica db"@, v.replica_db@),
        ("path"@, v.path@),
        ("local root"@, v.local_root@),
        ("replica db version"@, v.replica_db_version@),
        ("backup format version"@, v.backup_format_version@),
    ]
}

/// What `local init` writes.
pub open spec fn local_init_text(v: LocalInitView) -> Seq<char> {
    context_text("local · "@ + v.state@) + pairs_text("local"@, local_init_rows(v)) + nl("source: "@ + v.source@)
}

/// Appends what `local init` writes.
pub fn render_local_init(out: &mut String, view: &LocalInitView)
    ensures
        final(out)@ == old(out)@ + local_init_text(*view),
{
    let ghost start = out@;
    let context = concat2("local · ", view.state.as_str());
    write_context(out, context.as_str());
    let mut rows: Vec<(String, String)> = Vec::new();
    rows.push(row("replica db", view.replica_db.clone()));
    rows.push(row("path", view.path.clone()));
    rows.push(row("local root", view.local_root.clone()));
    rows.push(row("replica db version", view.replica_db_version.clone()));
    rows.push(row("backup format version", view.backup_format_version.clone()));
    proof {
        assert(rows_view(rows@) =~= local_init_rows(*view));
    }
    render_pairs(out, "local", &rows);
    write_line2(out, "source: ", view.source.as_str());
    proof {
        assert(out@ =~= start + local_init_text(*view));
    }
}

/// The rows of the `backup` pairs.
pub open spec fn local_backup_rows(v: LocalBackupView) -> Seq<(Seq<char>, Seq<char>)> {
    seq![("file"@, v.file@)] + (if v.state@ != "unconfigured"@ {
        seq![
            ("size bytes"@, decimal(v.size_bytes as nat)),
            ("backup format version"@, v.backup_format_version@),
            ("replica db version"@, v.replica_db_version@),
        ]
    } else {
        seq![]
    })
}

/// What `local backup` writes.
pub open spec fn local_backup_text(v: LocalBackupView) -> Seq<char> {
    context_text("local · "@ + v.state@) + pairs_text("backup"@, local_backup_rows(v)) + report_tail_text(
        opt_str_view(v.reason),
        v.source@,
        strings_view(v.actions@),
    )
}

/// Appends what `local backup` writes.
pub fn render_local_backup(out: &mut String, view: &LocalBackupView)
    ensures
        final(out)@ == old(out)@ + local_backup_text(*view),
{
    let ghost start = out@;
    let context = concat2("local · ", view.state.as_str());
    write_context(out, context.as_str());
    let mut rows: Vec<(String, String)> = Vec::new();
    rows.push(row("file", view.file.clone()));
    if !str_eq(view.state.as_str(), "unconfigured") {
        rows.push(row("size bytes", decimal_string(view.size_bytes as u128)));
        rows.push(row("backup format version", view.backup_format_version.clone()));
        rows.push(row("replica db version", view.replica_db_version.clone()));
    }
    proof {
        assert(rows_view(rows@) =~= local_backup_rows(*view));
    }
    render_pairs(out, "backup", &rows);
    render_report_tail(out, &view.reason, &view.source, &view.actions);
    proof {
        assert(out@ =~= start + local_backup_text(*view));
    }
}

/// The rows of the `export` pairs.
pub open spec fn local_export_rows(v: LocalExportView) -> Seq<(Seq<char>, Seq<char>)> {
    seq![("format"@, v.format@), ("file"@, v.file@)] + (if v.state@ != "unconfigured"@ {
        seq![
            ("records"@, decimal(v.records as nat)),
            ("export version"@, v.export_version@),
            ("schema hash"@, v.schema_hash@),
        ]
    } else {
        seq![]
    })
}

/// What `local export` writes.
pub open spec fn local_export_text(v: LocalExportView) -> Seq<char> {
    context_text("local · "@ + v.state@) + pairs_text("export"@, local_export_rows(v)) + report_tail_text(
        opt_str_view(v.reason),
        v.source@,
        strings_view(v.actions@),
    )
}

/// Appends what `local export` writes.
pub fn render_local_export(out: &mut String, view: &LocalExportView)
    ensures
        final(out)@ == old(out)@ + local_export_text(*view),
{
    let ghost start = out@;
    let context = concat2("local · ", view.state.as_str());
    write_context(out, context.as_str());
    let mut rows: Vec<(String, String)> = Vec::new();
    rows.push(row("format", view.format.clone()));
    rows.push(row("file", view.file.clone()));
    if !str_eq(view.state.as_str(), "unconfigured") {
        rows.push(row("records", decimal_string(view.records as u128)));
        rows.push(row("export version", view.export_version.clone()));
        rows.push(row("schema hash", view.schema_hash.clone()));
    }
    proof {
        assert(rows_view(rows@) =~= local_export_rows(*view));
    }
    render_pairs(out, "export", &rows);
    render_report_tail(out, &view.reason, &view.source, &view.actions);
    proof {
        assert(out@ =~= start + local_export_text(*view));
    }
}

} // verus!
