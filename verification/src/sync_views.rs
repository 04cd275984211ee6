use vstd::prelude::*;

use crate::bindings::opt_str_view;
use crate::farm::delivery_display;
use crate::farm_publish::{render_spaced_section, spaced_section};
use crate::job::format_clock;
use crate::render::{
    context_text, field_rows_string, next_text, nl, pairs_text, render_field_rows, render_item_section,
    render_pairs, row, rows_view, write_context, write_line,
};
use crate::render_views::{clock_text, humanize_machine_label, render_report_tail, report_tail_text};
use crate::sell::{notice_text, render_notice};
use crate::text::{concat2, decimal, decimal_string, owned, push_char, str_eq, strings_view};

verus! {

/// How fresh the local replica is: its state, a display line, and the age and time of the
/// latest event when known.
#[derive(Debug, Clone, PartialEq, Eq)]
pub struct SyncFreshnessView {
    pub state: String,
    pub display: String,
    pub age_seconds: Option<u64>,
    pub last_event_at: Option<u64>,
}

/// The sync queue: events expected and still pending.
#[derive(Debug, Clone, PartialEq, Eq)]
pub struct SyncQueueView {
    pub expected_count: usize,
    pub pending_count: usize,
}

/// What `sync status` reports.
#[derive(Debug, Clone, PartialEq, Eq)]
pub struct SyncStatusView {
    pub state: String,
    pub source: String,
    pub freshness: SyncFreshnessView,
    pub queue: SyncQueueView,
    pub relay_count: usize,
    pub publish_policy: String,
    pub replica_db: String,
    pub local_root: String,
    pub reason: Option<String>,
    pub actions: Vec<String>,
}

/// What `sync pull` and `sync push` report.
#[derive(Debug, Clone, PartialEq, Eq)]
pub struct SyncActionView {
    pub direction: String,
    pub state: String,
    pub source: String,
    pub freshness: SyncFreshnessView,
    pub queue: SyncQueueView,
    pub relay_count: usize,
    pub publish_policy: String,
    pub replica_db: String,
    pub local_root: String,
    pub reason: Option<String>,
    pub actions: Vec<String>,
}

/// One observation of the market sync while it is watched.
#[derive(Debug, Clone, PartialEq, Eq)]
pub struct SyncWatchFrameView {
    pub observed_at: u64,
    pub state: String,
    pub relay_count: usize,
    pub freshness: SyncFreshnessView,
    pub queue: SyncQueueView,
}

/// What `sync watch` reports.
#[derive(Debug, Clone, PartialEq, Eq)]
pub struct SyncWatchView {
    pub state: String,
    pub frames: Vec<SyncWatchFrameView>,
    pub reason: Option<String>,
    pub actions: Vec<String>,
}

/// The rows every sync report shares, after its leading rows.
pub open spec fn sync_common_rows(
    state: Seq<char>,
    freshness: SyncFreshnessView,
    queue: SyncQueueView,
    relay_count: usize,
    publish_policy: Seq<char>,
    replica_db: Seq<char>,
    local_root: Seq<char>,
) -> Seq<(Seq<char>, Seq<char>)> {
    seq![
        ("status"@, state),
        ("freshness"@, freshness.display@),
        ("pending"@, decimal(queue.pending_count as nat)),
        ("expected"@, decimal(queue.expected_count as nat)),
        ("relays"@, decimal(relay_count as nat)),
        ("publish policy"@, publish_policy),
        ("replica db"@, replica_db),
        ("local root"@, local_root),
    ]
}

/// What `sync status` writes.
pub open spec fn sync_status_text(v: SyncStatusView) -> Seq<char> {
    context_text(
        if v.state@ == "ready"@ {
            "activity · sync status"@
        } else {
            "activity · sync unconfigured"@
        },
    ) + pairs_text(
        "sync"@,
        sync_common_rows(
            v.state@,
            v.freshness,
            v.queue,
            v.relay_count,
            v.publish_policy@,
            v.replica_db@,
            v.local_root@,
        ),
    ) + report_tail_text(opt_str_view(v.reason), v.source@, strings_view(v.actions@))
}

/// What `sync pull` and `sync push` write.
pub open spec fn sync_action_text(v: SyncActionView) -> Seq<char> {
    context_text("activity · sync "@ + v.direction@ + " "@ + v.state@) + pairs_text(
        "sync"@,
        seq![("direction"@, v.direction@)] + sync_common_rows(
            v.state@,
            v.freshness,
            v.queue,
            v.relay_count,
            v.publish_policy@,
            v.replica_db@,
            v.local_root@,
        ),
    ) + report_tail_text(opt_str_view(v.reason), v.source@, strings_view(v.actions@))
}

fn push_common_rows(
    rows: &mut Vec<(String, String)>,
    state: &String,
    freshness: &SyncFreshnessView,
    queue: &SyncQueueView,
    relay_count: usize,
    publish_policy: &String,
    replica_db: &String,
    local_root: &String,
)
    ensures
        rows_view(final(rows)@) == rows_view(old(rows)@) + sync_common_rows(
            state@,
            *freshness,
            *queue,
            relay_count,
            publish_policy@,
            replica_db@,
            local_root@,
        ),
{
    let ghost before = rows_view(rows@);
    rows.push(row("status", state.clone()));
    rows.push(row("freshness", freshness.display.clone()));
    rows.push(row("pending", decimal_string(queue.pending_count as u128)));
    rows.push(row("expected", decimal_string(queue.expected_count as u128)));
    rows.push(row("relays", decimal_string(relay_count as u128)));
    rows.push(row("publish policy", publish_policy.clone()));
    rows.push(row("replica db", replica_db.clone()));
    rows.push(row("local root", local_root.clone()));
    proof {
        assert(rows_view(rows@) =~= before + sync_common_rows(
            state@,
            *freshness,
            *queue,
            relay_count,
            publish_policy@,
            replica_db@,
            local_root@,
        ));
    }
}

/// Appends what `sync status` writes.
pub fn render_sync_status(out: &mut String, view: &SyncStatusView)
    ensures
        final(out)@ == old(out)@ + sync_status_text(*view),
{
    let ghost start = out@;
    if str_eq(view.state.as_str(), "ready") {
        write_context(out, "activity · sync status");
    } else {
        write_context(out, "activity · sync unconfigured");
    }
    let mut rows: Vec<(String, String)> = Vec::new();
    proof {
        assert(rows_view(rows@) =~= seq![]);
    }
    push_common_rows(
        &mut rows,
        &view.state,
        &view.freshness,
        &view.queue,
        view.relay_count,
        &view.publish_policy,
        &view.replica_db,
        &view.local_root,
    );
    render_pairs(out, "sync", &rows);
    render_report_tail(out, &view.reason, &view.source, &view.actions);
    proof {
        assert(out@ =~= start + sync_status_text(*view));
    }
}

/// Appends what `sync pull` and `sync push` write.
pub fn render_sync_action(out: &mut String, view: &SyncActionView)
    ensures
        final(out)@ == old(out)@ + sync_action_text(*view),
{
    let ghost start = out@;
    let head = concat2("activity · sync ", view.direction.as_str());
    let context = crate::text::concat3(head.as_str(), " ", view.state.as_str());
    write_context(out, context.as_str());
    let mut rows: Vec<(String, String)> = Vec::new();
    rows.push(row("direction", view.direction.clone()));
    proof {
        assert(rows_view(rows@) =~= seq![("direction"@, view.direction@)]);
    }
    push_common_rows(
        &mut rows,
        &view.state,
        &view.freshness,
        &view.queue,
        view.relay_count,
        &view.publish_policy,
        &view.replica_db,
        &view.local_root,
    );
    render_pairs(out, "sync", &rows);
    render_report_tail(out, &view.reason, &view.source, &view.actions);
    proof {
        assert(out@ =~= start + sync_action_text(*view));
    }
}

/// The rows of one `sync watch` frame.
pub open spec fn sync_frame_rows(f: SyncWatchFrameView) -> Seq<(Seq<char>, Seq<char>)> {
    seq![
        ("State"@, delivery_display(f.state@)),
        ("Relays"@, decimal(f.relay_count as nat)),
        ("Updated"@, f.freshness.display@),
        ("Queue"@, decimal(f.queue.pending_count as nat) + " pending"@),
    ]
}

/// One `sync watch` frame, after a blank line.
pub open spec fn sync_frame_text(f: SyncWatchFrameView) -> Seq<char> {
    seq!['\n'] + nl(clock_text(f.observed_at)) + field_rows_string(sync_frame_rows(f)).push('\n')
}

/// The `sync watch` frames.
pub open spec fn sync_frames_text(frames: Seq<SyncWatchFrameView>) -> Seq<char>
    decreases frames.len(),
{
    if frames.len() == 0 {
        seq![]
    } else {
        sync_frames_text(frames.drop_last()) + sync_frame_text(frames.last())
    }
}

/// What `sync watch` writes.
pub open spec fn sync_watch_text(v: SyncWatchView) -> Seq<char> {
    let state = v.state@;
    let actions = strings_view(v.actions@);
    let reason = opt_str_view(v.reason);
    if state == "unconfigured"@ {
        notice_text("Not ready yet"@, reason, actions)
    } else if state == "unavailable"@ {
        notice_text("Unavailable right now"@, reason, actions)
    } else if state == "error"@ {
        notice_text("Could not complete the command"@, reason, actions)
    } else {
        nl("Watching market sync"@) + (if v.frames@.len() == 0 {
            match reason {
                Some(r) => seq!['\n'] + nl(r),
                None => seq![],
            }
        } else {
            sync_frames_text(v.frames@)
        }) + next_text(actions)
    }
}

fn render_sync_frame(out: &mut String, frame: &SyncWatchFrameView)
    ensures
        final(out)@ == old(out)@ + sync_frame_text(*frame),
{
    let ghost start = out@;
    push_char(out, '\n');
    let clock = format_clock(frame.observed_at);
    write_line(out, clock.as_str());
    let mut rows: Vec<(String, String)> = Vec::new();
    rows.push(row("State", humanize_machine_label(frame.state.as_str())));
    rows.push(row("Relays", decimal_string(frame.relay_count as u128)));
    rows.push(row("Updated", frame.freshness.display.clone()));
    let pending = decimal_string(frame.queue.pending_count as u128);
    rows.push(row("Queue", concat2(pending.as_str(), " pending")));
    proof {
        assert(rows_view(rows@) =~= sync_frame_rows(*frame));
    }
    render_field_rows(out, &rows);
    proof {
        assert(out@ =~= start + sync_frame_text(*frame));
    }
}

/// Appends what `sync watch` writes.
pub fn render_sync_watch(out: &mut String, view: &SyncWatchView)
    ensures
        final(out)@ == old(out)@ + sync_watch_text(*view),
{
    let ghost start = out@;
    let state = view.state.as_str();
    if str_eq(state, "unconfigured") {
        render_notice(out, "Not ready yet", &view.reason, &view.actions);
        return;
    }
    if str_eq(state, "unavailable") {
        render_notice(out, "Unavailable right now", &view.reason, &view.actions);
        return;
    }
    if str_eq(state, "error") {
        render_notice(out, "Could not complete the command", &view.reason, &view.actions);
        return;
    }
    write_line(out, "Watching market sync");
    let ghost s1 = out@;
    if view.frames.len() == 0 {
        if let Some(reason) = &view.reason {
            push_char(out, '\n');
            write_line(out, reason.as_str());
        }
    } else {
        for i in 0..view.frames.len()
            invariant
                out@ == s1 + sync_frames_text(view.frames@.take(i as int)),
        {
            proof {
                assert(view.frames@.take(i + 1).drop_last() =~= view.frames@.take(i as int));
            }
            render_sync_frame(out, &view.frames[i]);
        }
        proof {
            assert(view.frames@.take(view.frames@.len() as int) =~= view.frames@);
        }
    }
    let ghost s2 = out@;
    if view.actions.len() > 0 {
        render_item_section(out, "Next", &view.actions);
    }
    proof {
        let v = *view;
        let mid: Seq<char> = if v.frames@.len() == 0 {
            match opt_str_view(v.reason) {
                Some(r) => seq!['\n'] + nl(r),
                None => seq![],
            }
        } else {
            sync_frames_text(v.frames@)
        };
        assert(s2 =~= s1 + mid);
        assert(out@ =~= start + sync_watch_text(v));
    }
}

/// What is missing before the market data can be updated.
pub open spec fn market_missing(v: SyncActionView) -> Seq<Seq<char>> {
    (if v.replica_db@ == "missing"@ {
        seq!["Local market data"@]
    } else {
        seq![]
    }) + (if v.relay_count == 0 {
        seq!["Relay configuration"@]
    } else {
        seq![]
    })
}

/// What `market update` writes.
pub open spec fn market_update_text(v: SyncActionView) -> Seq<char> {
    let actions = strings_view(v.actions@);
    if v.state@ == "unconfigured"@ {
        nl("Not ready yet"@) + spaced_section("Missing"@, market_missing(v)) + spaced_section("Next"@, actions)
    } else if v.state@ == "unavailable"@ {
        notice_text("Unavailable right now"@, opt_str_view(v.reason), actions)
    } else {
        nl("Market data updated"@) + seq!['\n'] + pairs_text(
            "Local data"@,
            seq![
                ("State"@, v.state@),
                ("Updated"@, v.freshness.display@),
                ("Relays"@, decimal(v.relay_count as nat)),
            ],
        ) + next_text(actions)
    }
}

/// Appends what `market update` writes.
pub fn render_market_update(out: &mut String, view: &SyncActionView)
    ensures
        final(out)@ == old(out)@ + market_update_text(*view),
{
    let ghost start = out@;
    if str_eq(view.state.as_str(), "unconfigured") {
        write_line(out, "Not ready yet");
        let mut missing: Vec<String> = Vec::new();
        if str_eq(view.replica_db.as_str(), "missing") {
            missing.push(owned("Local market data"));
        }
        let ghost first = strings_view(missing@);
        if view.relay_count == 0 {
            missing.push(owned("Relay configuration"));
        }
        proof {
            assert(strings_view(missing@) =~= market_missing(*view));
        }
        render_spaced_section(out, "Missing", &missing);
        render_spaced_section(out, "Next", &view.actions);
    } else if str_eq(view.state.as_str(), "unavailable") {
        render_notice(out, "Unavailable right now", &view.reason, &view.actions);
    } else {
        write_line(out, "Market data updated");
        push_char(out, '\n');
        let mut rows: Vec<(String, String)> = Vec::new();
        rows.push(row("State", view.state.clone()));
        rows.push(row("Updated", view.freshness.display.clone()));
        rows.push(row("Relays", decimal_string(view.relay_count as u128)));
        proof {
            assert(rows_view(rows@) =~= seq![
                ("State"@, view.state@),
                ("Updated"@, view.freshness.display@),
                ("Relays"@, decimal(view.relay_count as nat)),
            ]);
        }
        render_pairs(out, "Local data", &rows);
        if view.actions.len() > 0 {
            render_item_section(out, "Next", &view.actions);
        }
    }
    proof {
        assert(out@ =~= start + market_update_text(*view));
    }
}

} // verus!
