use vstd::prelude::*;

use crate::bindings::opt_str_view;
use crate::farm::delivery_display;
use crate::job::format_clock;
use crate::order::{OrderJobView, OrderSubmitView, first_present_text, job_rows};
use crate::render::{
    field_rows_string, next_text, nl, push_row, pushed_row, render_field_rows, render_item_section, row,
    rows_view, write_line,
};
use crate::render_farm::first_present;
use crate::render_views::{clock_text, humanize_machine_label, write_line2};
use crate::sell::{notice_text, render_notice};
use crate::text::{push_char, str_eq, strings_view};

verus! {

/// One observation of an order's trade workflow while it is watched.
#[derive(Debug, Clone, PartialEq, Eq)]
pub struct OrderWatchFrameView {
    pub observed_at_unix: u64,
    pub state: String,
    pub summary: String,
    pub signer_mode: String,
    pub signer_session_id: Option<String>,
    pub terminal: bool,
}

/// What `order watch` reports.
#[derive(Debug, Clone, PartialEq, Eq)]
pub struct OrderWatchView {
    pub state: String,
    pub order_id: String,
    pub frames: Vec<OrderWatchFrameView>,
    pub reason: Option<String>,
    pub actions: Vec<String>,
}

/// The rows of one `order watch` frame.
pub open spec fn order_frame_rows(f: OrderWatchFrameView) -> Seq<(Seq<char>, Seq<char>)> {
    pushed_row(
        pushed_row(
            seq![("State"@, delivery_display(f.state@)), ("Summary"@, f.summary@)],
            "Signer"@,
            Some(delivery_display(f.signer_mode@)),
        ),
        "Session"@,
        opt_str_view(f.signer_session_id),
    ) + (if f.terminal {
        seq![("Terminal"@, "Yes"@)]
    } else {
        seq![]
    })
}

/// One `order watch` frame, after a blank line.
pub open spec fn order_frame_text(f: OrderWatchFrameView) -> Seq<char> {
    seq!['\n'] + nl(clock_text(f.observed_at_unix)) + field_rows_string(order_frame_rows(f)).push('\n')
}

/// The `order watch` frames.
pub open spec fn order_frames_text(frames: Seq<OrderWatchFrameView>) -> Seq<char>
    decreases frames.len(),
{
    if frames.len() == 0 {
        seq![]
    } else {
        order_frames_text(frames.drop_last()) + order_frame_text(frames.last())
    }
}

/// What `order watch` writes.
pub open spec fn order_watch_text(v: OrderWatchView) -> Seq<char> {
    let state = v.state@;
    let actions = strings_view(v.actions@);
    let reason = opt_str_view(v.reason);
    if state == "missing"@ {
        notice_text("Not found"@, reason, actions)
    } else if state == "not_submitted"@ || state == "unconfigured"@ {
        notice_text("Not ready yet"@, reason, actions)
    } else if state == "unavailable"@ {
        notice_text("Unavailable right now"@, reason, actions)
    } else if state == "error"@ {
        notice_text("Could not complete the command"@, reason, actions)
    } else {
        nl("Watching order "@ + v.order_id@) + (if v.frames@.len() == 0 {
            match reason {
                Some(r) => seq!['\n'] + nl(r),
                None => seq![],
            }
        } else {
            order_frames_text(v.frames@)
        }) + next_text(actions)
    }
}

fn render_order_frame(out: &mut String, frame: &OrderWatchFrameView)
    ensures
        final(out)@ == old(out)@ + order_frame_text(*frame),
{
    let ghost start = out@;
    push_char(out, '\n');
    let clock = format_clock(frame.observed_at_unix);
    write_line(out, clock.as_str());
    let mut rows: Vec<(String, String)> = Vec::new();
    rows.push(row("State", humanize_machine_label(frame.state.as_str())));
    rows.push(row("Summary", frame.summary.clone()));
    proof {
        assert(rows_view(rows@) =~= seq![("State"@, delivery_display(frame.state@)), ("Summary"@, frame.summary@)]);
    }
    push_row(&mut rows, "Signer", Some(humanize_machine_label(frame.signer_mode.as_str())));
    push_row(&mut rows, "Session", crate::runtime_config::clone_opt_string(&frame.signer_session_id));
    let ghost pushed = rows_view(rows@);
    if frame.terminal {
        rows.push(row("Terminal", crate::text::owned("Yes")));
    }
    proof {
        assert(rows_view(rows@) =~= order_frame_rows(*frame));
    }
    render_field_rows(out, &rows);
    proof {
        assert(out@ =~= start + order_frame_text(*frame));
    }
}

/// Appends what `order watch` writes.
pub fn render_order_watch(out: &mut String, view: &OrderWatchView)
    ensures
        final(out)@ == old(out)@ + order_watch_text(*view),
{
    let ghost start = out@;
    let state = view.state.as_str();
    if str_eq(state, "missing") {
        render_notice(out, "Not found", &view.reason, &view.actions);
        return;
    }
    if str_eq(state, "not_submitted") || str_eq(state, "unconfigured") {
        render_notice(out, "Not ready yet", &view.reason, &view.actions);
        return;
    }
    if str_eq(state, "unavailable") {
        render_notice(out, "Unavailable right now", &view.reason, &view.actions);
        return;
    }
    if str_eq(state, "error") {
        render_notice(out, "Could not complete the command", &view.reason, &view.actions);
        return;
    }
    write_line2(out, "Watching order ", view.order_id.as_str());
    let ghost s1 = out@;
    if view.frames.len() == 0 {
        if let Some(reason) = &view.reason {
            push_char(out, '\n');
            write_line(out, reason.as_str());
        }
    } else {
        for i in 0..view.frames.len()
            invariant
                out@ == s1 + order_frames_text(view.frames@.take(i as int)),
        {
            proof {
                assert(view.frames@.take(i + 1).drop_last() =~= view.frames@.take(i as int));
            }
            render_order_frame(out, &view.frames[i]);
        }
        proof {
            assert(view.frames@.take(view.frames@.len() as int) =~= view.frames@);
        }
    }
    let ghost s2 = out@;
    if view.actions.len() > 0 {
        render_item_section(out, "Next", &view.actions);
    }
    proof {
        let v = *view;
        let mid: Seq<char> = if v.frames@.len() == 0 {
            match opt_str_view(v.reason) {
                Some(r) => seq!['\n'] + nl(r),
                None => seq![],
            }
        } else {
            order_frames_text(v.frames@)
        };
        assert(s2 =~= s1 + mid);
        assert(out@ =~= start + order_watch_text(v));
    }
}

/// What `order submit --watch` reports: the submission, then the watch that followed it.
#[derive(Debug, Clone, PartialEq, Eq)]
pub struct OrderSubmitWatchView {
    pub submit: OrderSubmitView,
    pub watch: OrderWatchView,
}

/// The headline of `order submit --watch`, by the submission's state.
pub open spec fn submit_watch_headline(state: Seq<char>) -> Seq<char> {
    if state == "already_submitted"@ {
        "Order already submitted"@
    } else if state == "deduplicated"@ {
        "Order already in progress"@
    } else if state == "dry_run"@ {
        "Dry run only"@
    } else if state == "error"@ {
        "Order submit failed"@
    } else if state == "missing"@ {
        "Order draft not found"@
    } else if state == "unavailable"@ {
        "Order submit unavailable"@
    } else if state == "unconfigured"@ {
        "Not ready yet"@
    } else {
        "Order submitted"@
    }
}

fn submit_watch_headline_exec(state: &str) -> (r: &'static str)
    ensures
        r@ == submit_watch_headline(state@),
{
    if str_eq(state, "already_submitted") {
        "Order already submitted"
    } else if str_eq(state, "deduplicated") {
        "Order already in progress"
    } else if str_eq(state, "dry_run") {
        "Dry run only"
    } else if str_eq(state, "error") {
        "Order submit failed"
    } else if str_eq(state, "missing") {
        "Order draft not found"
    } else if str_eq(state, "unavailable") {
        "Order submit unavailable"
    } else if str_eq(state, "unconfigured") {
        "Not ready yet"
    } else {
        "Order submitted"
    }
}

/// The rows of the `Order` section of `order submit --watch`.
pub open spec fn submit_watch_order_rows(v: OrderSubmitView) -> Seq<(Seq<char>, Seq<char>)> {
    pushed_row(
        pushed_row(
            seq![("ID"@, v.order_id@), ("State"@, delivery_display(v.state@))],
            "Listing"@,
            first_present(opt_str_view(v.listing_lookup), opt_str_view(v.listing_addr)),
        ),
        "Buyer"@,
        first_present(opt_str_view(v.buyer_account_id), opt_str_view(v.buyer_pubkey)),
    )
}

/// One frame of the watch that follows a submission, after a blank line.
pub open spec fn submit_frame_text(f: OrderWatchFrameView) -> Seq<char> {
    seq!['\n'] + nl(clock_text(f.observed_at_unix)) + field_rows_string(
        seq![("State"@, delivery_display(f.state@)), ("Summary"@, f.summary@)],
    ).push('\n')
}

/// The frames of the watch that follows a submission.
pub open spec fn submit_frames_text(frames: Seq<OrderWatchFrameView>) -> Seq<char>
    decreases frames.len(),
{
    if frames.len() == 0 {
        seq![]
    } else {
        submit_frames_text(frames.drop_last()) + submit_frame_text(frames.last())
    }
}

/// The job section of `order submit --watch`, when the submission has a job.
pub open spec fn submit_watch_job_text(job: Option<OrderJobView>) -> Seq<char> {
    match job {
        Some(j) => nl("Job"@) + field_rows_string(job_rows(j)).push('\n'),
        None => seq![],
    }
}

/// The watch that follows a submission: its line, the frames or the reason, and the next steps.
pub open spec fn submit_watch_tail_text(w: OrderWatchView) -> Seq<char> {
    nl("Watching order "@ + w.order_id@) + (if w.frames@.len() == 0 {
        match opt_str_view(w.reason) {
            Some(r) => seq!['\n'] + nl(r),
            None => seq![],
        }
    } else {
        submit_frames_text(w.frames@)
    }) + next_text(strings_view(w.actions@))
}

/// What `order submit --watch` writes.
pub open spec fn order_submit_watch_text(v: OrderSubmitWatchView) -> Seq<char> {
    nl(submit_watch_headline(v.submit.state@)) + seq!['\n'] + nl("Order"@) + field_rows_string(
        submit_watch_order_rows(v.submit),
    ).push('\n') + submit_watch_job_text(v.submit.job) + submit_watch_tail_text(v.watch)
}

fn render_submit_frame(out: &mut String, frame: &OrderWatchFrameView)
    ensures
        final(out)@ == old(out)@ + submit_frame_text(*frame),
{
    let ghost start = out@;
    push_char(out, '\n');
    let clock = format_clock(frame.observed_at_unix);
    write_line(out, clock.as_str());
    let mut rows: Vec<(String, String)> = Vec::new();
    rows.push(row("State", humanize_machine_label(frame.state.as_str())));
    rows.push(row("Summary", frame.summary.clone()));
    proof {
        assert(rows_view(rows@) =~= seq![("State"@, delivery_display(frame.state@)), ("Summary"@, frame.summary@)]);
    }
    render_field_rows(out, &rows);
    proof {
        assert(out@ =~= start + submit_frame_text(*frame));
    }
}

fn render_submit_watch_head(out: &mut String, submit: &OrderSubmitView)
    ensures
        final(out)@ == old(out)@ + nl(submit_watch_headline(submit.state@)) + seq!['\n'] + nl("Order"@)
            + field_rows_string(submit_watch_order_rows(*submit)).push('\n') + submit_watch_job_text(submit.job),
{
    let ghost start = out@;
    write_line(out, submit_watch_headline_exec(submit.state.as_str()));
    push_char(out, '\n');
    write_line(out, "Order");
    let mut rows: Vec<(String, String)> = Vec::new();
    rows.push(row("ID", submit.order_id.clone()));
    rows.push(row("State", humanize_machine_label(submit.state.as_str())));
    proof {
        assert(rows_view(rows@) =~= seq![("ID"@, submit.order_id@), ("State"@, delivery_display(submit.state@))]);
    }
    push_row(&mut rows, "Listing", first_present_text(&submit.listing_lookup, &submit.listing_addr));
    push_row(&mut rows, "Buyer", first_present_text(&submit.buyer_account_id, &submit.buyer_pubkey));
    render_field_rows(out, &rows);
    let ghost s1 = out@;
    if let Some(job) = &submit.job {
        write_line(out, "Job");
        let mut job_rows_exec: Vec<(String, String)> = Vec::new();
        job_rows_exec.push(row("Job", job.job_id.clone()));
        job_rows_exec.push(row("State", humanize_machine_label(job.state.as_str())));
        proof {
            assert(rows_view(job_rows_exec@) =~= seq![("Job"@, job.job_id@), ("State"@, delivery_display(job.state@))]);
        }
        push_row(&mut job_rows_exec, "Event", crate::runtime_config::clone_opt_string(&job.event_id));
        render_field_rows(out, &job_rows_exec);
    }
    proof {
        assert(out@ =~= start + nl(submit_watch_headline(submit.state@)) + seq!['\n'] + nl("Order"@)
            + field_rows_string(submit_watch_order_rows(*submit)).push('\n') + submit_watch_job_text(submit.job));
    }
}

fn render_submit_watch_tail(out: &mut String, watch: &OrderWatchView)
    ensures
        final(out)@ == old(out)@ + submit_watch_tail_text(*watch),
{
    let ghost start = out@;
    write_line2(out, "Watching order ", watch.order_id.as_str());
    let ghost s1 = out@;
    if watch.frames.len() == 0 {
        if let Some(reason) = &watch.reason {
            push_char(out, '\n');
            write_line(out, reason.as_str());
        }
    } else {
        for i in 0..watch.frames.len()
            invariant
                out@ == s1 + submit_frames_text(watch.frames@.take(i as int)),
        {
            proof {
                assert(watch.frames@.take(i + 1).drop_last() =~= watch.frames@.take(i as int));
            }
            render_submit_frame(out, &watch.frames[i]);
        }
        proof {
            assert(watch.frames@.take(watch.frames@.len() as int) =~= watch.frames@);
        }
    }
    let ghost s2 = out@;
    if watch.actions.len() > 0 {
        render_item_section(out, "Next", &watch.actions);
    }
    proof {
        let w = *watch;
        let mid: Seq<char> = if w.frames@.len() == 0 {
            match opt_str_view(w.reason) {
                Some(r) => seq!['\n'] + nl(r),
                None => seq![],
            }
        } else {
            submit_frames_text(w.frames@)
        };
        assert(s2 =~= s1 + mid);
        assert(out@ =~= start + submit_watch_tail_text(w));
    }
}

/// Appends what `order submit --watch` writes.
pub fn render_order_submit_watch(out: &mut String, view: &OrderSubmitWatchView)
    ensures
        final(out)@ == old(out)@ + order_submit_watch_text(*view),
{
    let ghost start = out@;
    render_submit_watch_head(out, &view.submit);
    render_submit_watch_tail(out, &view.watch);
    proof {
        assert(out@ =~= start + order_submit_watch_text(*view));
    }
}

/// The details a verbose render of `order submit --watch` adds.
pub open spec fn order_submit_watch_details(v: OrderSubmitView) -> Seq<(Seq<char>, Seq<char>)> {
    pushed_row(
        pushed_row(seq![("Source"@, v.source@)], "Signer mode"@, opt_str_view(v.signer_mode)),
        "Requested session"@,
        opt_str_view(v.requested_signer_session_id),
    )
}

/// The details a verbose render of `order submit --watch` adds.
pub fn order_submit_watch_detail_rows(submit: &OrderSubmitView) -> (r: Vec<(String, String)>)
    ensures
        rows_view(r@) == order_submit_watch_details(*submit),
{
    let mut rows: Vec<(String, String)> = Vec::new();
    rows.push(row("Source", submit.source.clone()));
    proof {
        assert(rows_view(rows@) =~= seq![("Source"@, submit.source@)]);
    }
    push_row(&mut rows, "Signer mode", crate::runtime_config::clone_opt_string(&submit.signer_mode));
    push_row(
        &mut rows,
        "Requested session",
        crate::runtime_config::clone_opt_string(&submit.requested_signer_session_id),
    );
    rows
}

} // verus!
