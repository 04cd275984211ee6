use vstd::prelude::*;

use crate::bindings::opt_str_view;
use crate::farm::{delivery_display, display_delivery_method};
use crate::farm_config::{FarmLocation, non_blank, non_blank_str, opt_non_blank, opt_non_blank_str};
use crate::farm_views::{
    FarmConfigDocumentView, FarmConfigSummaryView, FarmGetView, FarmSetView, FarmSetupView, FarmStatusView,
};
use crate::render::{
    item_section, nl, pairs_text, push_row, pushed_row, render_item_section, render_pairs, row, rows_view,
    write_line,
};
use crate::text::{push_char, strings_view};

verus! {

/// The first of two values that is present and not blank, trimmed.
pub open spec fn first_present(a: Option<Seq<char>>, b: Option<Seq<char>>) -> Option<Seq<char>> {
    match opt_non_blank(a) {
        Some(v) => Some(v),
        None => opt_non_blank(b),
    }
}

fn first_present_exec(a: Option<&String>, b: Option<&String>) -> (r: Option<String>)
    ensures
        opt_str_view(r) == first_present(
            match a {
                Some(s) => Some(s@),
                None => None,
            },
            match b {
                Some(s) => Some(s@),
                None => None,
            },
        ),
{
    let from_a = match a {
        Some(s) => non_blank_str(s.as_str()),
        None => None,
    };
    match from_a {
        Some(v) => Some(v),
        None => match b {
            Some(s) => non_blank_str(s.as_str()),
            None => None,
        },
    }
}

/// A field of the farm record's location, when it has one.
pub open spec fn farm_place(l: Option<FarmLocation>, field: spec_fn(FarmLocation) -> Option<String>) -> Option<
    Seq<char>,
> {
    match l {
        Some(x) => opt_str_view(field(x)),
        None => None,
    }
}

/// A delivery method for people, when one is set.
pub open spec fn delivery_row_value(method: Seq<char>) -> Option<Seq<char>> {
    match non_blank(method) {
        Some(t) => Some(delivery_display(t)),
        None => None,
    }
}

fn delivery_value(method: &str) -> (r: Option<String>)
    ensures
        opt_str_view(r) == delivery_row_value(method@),
{
    match non_blank_str(method) {
        Some(t) => Some(display_delivery_method(t.as_str())),
        None => None,
    }
}

/// The rows of the `Farm` pairs of a whole farm config.
pub open spec fn farm_document_rows(d: FarmConfigDocumentView) -> Seq<(Seq<char>, Seq<char>)> {
    let loc = d.farm.location;
    let defaults = d.listing_defaults.location;
    let r0 = pushed_row(seq![], "Name"@, first_present(Some(d.profile.name@), Some(d.farm.name@)));
    let r1 = pushed_row(r0, "Display name"@, opt_str_view(d.profile.display_name));
    let r2 = pushed_row(r1, "About"@, first_present(opt_str_view(d.profile.about), opt_str_view(d.farm.about)));
    let r3 = pushed_row(
        r2,
        "Website"@,
        first_present(opt_str_view(d.profile.website), opt_str_view(d.farm.website)),
    );
    let r4 = pushed_row(
        r3,
        "Place"@,
        first_present(Some(defaults.primary@), farm_place(loc, |l: FarmLocation| l.primary)),
    );
    let r5 = pushed_row(r4, "City"@, first_present(opt_str_view(defaults.city), farm_place(loc, |l: FarmLocation| l.city)));
    let r6 = pushed_row(
        r5,
        "Region"@,
        first_present(opt_str_view(defaults.region), farm_place(loc, |l: FarmLocation| l.region)),
    );
    let r7 = pushed_row(
        r6,
        "Country"@,
        first_present(opt_str_view(defaults.country), farm_place(loc, |l: FarmLocation| l.country)),
    );
    let r8 = pushed_row(r7, "Delivery"@, delivery_row_value(d.listing_defaults.delivery_method@));
    r8 + seq![("Scope"@, d.selection.scope@), ("Farm tag"@, d.selection.farm_d_tag@)]
}

fn location_field(l: &Option<FarmLocation>, field: u8) -> (r: Option<&String>)
    ensures
        field == 0 ==> (match r {
            Some(s) => farm_place(*l, |x: FarmLocation| x.primary) == Some(s@),
            None => farm_place(*l, |x: FarmLocation| x.primary) is None,
        }),
        field == 1 ==> (match r {
            Some(s) => farm_place(*l, |x: FarmLocation| x.city) == Some(s@),
            None => farm_place(*l, |x: FarmLocation| x.city) is None,
        }),
        field == 2 ==> (match r {
            Some(s) => farm_place(*l, |x: FarmLocation| x.region) == Some(s@),
            None => farm_place(*l, |x: FarmLocation| x.region) is None,
        }),
        field >= 3 ==> (match r {
            Some(s) => farm_place(*l, |x: FarmLocation| x.country) == Some(s@),
            None => farm_place(*l, |x: FarmLocation| x.country) is None,
        }),
{
    match l {
        Some(x) => {
            let f = if field == 0 {
                &x.primary
            } else if field == 1 {
                &x.city
            } else if field == 2 {
                &x.region
            } else {
                &x.country
            };
            match f {
                Some(s) => Some(s),
                None => None,
            }
        },
        None => None,
    }
}

fn opt_ref(o: &Option<String>) -> (r: Option<&String>)
    ensures
        match r {
            Some(s) => opt_str_view(*o) == Some(s@),
            None => o is None,
        },
{
    match o {
        Some(s) => Some(s),
        None => None,
    }
}

fn document_rows(d: &FarmConfigDocumentView) -> (r: Vec<(String, String)>)
    ensures
        rows_view(r@) == farm_document_rows(*d),
{
    let loc = &d.farm.location;
    let defaults = &d.listing_defaults.location;
    let mut rows: Vec<(String, String)> = Vec::new();
    proof {
        assert(rows_view(rows@) =~= Seq::<(Seq<char>, Seq<char>)>::empty());
    }
    push_row(&mut rows, "Name", first_present_exec(Some(&d.profile.name), Some(&d.farm.name)));
    push_row(&mut rows, "Display name", crate::runtime_config::clone_opt_string(&d.profile.display_name));
    push_row(&mut rows, "About", first_present_exec(opt_ref(&d.profile.about), opt_ref(&d.farm.about)));
    push_row(&mut rows, "Website", first_present_exec(opt_ref(&d.profile.website), opt_ref(&d.farm.website)));
    push_row(&mut rows, "Place", first_present_exec(Some(&defaults.primary), location_field(loc, 0)));
    push_row(&mut rows, "City", first_present_exec(opt_ref(&defaults.city), location_field(loc, 1)));
    push_row(&mut rows, "Region", first_present_exec(opt_ref(&defaults.region), location_field(loc, 2)));
    push_row(&mut rows, "Country", first_present_exec(opt_ref(&defaults.country), location_field(loc, 3)));
    push_row(&mut rows, "Delivery", delivery_value(d.listing_defaults.delivery_method.as_str()));
    let ghost before = rows_view(rows@);
    rows.push(row("Scope", d.selection.scope.clone()));
    rows.push(row("Farm tag", d.selection.farm_d_tag.clone()));
    proof {
        assert(rows_view(rows@) =~= before + seq![("Scope"@, d.selection.scope@), ("Farm tag"@, d.selection.farm_d_tag@)]);
    }
    rows
}

/// Appends the `Farm` pairs of a whole farm config.
pub fn render_farm_document(out: &mut String, document: &FarmConfigDocumentView)
    ensures
        final(out)@ == old(out)@ + pairs_text("Farm"@, farm_document_rows(*document)),
{
    let rows = document_rows(document);
    render_pairs(out, "Farm", &rows);
}

/// The rows of the `Farm` pairs of a farm summary.
pub open spec fn farm_summary_rows(c: FarmConfigSummaryView) -> Seq<(Seq<char>, Seq<char>)> {
    let r0 = pushed_row(seq![], "Name"@, non_blank(c.name@));
    let r1 = r0.push(("Scope"@, c.scope@));
    let r2 = pushed_row(r1, "Place"@, opt_non_blank(opt_str_view(c.location_primary)));
    pushed_row(r2, "Delivery"@, delivery_row_value(c.delivery_method@))
}

/// Appends the `Farm` pairs of a farm summary.
pub fn render_farm_summary(out: &mut String, config: &FarmConfigSummaryView)
    ensures
        final(out)@ == old(out)@ + pairs_text("Farm"@, farm_summary_rows(*config)),
{
    let mut rows: Vec<(String, String)> = Vec::new();
    proof {
        assert(rows_view(rows@) =~= Seq::<(Seq<char>, Seq<char>)>::empty());
    }
    push_row(&mut rows, "Name", non_blank_str(config.name.as_str()));
    let ghost r0 = rows_view(rows@);
    rows.push(row("Scope", config.scope.clone()));
    proof {
        assert(rows_view(rows@) =~= r0.push(("Scope"@, config.scope@)));
    }
    push_row(&mut rows, "Place", opt_non_blank_str(&config.location_primary));
    push_row(&mut rows, "Delivery", delivery_value(config.delivery_method.as_str()));
    render_pairs(out, "Farm", &rows);
}

/// A blank line and the `Next` items, when there are any.
pub open spec fn next_after_blank(actions: Seq<Seq<char>>) -> Seq<char> {
    if actions.len() > 0 {
        seq!['\n'] + item_section("Next"@, actions)
    } else {
        seq![]
    }
}

/// The `Next` items, when there are any.
pub open spec fn next_items(actions: Seq<Seq<char>>) -> Seq<char> {
    if actions.len() > 0 {
        item_section("Next"@, actions)
    } else {
        seq![]
    }
}

fn write_next(out: &mut String, actions: &Vec<String>, blank_first: bool)
    ensures
        final(out)@ == old(out)@ + (if blank_first {
            next_after_blank(strings_view(actions@))
        } else {
            next_items(strings_view(actions@))
        }),
{
    if actions.len() > 0 {
        if blank_first {
            push_char(out, '\n');
        }
        render_item_section(out, "Next", actions);
    }
    proof {
        assert(final(out)@ =~= old(out)@ + (if blank_first {
            next_after_blank(strings_view(actions@))
        } else {
            next_items(strings_view(actions@))
        }));
    }
}

/// What `farm show` writes.
pub open spec fn farm_get_text(v: FarmGetView) -> Seq<char> {
    match v.document {
        Some(d) => nl("Farm draft"@) + seq!['\n'] + pairs_text("Farm"@, farm_document_rows(d)),
        None => nl("Farm draft not found"@) + next_after_blank(strings_view(v.actions@)),
    }
}

/// Appends what `farm show` writes.
pub fn render_farm_get(out: &mut String, view: &FarmGetView)
    ensures
        final(out)@ == old(out)@ + farm_get_text(*view),
{
    let ghost start = out@;
    match &view.document {
        Some(d) => {
            write_line(out, "Farm draft");
            push_char(out, '\n');
            render_farm_document(out, d);
        },
        None => {
            write_line(out, "Farm draft not found");
            write_next(out, &view.actions, true);
        },
    }
    proof {
        assert(out@ =~= start + farm_get_text(*view));
    }
}

/// A blank line and the farm summary, when there is one.
pub open spec fn summary_after_blank(c: Option<FarmConfigSummaryView>) -> Seq<char> {
    match c {
        Some(s) => seq!['\n'] + pairs_text("Farm"@, farm_summary_rows(s)),
        None => seq![],
    }
}

fn write_summary(out: &mut String, config: &Option<FarmConfigSummaryView>, blank_first: bool)
    ensures
        final(out)@ == old(out)@ + (if blank_first {
            summary_after_blank(*config)
        } else {
            match *config {
                Some(s) => pairs_text("Farm"@, farm_summary_rows(s)),
                None => seq![],
            }
        }),
{
    if let Some(c) = config {
        if blank_first {
            push_char(out, '\n');
        }
        render_farm_summary(out, c);
    }
    proof {
        assert(final(out)@ =~= old(out)@ + (if blank_first {
            summary_after_blank(*config)
        } else {
            match *config {
                Some(s) => pairs_text("Farm"@, farm_summary_rows(s)),
                None => seq![],
            }
        }));
    }
}

/// What `farm check` writes.
pub open spec fn farm_status_text(v: FarmStatusView) -> Seq<char> {
    if v.state@ == "ready"@ {
        nl("Farm ready to publish"@) + summary_after_blank(v.config) + next_items(strings_view(v.actions@))
    } else {
        nl("Farm not ready yet"@) + (if v.missing@.len() > 0 {
            seq!['\n'] + item_section("Missing"@, strings_view(v.missing@))
        } else {
            seq![]
        }) + next_after_blank(strings_view(v.actions@))
    }
}

/// Appends what `farm check` writes.
pub fn render_farm_status(out: &mut String, view: &FarmStatusView)
    ensures
        final(out)@ == old(out)@ + farm_status_text(*view),
{
    let ghost start = out@;
    if crate::text::str_eq(view.state.as_str(), "ready") {
        write_line(out, "Farm ready to publish");
        write_summary(out, &view.config, true);
        write_next(out, &view.actions, false);
    } else {
        write_line(out, "Farm not ready yet");
        let ghost s1 = out@;
        if view.missing.len() > 0 {
            push_char(out, '\n');
            render_item_section(out, "Missing", &view.missing);
        }
        let ghost s2 = out@;
        write_next(out, &view.actions, true);
        proof {
            assert(s2 =~= s1 + (if view.missing@.len() > 0 {
                seq!['\n'] + item_section("Missing"@, strings_view(view.missing@))
            } else {
                seq![]
            }));
        }
    }
    proof {
        assert(out@ =~= start + farm_status_text(*view));
    }
}

/// What `farm init` and `farm setup` write.
pub open spec fn farm_setup_text(v: FarmSetupView) -> Seq<char> {
    if v.state@ == "unconfigured"@ {
        nl("Not ready yet"@) + seq!['\n'] + item_section("Missing"@, seq!["Resolved account"@]) + next_after_blank(
            strings_view(v.actions@),
        )
    } else {
        nl("Farm draft saved"@) + (match v.reason {
            Some(r) => seq!['\n'] + nl(r@),
            None => seq![],
        }) + summary_after_blank(v.config) + next_items(strings_view(v.actions@))
    }
}

/// Appends what `farm init` and `farm setup` write.
pub fn render_farm_setup(out: &mut String, view: &FarmSetupView)
    ensures
        final(out)@ == old(out)@ + farm_setup_text(*view),
{
    let ghost start = out@;
    if crate::text::str_eq(view.state.as_str(), "unconfigured") {
        write_line(out, "Not ready yet");
        push_char(out, '\n');
        let mut missing: Vec<String> = Vec::new();
        missing.push(crate::text::owned("Resolved account"));
        proof {
            assert(strings_view(missing@) =~= seq!["Resolved account"@]);
        }
        render_item_section(out, "Missing", &missing);
        write_next(out, &view.actions, true);
    } else {
        write_line(out, "Farm draft saved");
        let ghost s1 = out@;
        if let Some(reason) = &view.reason {
            push_char(out, '\n');
            write_line(out, reason.as_str());
        }
        let ghost s2 = out@;
        write_summary(out, &view.config, true);
        write_next(out, &view.actions, false);
        proof {
            assert(s2 =~= s1 + (match view.reason {
                Some(r) => seq!['\n'] + nl(r@),
                None => seq![],
            }));
        }
    }
    proof {
        assert(out@ =~= start + farm_setup_text(*view));
    }
}

/// What `farm set` writes.
pub open spec fn farm_set_text(v: FarmSetView) -> Seq<char> {
    if v.state@ == "unconfigured"@ {
        nl("Farm draft not found"@) + next_after_blank(strings_view(v.actions@))
    } else {
        nl("Farm updated"@) + seq!['\n'] + pairs_text("Changed"@, seq![("Field"@, v.field@), ("Value"@, v.value@)])
            + (match v.config {
            Some(s) => pairs_text("Farm"@, farm_summary_rows(s)),
            None => seq![],
        }) + next_items(strings_view(v.actions@))
    }
}

/// Appends what `farm set` writes.
pub fn render_farm_set(out: &mut String, view: &FarmSetView)
    ensures
        final(out)@ == old(out)@ + farm_set_text(*view),
{
    let ghost start = out@;
    if crate::text::str_eq(view.state.as_str(), "unconfigured") {
        write_line(out, "Farm draft not found");
        write_next(out, &view.actions, true);
    } else {
        write_line(out, "Farm updated");
        push_char(out, '\n');
        let mut changed: Vec<(String, String)> = Vec::new();
        changed.push(row("Field", view.field.clone()));
        changed.push(row("Value", view.value.clone()));
        proof {
            assert(rows_view(changed@) =~= seq![("Field"@, view.field@), ("Value"@, view.value@)]);
        }
        render_pairs(out, "Changed", &changed);
        write_summary(out, &view.config, false);
        write_next(out, &view.actions, false);
    }
    proof {
        assert(out@ =~= start + farm_set_text(*view));
    }
}

} // verus!
