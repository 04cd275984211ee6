use vstd::prelude::*;

use crate::bindings::BindingView;
use crate::config::{OutputFormat, RelayConfigSource, stdout_logging_error};
use crate::envfile::{env_entry, first_entry};
use crate::farm::{FarmField, component_key, field_actions, field_updated, hex_fixed, is_uuid_v7};
use crate::farm_config::{FarmConfigDocument, FarmMissingField, farm_name_of, missing_fields_of};
use crate::config::{Verbosity, unquote};
use crate::daemon::DaemonRpcError;
use crate::farm_config::DocumentView;
use crate::find::{lowercase_of, rewrite_decision};
use crate::job::job_error_parts;
use crate::output::OutputDisposition;
use crate::config_show::{
    CapabilityBindingRuntimeView, ConfigShowView, ResolvedProviderView, account_rows, account_text, binding_cells,
    binding_headers, config_show_text, interaction_rows, output_rows, provider_cells, provider_headers, roots_rows,
    services_text, settings_text, tables_text,
};
use crate::render::{blen, context_text, field_rows_string, label_width, nl, pairs_text, row_lines, table_text};
use crate::render_views::yes_no_text;
use crate::text::pad_right;
use vstd::utf8::{is_ascii_chars, is_ascii_chars_encode_utf8};
use crate::find::join_with;
use crate::envfile::lines;
use crate::human::{
    LineUse, blank_line, body_text, collapse_from, collapsed, drop_trailing_blank, finalized_text, human_text, kept_lines,
    line_use, quiet_text, thin_rule, view_text,
};
use crate::output::CommandOutput;
use crate::text::{strip_prefix, trim_end, trim_start};
use crate::hyf::{HyfClientError, HyfStatusOutput, HyfSuccess, status_spec};
use crate::runtime_config::{
    CliConfigFile, ConfigArgs, config_error, last_binding_for, log_stdout_result, output_format_choice,
    relay_config_result, relay_urls_of,
};
use crate::text::trim;

verus! {

/// Relay flags decide the relays: with at least one `--relay`, the relay configuration does not
/// depend on the process environment or the env file.
pub proof fn law_relay_flags_override_environment(
    flags: Seq<Seq<char>>,
    env1: Seq<(Seq<char>, Seq<char>)>,
    file1: Seq<(Seq<char>, Seq<char>)>,
    env2: Seq<(Seq<char>, Seq<char>)>,
    file2: Seq<(Seq<char>, Seq<char>)>,
    user: Option<&CliConfigFile>,
    workspace: Option<&CliConfigFile>,
)
    requires
        flags.len() > 0,
    ensures
        relay_config_result(flags, env1, file1, user, workspace) == relay_config_result(
            flags,
            env2,
            file2,
            user,
            workspace,
        ),
        relay_config_result(flags, env1, file1, user, workspace) matches Ok(v) ==> v.source
            == RelayConfigSource::Flags,
{
}

/// An explicit output flag decides the output format whatever the environment says.
pub proof fn law_output_flag_overrides_environment(
    format: OutputFormat,
    env: Seq<(Seq<char>, Seq<char>)>,
    file: Seq<(Seq<char>, Seq<char>)>,
)
    ensures
        output_format_choice(Some(format), false, false, env, file) == Ok::<OutputFormat, Seq<char>>(
            format,
        ),
{
}

/// The env file only fills what the process environment lacks: when the process environment
/// has one of the keys, the env file does not matter.
pub proof fn law_process_environment_overrides_env_file(
    env: Seq<(Seq<char>, Seq<char>)>,
    file1: Seq<(Seq<char>, Seq<char>)>,
    file2: Seq<(Seq<char>, Seq<char>)>,
    keys: Seq<Seq<char>>,
)
    requires
        first_entry(env, keys) is Some,
    ensures
        env_entry(env, file1, keys) == env_entry(env, file2, keys),
        env_entry(env, file1, keys) == first_entry(env, keys),
{
}

/// Without relay flags or `RADROOTS_RELAYS`, relays from the user config win over the workspace
/// config, which then does not matter for the urls.
pub proof fn law_user_relays_override_workspace(
    env: Seq<(Seq<char>, Seq<char>)>,
    file: Seq<(Seq<char>, Seq<char>)>,
    user: &CliConfigFile,
    workspace: Option<&CliConfigFile>,
)
    requires
        env_entry(env, file, seq!["RADROOTS_RELAYS"@]) is None,
        relay_urls_of(Some(user)) is Some,
        relay_config_result(seq![], env, file, Some(user), workspace) is Ok,
    ensures
        relay_config_result(seq![], env, file, Some(user), workspace)->Ok_0.source
            == RelayConfigSource::UserConfig,
{
}

/// A capability binding in the user config replaces the workspace config's binding for the same
/// capability.
pub proof fn law_user_binding_overrides_workspace(
    workspace: Seq<BindingView>,
    user: Seq<BindingView>,
    id: Seq<char>,
)
    requires
        last_binding_for(user, id) is Some,
    ensures
        last_binding_for(workspace + user, id) == last_binding_for(user, id),
    decreases user.len(),
{
    if user.last().capability_id == id {
        assert((workspace + user).last() == user.last());
    } else {
        assert((workspace + user).drop_last() =~= workspace + user.drop_last());
        assert((workspace + user).last() == user.last());
        law_user_binding_overrides_workspace(workspace, user.drop_last(), id);
    }
}

/// Machine-readable output refuses stdout logging: once the output format is JSON or NDJSON and
/// logging to stdout is switched on (and nothing earlier is wrong), resolving the configuration
/// fails with the stdout-logging message.
pub proof fn law_machine_output_rejects_stdout_logging(
    args: ConfigArgs,
    env: Seq<(Seq<char>, Seq<char>)>,
    file: Seq<(Seq<char>, Seq<char>)>,
    user: Option<&CliConfigFile>,
    workspace: Option<&CliConfigFile>,
)
    requires
        crate::runtime_config::secret_backend_choice(env, file) is Ok,
        crate::runtime_config::secret_fallback_choice(env, file) is Ok,
        output_format_choice(args.output_format, args.json, args.ndjson, env, file) matches Ok(f) && f
            != OutputFormat::Human,
        !((args.quiet && args.verbose) || (args.quiet && args.trace) || (args.verbose && args.trace)),
        log_stdout_result(args, env, file) == Ok::<bool, Seq<char>>(true),
    ensures
        config_error(args, env, file, user, workspace) == Some(
            stdout_logging_error(output_format_choice(args.output_format, args.json, args.ndjson, env, file)->Ok_0),
        ),
{
}

proof fn lemma_empty_is_blank()
    ensures
        blank_line(Seq::<char>::empty()),
{
    let empty = Seq::<char>::empty();
    assert(crate::text::trim_start(empty) == empty);
    assert(crate::text::trim_end(empty) == empty);
}

/// The shape of collapsed lines: blank lines are empty, never two in a row, and none first after
/// a blank line.
pub open spec fn collapse_shape(c: Seq<Seq<char>>, prev_blank: bool) -> bool {
    &&& forall|i: int| 0 <= i < c.len() && blank_line(#[trigger] c[i]) ==> c[i] == Seq::<char>::empty()
    &&& forall|i: int| 0 <= i < c.len() - 1 && blank_line(#[trigger] c[i]) ==> !blank_line(c[i + 1])
    &&& (prev_blank && c.len() > 0 ==> !blank_line(c[0]))
}

proof fn lemma_collapse_shape(lines: Seq<Seq<char>>, prev_blank: bool)
    ensures
        collapse_shape(collapse_from(lines, prev_blank), prev_blank),
    decreases lines.len(),
{
    if lines.len() > 0 {
        let rest = lines.drop_first();
        lemma_collapse_shape(rest, true);
        lemma_collapse_shape(rest, false);
        lemma_empty_is_blank();
        let c = collapse_from(lines, prev_blank);
        if blank_line(lines[0]) {
            if !prev_blank {
                let cr = collapse_from(rest, true);
                assert(c == seq![Seq::<char>::empty()] + cr);
                assert forall|i: int| 0 <= i < c.len() && blank_line(#[trigger] c[i]) implies c[i]
                    == Seq::<char>::empty() by {
                    if i > 0 {
                        assert(c[i] == cr[i - 1]);
                    }
                }
                assert forall|i: int| 0 <= i < c.len() - 1 && blank_line(#[trigger] c[i]) implies !blank_line(
                    c[i + 1],
                ) by {
                    assert(c[i + 1] == cr[i]);
                    if i > 0 {
                        assert(c[i] == cr[i - 1]);
                    }
                }
            }
        } else {
            let cr = collapse_from(rest, false);
            assert(c == seq![lines[0]] + cr);
            assert forall|i: int| 0 <= i < c.len() && blank_line(#[trigger] c[i]) implies c[i]
                == Seq::<char>::empty() by {
                if i > 0 {
                    assert(c[i] == cr[i - 1]);
                }
            }
            assert forall|i: int| 0 <= i < c.len() - 1 && blank_line(#[trigger] c[i]) implies !blank_line(
                c[i + 1],
            ) by {
                assert(c[i + 1] == cr[i]);
                if i > 0 {
                    assert(c[i] == cr[i - 1]);
                }
            }
        }
    }
}

proof fn lemma_drop_trailing_shape(lines: Seq<Seq<char>>)
    ensures
        drop_trailing_blank(lines).len() <= lines.len(),
        forall|i: int| 0 <= i < drop_trailing_blank(lines).len() ==> #[trigger] drop_trailing_blank(lines)[i] == lines[i],
        drop_trailing_blank(lines).len() > 0 ==> !blank_line(drop_trailing_blank(lines).last()),
    decreases lines.len(),
{
    if lines.len() > 0 && blank_line(lines.last()) {
        lemma_drop_trailing_shape(lines.drop_last());
    }
}

/// Collapsing blank lines leaves no blank line first or last, never two blank lines in a row,
/// and every blank line it keeps is empty.
pub proof fn law_collapsed_blank_lines(lines: Seq<Seq<char>>)
    ensures
        ({
            let c = collapsed(lines);
            &&& c.len() > 0 ==> !blank_line(c[0]) && !blank_line(c.last())
            &&& forall|i: int| 0 <= i < c.len() - 1 && blank_line(#[trigger] c[i]) ==> !blank_line(c[i + 1])
            &&& forall|i: int| 0 <= i < c.len() && blank_line(#[trigger] c[i]) ==> c[i] == Seq::<char>::empty()
        }),
{
    let full = collapse_from(lines, true);
    lemma_collapse_shape(lines, true);
    assert(collapse_shape(full, true));
    lemma_drop_trailing_shape(full);
    let c = collapsed(lines);
    assert forall|i: int| 0 <= i < c.len() - 1 && blank_line(#[trigger] c[i]) implies !blank_line(c[i + 1]) by {
        assert(c[i] == full[i]);
        assert(c[i + 1] == full[i + 1]);
    }
    assert forall|i: int| 0 <= i < c.len() && blank_line(#[trigger] c[i]) implies c[i] == Seq::<char>::empty() by {
        assert(c[i] == full[i]);
    }
    if c.len() > 0 {
        assert(c[0] == full[0]);
    }
}

/// The commands that fill in missing fields never repeat.
pub proof fn law_field_actions_unique(missing: Seq<FarmMissingField>)
    ensures
        field_actions(missing).no_duplicates(),
    decreases missing.len(),
{
    if missing.len() > 0 {
        law_field_actions_unique(missing.drop_last());
        let acc = field_actions(missing.drop_last());
        let a = crate::farm::field_action(missing.last());
        if !acc.contains(a) {
            assert forall|i: int, j: int|
                0 <= i < acc.push(a).len() && 0 <= j < acc.push(a).len() && i != j implies acc.push(a)[i]
                != acc.push(a)[j] by {
                if i == acc.len() as int {
                    assert(acc.push(a)[j] == acc[j]);
                } else if j == acc.len() as int {
                    assert(acc.push(a)[i] == acc[i]);
                }
            }
        }
    }
}

/// After `farm set name` with a value that is not blank, the farm's name is no longer missing.
pub proof fn law_set_name_fills_name(before: FarmConfigDocument, after: FarmConfigDocument, v: Seq<char>)
    requires
        trim(v).len() > 0,
        after.view_of() == field_updated(before.view_of(), FarmField::Name, v),
    ensures
        farm_name_of(after) is Some,
        !missing_fields_of(after).contains(FarmMissingField::Name),
{
    assert(after.profile.name@ == v);
    let m = missing_fields_of(after);
    if m.contains(FarmMissingField::Name) {
        let i = choose|i: int| 0 <= i < m.len() && m[i] == FarmMissingField::Name;
        assert(false);
    }
}

/// A ready hyf status always reports protocol 1 with deterministic execution available.
pub proof fn law_ready_status_is_healthy(
    executable: Seq<char>,
    outcome: Result<HyfSuccess<HyfStatusOutput>, HyfClientError>,
)
    requires
        status_spec(executable, outcome).state == "ready"@,
    ensures
        status_spec(executable, outcome).protocol_version == Some(1u64),
        status_spec(executable, outcome).deterministic_available == Some(true),
{
    reveal_strlit("ready");
    reveal_strlit("unavailable");
    assert("ready"@.len() == 5);
    assert("unavailable"@.len() == 11);
}

/// A derived component key keeps the first 24 characters of its UUIDv7 key and has its length.
pub proof fn law_component_key_shape(key: Seq<char>, component: Seq<char>)
    requires
        is_uuid_v7(key),
    ensures
        component_key(key, component).len() == 36,
        component_key(key, component).take(24) == key.take(24),
{
    let hash = crate::farm::fnv1a_from(
        crate::farm::fnv_offset(),
        vstd::utf8::encode_utf8(key) + seq![58u8] + vstd::utf8::encode_utf8(component),
    );
    lemma_hex_fixed_len((hash & 0xffff_ffff_ffff) as nat, 12);
    assert(component_key(key, component).take(24) =~= key.take(24));
}

proof fn lemma_hex_fixed_len(v: nat, n: nat)
    ensures
        hex_fixed(v, n).len() == n,
    decreases n,
{
    if n > 0 {
        lemma_hex_fixed_len(v / 16, (n - 1) as nat);
    }
}


proof fn lemma_kept_lines_from(ls: Seq<Seq<char>>)
    ensures
        forall|i: int|
            0 <= i < kept_lines(ls).len() ==> exists|j: int|
                0 <= j < ls.len() && line_use(ls[j]) == LineUse::Kept(#[trigger] kept_lines(ls)[i]),
    decreases ls.len(),
{
    if ls.len() > 0 {
        let init = ls.drop_last();
        lemma_kept_lines_from(init);
        let k = kept_lines(ls);
        let ki = kept_lines(init);
        assert forall|i: int| 0 <= i < k.len() implies exists|j: int|
            0 <= j < ls.len() && line_use(ls[j]) == LineUse::Kept(#[trigger] k[i]) by {
            match line_use(ls.last()) {
                LineUse::Kept(x) => {
                    assert(k == ki.push(x));
                    if i == ki.len() {
                        assert(line_use(ls[ls.len() - 1]) == LineUse::Kept(k[i]));
                    } else {
                        assert(k[i] == ki[i]);
                        let j = choose|j: int| 0 <= j < init.len() && line_use(init[j]) == LineUse::Kept(ki[i]);
                        assert(ls[j] == init[j]);
                    }
                },
                _ => {
                    assert(k == ki);
                    let j = choose|j: int| 0 <= j < init.len() && line_use(init[j]) == LineUse::Kept(ki[i]);
                    assert(ls[j] == init[j]);
                },
            }
        }
    }
}

proof fn lemma_collapse_from_members(lines: Seq<Seq<char>>, prev_blank: bool)
    ensures
        forall|i: int|
            0 <= i < collapse_from(lines, prev_blank).len() ==> blank_line(
                #[trigger] collapse_from(lines, prev_blank)[i],
            ) || lines.contains(collapse_from(lines, prev_blank)[i]),
    decreases lines.len(),
{
    if lines.len() > 0 {
        let rest = lines.drop_first();
        lemma_collapse_from_members(rest, true);
        lemma_collapse_from_members(rest, false);
        let c = collapse_from(lines, prev_blank);
        assert forall|i: int| 0 <= i < c.len() implies blank_line(#[trigger] c[i]) || lines.contains(c[i]) by {
            if blank_line(lines[0]) {
                if prev_blank {
                    let cr = collapse_from(rest, true);
                    assert(c[i] == cr[i]);
                    if !blank_line(c[i]) {
                        let k = choose|k: int| 0 <= k < rest.len() && rest[k] == cr[i];
                        assert(lines[k + 1] == rest[k]);
                    }
                } else {
                    let cr = collapse_from(rest, true);
                    if i == 0 {
                        assert(c[0] == Seq::<char>::empty());
                        assert(trim(Seq::<char>::empty()) =~= Seq::<char>::empty()) by {
                            lemma_empty_is_blank();
                        }
                    } else {
                        assert(c[i] == cr[i - 1]);
                        if !blank_line(c[i]) {
                            let k = choose|k: int| 0 <= k < rest.len() && rest[k] == cr[i - 1];
                            assert(lines[k + 1] == rest[k]);
                        }
                    }
                }
            } else {
                let cr = collapse_from(rest, false);
                if i == 0 {
                    assert(c[0] == lines[0]);
                } else {
                    assert(c[i] == cr[i - 1]);
                    if !blank_line(c[i]) {
                        let k = choose|k: int| 0 <= k < rest.len() && rest[k] == cr[i - 1];
                        assert(lines[k + 1] == rest[k]);
                    }
                }
            }
        }
    }
}

/// How finalizing treats one rendered line: the rule is the only line it drops; a source,
/// provenance or workflow source line becomes a detail; and a line it keeps is the text after a
/// `reason: ` prefix, `Next` for the `actions` heading, or else the line without its trailing
/// whitespace, which is then neither the rule nor a source, provenance or workflow source line.
pub proof fn law_finalized_line(line: Seq<char>)
    ensures
        match line_use(line) {
            LineUse::Dropped => trim_end(line) == thin_rule(),
            LineUse::Detail(label, _) => label == "Source"@ || label == "Provenance"@ || label == "Workflow source"@,
            LineUse::Kept(x) => {
                ||| trim_end(line) == "actions"@ && x == "Next"@
                ||| strip_prefix(trim_end(line), "reason: "@) == Some(x)
                ||| {
                    &&& x == trim_end(line)
                    &&& x != thin_rule()
                    &&& strip_prefix(trim_start(x), "source: "@) is None
                    &&& strip_prefix(trim_start(x), "provenance: "@) is None
                    &&& strip_prefix(trim_start(x), "workflow source: "@) is None
                }
            },
        },
{
}

/// Whether an output line is one the cleanup may print: `Next` for the `actions` heading, the
/// text after a `reason: ` prefix of a rendered line, or a line that is neither the thin rule
/// nor a source, provenance or workflow source line.
pub open spec fn cleaned_output_line(x: Seq<char>, rendered_lines: Seq<Seq<char>>) -> bool {
    ||| x == "Next"@
    ||| exists|j: int|
        0 <= j < rendered_lines.len() && strip_prefix(trim_end(#[trigger] rendered_lines[j]), "reason: "@) == Some(x)
    ||| {
        &&& x != thin_rule()
        &&& strip_prefix(trim_start(x), "source: "@) is None
        &&& strip_prefix(trim_start(x), "provenance: "@) is None
        &&& strip_prefix(trim_start(x), "workflow source: "@) is None
    }
}

/// Cleaning up any rendered text at normal or quiet verbosity gives the cleaned body alone, with
/// no details or trace: its lines joined by line breaks and ended by one, none blank at either
/// end, no two blank lines in a row, every blank line empty, and every other line one the
/// cleanup keeps of a rendered line, so never the thin rule, a source, provenance or workflow
/// source line, except as the text of a `reason: ` line.
pub proof fn law_finalized_text(output: CommandOutput, rendered: Seq<char>, verbosity: Verbosity, trace_json: Seq<char>)
    requires
        verbosity == Verbosity::Normal || verbosity == Verbosity::Quiet,
    ensures
        ({
            let ls = lines(rendered);
            let out_lines = collapsed(kept_lines(ls));
            let body = body_text(rendered);
            &&& finalized_text(output, rendered, verbosity, trace_json) == body
            &&& body == join_with(out_lines, "\n"@) || body == join_with(out_lines, "\n"@).push('\n')
            &&& body.len() == 0 || body.last() == '\n'
            &&& out_lines.len() > 0 ==> !blank_line(out_lines[0]) && !blank_line(out_lines.last())
            &&& forall|i: int|
                0 <= i < out_lines.len() - 1 && blank_line(#[trigger] out_lines[i]) ==> !blank_line(out_lines[i + 1])
            &&& forall|i: int|
                0 <= i < out_lines.len() && blank_line(#[trigger] out_lines[i]) ==> out_lines[i] == Seq::<
                    char,
                >::empty()
            &&& forall|i: int|
                0 <= i < out_lines.len() && !blank_line(#[trigger] out_lines[i]) ==> exists|j: int|
                    0 <= j < ls.len() && line_use(ls[j]) == LineUse::Kept(out_lines[i])
            &&& forall|i: int|
                0 <= i < out_lines.len() && !blank_line(#[trigger] out_lines[i]) ==> cleaned_output_line(
                    out_lines[i],
                    ls,
                )
        }),
{
    let ls = lines(rendered);
    let k = kept_lines(ls);
    let out_lines = collapsed(k);
    law_collapsed_blank_lines(k);
    lemma_kept_lines_from(ls);
    let full = collapse_from(k, true);
    lemma_collapse_from_members(k, true);
    lemma_drop_trailing_shape(full);
    assert forall|i: int| 0 <= i < out_lines.len() && !blank_line(#[trigger] out_lines[i]) implies exists|j: int|
        0 <= j < ls.len() && line_use(ls[j]) == LineUse::Kept(out_lines[i]) by {
        assert(out_lines[i] == full[i]);
        assert(k.contains(full[i]));
        let m = choose|m: int| 0 <= m < k.len() && k[m] == full[i];
        assert(exists|j: int| 0 <= j < ls.len() && line_use(ls[j]) == LineUse::Kept(k[m]));
    }
    assert forall|i: int| 0 <= i < out_lines.len() && !blank_line(#[trigger] out_lines[i]) implies cleaned_output_line(
        out_lines[i],
        ls,
    ) by {
        let x = out_lines[i];
        let j = choose|j: int| 0 <= j < ls.len() && line_use(ls[j]) == LineUse::Kept(x);
        law_finalized_line(ls[j]);
        if strip_prefix(trim_end(ls[j]), "reason: "@) == Some(x) {
            assert(exists|jj: int|
                0 <= jj < ls.len() && strip_prefix(trim_end(#[trigger] ls[jj]), "reason: "@) == Some(x));
        }
    }
}

/// What normal and quiet output prints for a view (when the view has no quiet line) is its
/// render cleaned up as `law_finalized_text` states.
pub proof fn law_finalized_human_output(output: CommandOutput, verbosity: Verbosity, trace_json: Seq<char>)
    requires
        verbosity == Verbosity::Normal || verbosity == Verbosity::Quiet,
    ensures
        (verbosity == Verbosity::Normal || quiet_text(output.view) is None) ==> human_text(output, verbosity, trace_json)
            == body_text(view_text(output.view)),
        finalized_text(output, view_text(output.view), verbosity, trace_json) == body_text(view_text(output.view)),
{
    law_finalized_text(output, view_text(output.view), verbosity, trace_json);
}


proof fn lemma_ascii_blen(s: Seq<char>)
    requires
        is_ascii_chars(s),
        s.len() <= 64,
    ensures
        blen(s) == s.len(),
{
    is_ascii_chars_encode_utf8(s);
}

/// The opening of `config show`: the context line, a blank line, and the output pairs with
/// their labels aligned.
pub open spec fn config_show_head(v: ConfigShowView) -> Seq<char> {
    "config · effective\n\noutput\n"@ + "  format     "@ + v.output.format@ + "\n"@ + "  verbosity  "@
        + v.output.verbosity@ + "\n"@ + "  color      "@ + yes_no_text(v.output.color) + "\n"@ + "  dry run    "@
        + yes_no_text(v.output.dry_run) + "\n\n"@
}

/// One output row, its label padded to the output section's width.
spec fn output_line(label: Seq<char>, value: Seq<char>) -> Seq<char> {
    "  "@ + pad_right(label, 9) + "  "@ + nl(value)
}

proof fn lemma_output_line_literals(f: Seq<char>, vb: Seq<char>, c: Seq<char>, d: Seq<char>)
    ensures
        output_line("format"@, f) == "  format     "@ + f + "\n"@,
        output_line("verbosity"@, vb) == "  verbosity  "@ + vb + "\n"@,
        output_line("color"@, c) == "  color      "@ + c + "\n"@,
        output_line("dry run"@, d) == "  dry run    "@ + d + "\n"@,
{
    reveal_strlit("format");
    reveal_strlit("verbosity");
    reveal_strlit("color");
    reveal_strlit("dry run");
    reveal_strlit("  ");
    reveal_strlit("\n");
    reveal_strlit("  format     ");
    reveal_strlit("  verbosity  ");
    reveal_strlit("  color      ");
    reveal_strlit("  dry run    ");
    assert(output_line("format"@, f) =~= "  format     "@ + f + "\n"@);
    assert(output_line("verbosity"@, vb) =~= "  verbosity  "@ + vb + "\n"@);
    assert(output_line("color"@, c) =~= "  color      "@ + c + "\n"@);
    assert(output_line("dry run"@, d) =~= "  dry run    "@ + d + "\n"@);
}

spec fn output_rows_of(f: Seq<char>, vb: Seq<char>, c: Seq<char>, d: Seq<char>) -> Seq<(Seq<char>, Seq<char>)> {
    seq![("format"@, f), ("verbosity"@, vb), ("color"@, c), ("dry run"@, d)]
}

proof fn lemma_output_width(f: Seq<char>, vb: Seq<char>, c: Seq<char>, d: Seq<char>)
    ensures
        label_width(output_rows_of(f, vb, c, d)) == 9,
{
    reveal_strlit("format");
    reveal_strlit("verbosity");
    reveal_strlit("color");
    reveal_strlit("dry run");
    lemma_ascii_blen("format"@);
    lemma_ascii_blen("verbosity"@);
    lemma_ascii_blen("color"@);
    lemma_ascii_blen("dry run"@);
    let rows = output_rows_of(f, vb, c, d);
    assert(rows.drop_last() =~= seq![("format"@, f), ("verbosity"@, vb), ("color"@, c)]);
    assert(rows.drop_last().drop_last() =~= seq![("format"@, f), ("verbosity"@, vb)]);
    assert(rows.drop_last().drop_last().drop_last() =~= seq![("format"@, f)]);
    assert(rows.drop_last().drop_last().drop_last().drop_last() =~= Seq::<(Seq<char>, Seq<char>)>::empty());
    let r1 = rows.drop_last().drop_last().drop_last();
    assert(r1.last().0 == "format"@);
    assert(blen(r1.last().0) == 6);
    assert(label_width(r1.drop_last()) == 0);
    assert(label_width(r1) == 6);
    assert(label_width(rows.drop_last().drop_last()) == 9);
    assert(label_width(rows.drop_last()) == 9);
}

proof fn lemma_output_row_lines(f: Seq<char>, vb: Seq<char>, c: Seq<char>, d: Seq<char>)
    ensures
        row_lines(output_rows_of(f, vb, c, d), 9) == output_line("format"@, f) + output_line("verbosity"@, vb)
            + output_line("color"@, c) + output_line("dry run"@, d),
{
    let rows = output_rows_of(f, vb, c, d);
    let r3 = rows.drop_last();
    let r2 = r3.drop_last();
    let r1 = r2.drop_last();
    assert(r3 =~= seq![("format"@, f), ("verbosity"@, vb), ("color"@, c)]);
    assert(r2 =~= seq![("format"@, f), ("verbosity"@, vb)]);
    assert(r1 =~= seq![("format"@, f)]);
    assert(r1.drop_last() =~= Seq::<(Seq<char>, Seq<char>)>::empty());
    assert(row_lines(r1.drop_last(), 9) == Seq::<char>::empty());
    assert(row_lines(r1, 9) =~= output_line("format"@, f));
    assert(row_lines(r2, 9) == row_lines(r1, 9) + output_line("verbosity"@, vb));
    assert(row_lines(r3, 9) == row_lines(r2, 9) + output_line("color"@, c));
    assert(row_lines(rows, 9) == row_lines(r3, 9) + output_line("dry run"@, d));
}

proof fn lemma_output_rows_text(v: ConfigShowView)
    ensures
        field_rows_string(output_rows(v)) == "  format     "@ + v.output.format@ + "\n"@ + "  verbosity  "@
            + v.output.verbosity@ + "\n"@ + "  color      "@ + yes_no_text(v.output.color) + "\n"@
            + "  dry run    "@ + yes_no_text(v.output.dry_run) + "\n"@,
{
    let f = v.output.format@;
    let vb = v.output.verbosity@;
    let c = yes_no_text(v.output.color);
    let d = yes_no_text(v.output.dry_run);
    assert(output_rows(v) == output_rows_of(f, vb, c, d));
    lemma_output_width(f, vb, c, d);
    lemma_output_row_lines(f, vb, c, d);
    lemma_output_line_literals(f, vb, c, d);
    assert(field_rows_string(output_rows(v)) =~= "  format     "@ + f + "\n"@ + "  verbosity  "@ + vb + "\n"@
        + "  color      "@ + c + "\n"@ + "  dry run    "@ + d + "\n"@);
}

proof fn lemma_prefix_of_concat(a: Seq<char>, b: Seq<char>)
    ensures
        a.is_prefix_of(a + b),
{
    assert((a + b).subrange(0, a.len() as int) =~= a);
}

proof fn lemma_prefix_trans(a: Seq<char>, b: Seq<char>, c: Seq<char>)
    requires
        a.is_prefix_of(b),
        b.is_prefix_of(c),
    ensures
        a.is_prefix_of(c),
{
    assert(c.subrange(0, a.len() as int) =~= b.subrange(0, a.len() as int));
}

proof fn lemma_suffix_of_concat(a: Seq<char>, b: Seq<char>)
    ensures
        (a + b).len() >= b.len(),
        (a + b).subrange((a + b).len() - b.len(), (a + b).len() as int) == b,
{
    assert((a + b).subrange((a + b).len() - b.len(), (a + b).len() as int) =~= b);
}

proof fn lemma_config_show_tail(v: ConfigShowView)
    ensures
        config_show_text(v).len() >= nl("source: "@ + v.source@).len(),
        config_show_text(v).subrange(
            config_show_text(v).len() - nl("source: "@ + v.source@).len(),
            config_show_text(v).len() as int,
        ) == nl("source: "@ + v.source@),
{
    let last = nl("source: "@ + v.source@);
    let t = tables_text(v);
    let tf = seq!['\n'] + nl("capability bindings"@) + table_text(
        binding_headers(),
        v.capability_bindings@.map_values(|b: CapabilityBindingRuntimeView| binding_cells(b)),
    ) + seq!['\n'] + nl("resolved providers"@) + table_text(
        provider_headers(),
        v.resolved_providers@.map_values(|p: ResolvedProviderView| provider_cells(p)),
    );
    assert(t == tf + last);
    let a = settings_text(v) + account_text(v) + services_text(v);
    assert(config_show_text(v) == a + t);
    assert(a + t =~= (a + tf) + last);
    lemma_suffix_of_concat(a + tf, last);
}

proof fn lemma_selector_row(v: ConfigShowView)
    ensures
        (account_rows(v)[0].0 == "selector"@) <==> v.account.selector is Some,
{
    reveal_strlit("selector");
    reveal_strlit("store path");
    if v.account.selector is None {
        assert(account_rows(v)[0].0 == "store path"@);
        assert("store path"@[1] != "selector"@[1]);
    }
}

proof fn lemma_config_show_head(v: ConfigShowView)
    ensures
        context_text("config · effective"@) + pairs_text("output"@, output_rows(v)) == config_show_head(v),
{
    reveal_strlit("config · effective");
    reveal_strlit("output");
    reveal_strlit("config · effective\n\noutput\n");
    reveal_strlit("\n\n");
    reveal_strlit("\n");
    lemma_output_rows_text(v);
    assert(context_text("config · effective"@) + pairs_text("output"@, output_rows(v)) =~= config_show_head(v));
}

/// `config show` opens with the effective output settings, ends with its source line, and its
/// account section starts with the selector row exactly when an account selector is set.
pub proof fn law_config_show_shape(v: ConfigShowView)
    ensures
        config_show_head(v).is_prefix_of(config_show_text(v)),
        config_show_text(v).len() >= nl("source: "@ + v.source@).len(),
        config_show_text(v).subrange(
            config_show_text(v).len() - nl("source: "@ + v.source@).len(),
            config_show_text(v).len() as int,
        ) == nl("source: "@ + v.source@),
        (account_rows(v)[0].0 == "selector"@) <==> v.account.selector is Some,
{
    lemma_config_show_head(v);
    lemma_config_show_tail(v);
    let head = context_text("config · effective"@) + pairs_text("output"@, output_rows(v));
    let s1 = head + pairs_text("interaction"@, interaction_rows(v));
    let s2 = s1 + pairs_text("runtime roots"@, roots_rows(v));
    let t1 = s2 + account_text(v);
    let t2 = t1 + services_text(v);
    let t3 = t2 + tables_text(v);
    lemma_prefix_of_concat(head, pairs_text("interaction"@, interaction_rows(v)));
    lemma_prefix_of_concat(s1, pairs_text("runtime roots"@, roots_rows(v)));
    lemma_prefix_of_concat(s2, account_text(v));
    lemma_prefix_of_concat(t1, services_text(v));
    lemma_prefix_of_concat(t2, tables_text(v));
    lemma_prefix_trans(head, s1, s2);
    lemma_prefix_trans(head, s2, t1);
    lemma_prefix_trans(head, t1, t2);
    lemma_prefix_trans(head, t2, t3);
    assert(settings_text(v) == s2);
    assert(config_show_text(v) == t3);
    lemma_selector_row(v);
}

/// An env file value enclosed in a matching pair of quotes, single or double, is read without
/// them, whatever it holds inside; a value not enclosed in a matching pair is read as it is.
pub proof fn law_env_value_unquoted(inner: Seq<char>, v: Seq<char>)
    ensures
        unquote(seq!['\''] + inner + seq!['\'']) == inner,
        unquote(seq!['"'] + inner + seq!['"']) == inner,
        !(v.len() >= 2 && v[0] == v.last() && (v[0] == '\'' || v[0] == '"')) ==> unquote(v) == v,
{
    let s1 = seq!['\''] + inner + seq!['\''];
    let s2 = seq!['"'] + inner + seq!['"'];
    assert(s1[0] == '\'' && s1.last() == '\'');
    assert(s2[0] == '"' && s2.last() == '"');
    assert(s1.subrange(1, s1.len() - 1) =~= inner);
    assert(s2.subrange(1, s2.len() - 1) =~= inner);
}

/// An applied query rewrite searches for the normalized terms hyf returned: they are not empty and
/// differ from the normalized typed terms. Its query is hyf's trimmed text, or those terms joined
/// by spaces when that text is blank. A rewrite is applied exactly when hyf's normalized terms are
/// not empty and differ from the typed ones.
pub proof fn law_query_rewrite_uses_hyf_terms(
    original: Seq<Seq<char>>,
    hyf_terms: Seq<Seq<char>>,
    rewritten_text: Seq<char>,
)
    ensures
        match rewrite_decision(original, hyf_terms, rewritten_text) {
            Some((query, terms)) => {
                &&& terms == hyf_terms.map_values(|t: Seq<char>| lowercase_of(trim(t))).filter(
                    |t: Seq<char>| t.len() > 0,
                )
                &&& terms.len() > 0
                &&& terms != original.map_values(|t: Seq<char>| lowercase_of(trim(t))).filter(
                    |t: Seq<char>| t.len() > 0,
                )
                &&& query == (if trim(rewritten_text).len() == 0 {
                    join_with(terms, " "@)
                } else {
                    trim(rewritten_text)
                })
            },
            None => {
                let h = hyf_terms.map_values(|t: Seq<char>| lowercase_of(trim(t))).filter(|t: Seq<char>| t.len() > 0);
                h.len() == 0 || h == original.map_values(|t: Seq<char>| lowercase_of(trim(t))).filter(
                    |t: Seq<char>| t.len() > 0,
                )
            },
        },
{
}

/// After `farm set` of a location field (location, city, region or country) with a value that is
/// not blank, both the listing defaults and the farm's public location hold that value, trimmed,
/// in that field; the farm location's other fields keep what the farm's location held, or what
/// the listing defaults held when the farm had no location.
pub proof fn law_set_location_field_updates_farm_location(d: DocumentView, field: FarmField, value: Seq<char>)
    requires
        trim(value).len() > 0,
        field == FarmField::Location || field == FarmField::City || field == FarmField::Region || field
            == FarmField::Country,
    ensures
        ({
            let v = trim(value);
            let a = field_updated(d, field, v);
            let (p0, c0, r0, n0) = match d.farm.location {
                Some(l) => (l.primary, l.city, l.region, l.country),
                None => (Some(d.defaults.primary), d.defaults.city, d.defaults.region, d.defaults.country),
            };
            &&& a.farm.location is Some
            &&& field == FarmField::Location ==> a.defaults.primary == v && a.farm.location->0.primary == Some(v)
                && a.farm.location->0.city == c0 && a.farm.location->0.region == r0
                && a.farm.location->0.country == n0
            &&& field == FarmField::City ==> a.defaults.city == Some(v) && a.farm.location->0.city == Some(v)
                && a.farm.location->0.primary == p0 && a.farm.location->0.region == r0
                && a.farm.location->0.country == n0
            &&& field == FarmField::Region ==> a.defaults.region == Some(v) && a.farm.location->0.region == Some(v)
                && a.farm.location->0.primary == p0 && a.farm.location->0.city == c0
                && a.farm.location->0.country == n0
            &&& field == FarmField::Country ==> a.defaults.country == Some(v) && a.farm.location->0.country
                == Some(v) && a.farm.location->0.primary == p0 && a.farm.location->0.city == c0
                && a.farm.location->0.region == r0
            &&& a.profile == d.profile && a.farm.name == d.farm.name
        }),
{
}

/// A job command whose daemon call fails reports by the kind of failure: a transport failure is
/// external-unavailable, state `unavailable`, with the one step to start radrootsd and check the
/// rpc url; missing configuration, refused authorization or a missing bridge method is
/// unconfigured, with the steps to set the bearer token and start the bridge; anything else is an
/// internal error with no steps.
pub proof fn law_job_error_reporting(e: DaemonRpcError)
    ensures
        ({
            let (disposition, state, actions) = job_error_parts(e);
            &&& e is External ==> disposition == OutputDisposition::ExternalUnavailable && state == "unavailable"@
                && actions == seq!["start radrootsd and verify the rpc url"@]
            &&& (e is Unconfigured || e is Unauthorized || e is MethodUnavailable) ==> disposition
                == OutputDisposition::Unconfigured && state == "unconfigured"@ && actions == seq![
                "set RADROOTS_RPC_BEARER_TOKEN in .env or your shell"@,
                "start radrootsd with bridge ingress enabled"@,
            ]
            &&& (e is UnknownJob || e is InvalidResponse || e is Remote) ==> disposition
                == OutputDisposition::InternalError && state == "error"@ && actions.len() == 0
            &&& disposition != OutputDisposition::Success
        }),
{
}

} // verus!
