use vstd::prelude::*;

use crate::bindings::{bindings_view, opt_str_view};
use crate::config::CapabilityBindingTargetKind;
use crate::runtime_config::{HyfConfig, RuntimeConfig, first_binding_for};
use crate::text::{
    append_str, concat2, concat3, decimal, decimal_string, owned, signed_decimal, signed_decimal_string,
    str_eq,
};

verus! {

/// What the runtime reports about the local hyf service.
#[derive(Debug, Clone, PartialEq, Eq)]
pub struct HyfStatusView {
    pub executable: String,
    pub state: String,
    pub source: String,
    pub reason: Option<String>,
    pub protocol_version: Option<u64>,
    pub deterministic_available: Option<bool>,
}

/// The plain values of a status view.
pub struct StatusSpec {
    pub executable: Seq<char>,
    pub state: Seq<char>,
    pub source: Seq<char>,
    pub reason: Option<Seq<char>>,
    pub protocol_version: Option<u64>,
    pub deterministic_available: Option<bool>,
}

impl HyfStatusView {
    pub open spec fn view_of(self) -> StatusSpec {
        StatusSpec {
            executable: self.executable@,
            state: self.state@,
            source: self.source@,
            reason: opt_str_view(self.reason),
            protocol_version: self.protocol_version,
            deterministic_available: self.deterministic_available,
        }
    }
}

/// A client for the hyf stdio service at one executable.
#[derive(Debug, Clone, PartialEq, Eq)]
pub struct HyfClient {
    executable: String,
}

impl HyfClient {
    pub closed spec fn executable_view(self) -> Seq<char> {
        self.executable@
    }

    /// A client for the service at `executable`.
    pub fn new(executable: String) -> (r: HyfClient)
        ensures
            r.executable_view() == executable@,
    {
        HyfClient { executable }
    }

    /// The executable this client runs.
    pub fn executable(&self) -> (r: &str)
        ensures
            r@ == self.executable_view(),
    {
        self.executable.as_str()
    }
}

/// Why a request to hyf did not succeed; system errors are held as their message text.
#[derive(Debug, Clone, PartialEq, Eq)]
pub enum HyfClientError {
    NotFound,
    Start(String),
    Write(String),
    Wait(String),
    Read(String),
    Timeout(u128),
    NonZeroExit { status: Option<i32>, stderr: String },
    SerializeRequest(String),
    InvalidUtf8(String),
    InvalidJson(String),
    InvalidResponse(String),
    RemoteError { code: Option<String>, message: Option<String> },
}

/// The protocol version this runtime speaks.
pub open spec fn protocol_version() -> u64 {
    1
}

/// The source line of every status view.
pub open spec fn hyf_source() -> Seq<char> {
    "hyf status control request · local first"@
}

/// The request id of the status control request.
pub open spec fn status_request_id() -> Seq<char> {
    "cli-doctor-hyf-status"@
}

/// A successful reply from hyf.
#[derive(Debug, Clone, PartialEq, Eq)]
pub struct HyfSuccess<T> {
    pub version: u64,
    pub request_id: String,
    pub trace_id: Option<String>,
    pub output: T,
    pub meta: Option<String>,
}

/// The build identity hyf reports.
#[derive(Debug, Clone, PartialEq, Eq)]
pub struct HyfBuildIdentity {
    pub protocol_version: u64,
}

/// The execution modes hyf has enabled.
#[derive(Debug, Clone, PartialEq, Eq)]
pub struct HyfExecutionModes {
    pub deterministic: bool,
    pub assisted: Option<bool>,
}

/// The output of the status control request.
#[derive(Debug, Clone, PartialEq, Eq)]
pub struct HyfStatusOutput {
    pub build_identity: HyfBuildIdentity,
    pub enabled_execution_modes: HyfExecutionModes,
}

/// A status view in state `disabled`.
pub open spec fn disabled_spec(executable: Seq<char>) -> StatusSpec {
    StatusSpec {
        executable,
        state: "disabled"@,
        source: hyf_source(),
        reason: Some("disabled by config"@),
        protocol_version: None,
        deterministic_available: None,
    }
}

/// A status view in state `unavailable`.
pub open spec fn unavailable_spec(
    executable: Seq<char>,
    reason: Seq<char>,
    protocol_version: Option<u64>,
    deterministic_available: Option<bool>,
) -> StatusSpec {
    StatusSpec {
        executable,
        state: "unavailable"@,
        source: hyf_source(),
        reason: Some(reason),
        protocol_version,
        deterministic_available,
    }
}

/// A status view in state `ready`.
pub open spec fn ready_spec(executable: Seq<char>) -> StatusSpec {
    StatusSpec {
        executable,
        state: "ready"@,
        source: hyf_source(),
        reason: Some("healthy · protocol 1 · deterministic available"@),
        protocol_version: Some(1),
        deterministic_available: Some(true),
    }
}

/// How a request that exited unsuccessfully is described.
pub open spec fn nonzero_exit_text(label: Seq<char>, status: Option<i32>, stderr: Seq<char>) -> Seq<char> {
    match status {
        Some(code) => if stderr.len() == 0 {
            label + " exited with status code "@ + signed_decimal(code as int)
        } else {
            label + " exited with status code "@ + signed_decimal(code as int) + ": "@ + stderr
        },
        None => if stderr.len() == 0 {
            label + " terminated by signal"@
        } else {
            label + " terminated by signal: "@ + stderr
        },
    }
}

/// Why the status request failed, as the status view states it.
pub open spec fn status_failure_reason(executable: Seq<char>, e: HyfClientError) -> Seq<char> {
    match e {
        HyfClientError::NotFound => "hyf executable was not found at "@ + executable,
        HyfClientError::Start(m) => "failed to start hyf control request at "@ + executable + ": "@
            + m@,
        HyfClientError::Write(m) => "failed to write hyf control request stdin: "@ + m@,
        HyfClientError::Timeout(ms) => "hyf status control request timed out after "@ + decimal(
            ms as nat,
        ) + "ms"@,
        HyfClientError::Wait(m) => "failed to capture hyf status control output: "@ + m@,
        HyfClientError::Read(m) => "failed to capture hyf status control output: "@ + m@,
        HyfClientError::NonZeroExit { status, stderr } => nonzero_exit_text(
            "hyf status control request"@,
            status,
            stderr@,
        ),
        HyfClientError::InvalidUtf8(m) => "hyf status output was not valid UTF-8: "@ + m@,
        HyfClientError::InvalidJson(m) => "hyf status output was not valid JSON: "@ + m@,
        HyfClientError::RemoteError { code: Some(c), .. } =>
            "hyf status control request returned error code "@ + c@,
        _ => "hyf status control request returned an invalid error response"@,
    }
}

/// The status view for the reply `outcome` of the status request to `executable`.
pub open spec fn status_spec(
    executable: Seq<char>,
    outcome: Result<HyfSuccess<HyfStatusOutput>, HyfClientError>,
) -> StatusSpec {
    match outcome {
        Err(e) => unavailable_spec(executable, status_failure_reason(executable, e), None, None),
        Ok(response) => {
            let pv = response.output.build_identity.protocol_version;
            let det = response.output.enabled_execution_modes.deterministic;
            if response.version != protocol_version() {
                unavailable_spec(
                    executable,
                    "hyf status response version Some("@ + decimal(response.version as nat)
                        + ") is incompatible with cli expected 1"@,
                    Some(pv),
                    Some(det),
                )
            } else if response.request_id@ != status_request_id() {
                unavailable_spec(
                    executable,
                    "hyf status response did not preserve the control request id"@,
                    Some(pv),
                    Some(det),
                )
            } else if pv != protocol_version() {
                unavailable_spec(
                    executable,
                    "hyf protocol version Some("@ + decimal(pv as nat)
                        + ") is incompatible with cli expected 1"@,
                    Some(pv),
                    Some(det),
                )
            } else if !det {
                unavailable_spec(
                    executable,
                    "hyf deterministic execution is unavailable"@,
                    Some(pv),
                    Some(det),
                )
            } else {
                ready_spec(executable)
            }
        },
    }
}

fn disabled_status(executable: String) -> (r: HyfStatusView)
    ensures
        r.view_of() == disabled_spec(executable@),
{
    HyfStatusView {
        executable,
        state: owned("disabled"),
        source: owned("hyf status control request · local first"),
        reason: Some(owned("disabled by config")),
        protocol_version: None,
        deterministic_available: None,
    }
}

fn unavailable_status(
    executable: String,
    reason: String,
    protocol_version: Option<u64>,
    deterministic_available: Option<bool>,
) -> (r: HyfStatusView)
    ensures
        r.view_of() == unavailable_spec(
            executable@,
            reason@,
            protocol_version,
            deterministic_available,
        ),
{
    HyfStatusView {
        executable,
        state: owned("unavailable"),
        source: owned("hyf status control request · local first"),
        reason: Some(reason),
        protocol_version,
        deterministic_available,
    }
}

/// Describes a request, labelled `request_label`, that exited with `status` and `stderr`.
pub fn format_nonzero_exit(request_label: &str, status: Option<i32>, stderr: &str) -> (r: String)
    ensures
        r@ == nonzero_exit_text(request_label@, status, stderr@),
{
    match status {
        Some(code) => {
            let digits = signed_decimal_string(code as i64);
            let mut r = concat3(request_label, " exited with status code ", digits.as_str());
            if !stderr.is_empty() {
                append_str(&mut r, ": ");
                append_str(&mut r, stderr);
            }
            r
        },
        None => {
            if stderr.is_empty() {
                concat2(request_label, " terminated by signal")
            } else {
                concat3(request_label, " terminated by signal: ", stderr)
            }
        },
    }
}

fn failure_reason(executable: &str, error: HyfClientError) -> (r: String)
    ensures
        r@ == status_failure_reason(executable@, error),
{
    match error {
        HyfClientError::NotFound => concat2("hyf executable was not found at ", executable),
        HyfClientError::Start(m) => {
            let mut r = concat2("failed to start hyf control request at ", executable);
            append_str(&mut r, ": ");
            append_str(&mut r, m.as_str());
            r
        },
        HyfClientError::Write(m) => concat2("failed to write hyf control request stdin: ", m.as_str()),
        HyfClientError::Timeout(ms) => {
            let digits = decimal_string(ms);
            concat3("hyf status control request timed out after ", digits.as_str(), "ms")
        },
        HyfClientError::Wait(m) => concat2("failed to capture hyf status control output: ", m.as_str()),
        HyfClientError::Read(m) => concat2("failed to capture hyf status control output: ", m.as_str()),
        HyfClientError::NonZeroExit { status, stderr } => format_nonzero_exit(
            "hyf status control request",
            status,
            stderr.as_str(),
        ),
        HyfClientError::InvalidUtf8(m) => concat2("hyf status output was not valid UTF-8: ", m.as_str()),
        HyfClientError::InvalidJson(m) => concat2("hyf status output was not valid JSON: ", m.as_str()),
        HyfClientError::RemoteError { code: Some(c), .. } => concat2(
            "hyf status control request returned error code ",
            c.as_str(),
        ),
        HyfClientError::RemoteError { code: None, .. } => owned(
            "hyf status control request returned an invalid error response",
        ),
        HyfClientError::SerializeRequest(_) => owned(
            "hyf status control request returned an invalid error response",
        ),
        HyfClientError::InvalidResponse(_) => owned(
            "hyf status control request returned an invalid error response",
        ),
    }
}

/// The status view for `client` given what its status control request returned.
pub fn resolve_status_for_client(
    client: &HyfClient,
    outcome: Result<HyfSuccess<HyfStatusOutput>, HyfClientError>,
) -> (r: HyfStatusView)
    ensures
        r.view_of() == status_spec(client.executable_view(), outcome),
{
    let executable = owned(client.executable());
    let response = match outcome {
        Ok(response) => response,
        Err(error) => {
            let reason = failure_reason(client.executable(), error);
            return unavailable_status(executable, reason, None, None);
        },
    };
    let pv = response.output.build_identity.protocol_version;
    let det = response.output.enabled_execution_modes.deterministic;
    if response.version != 1 {
        let digits = decimal_string(response.version as u128);
        let reason = concat3(
            "hyf status response version Some(",
            digits.as_str(),
            ") is incompatible with cli expected 1",
        );
        return unavailable_status(executable, reason, Some(pv), Some(det));
    }
    if !str_eq(response.request_id.as_str(), "cli-doctor-hyf-status") {
        return unavailable_status(
            executable,
            owned("hyf status response did not preserve the control request id"),
            Some(pv),
            Some(det),
        );
    }
    if pv != 1 {
        let digits = decimal_string(pv as u128);
        let reason = concat3(
            "hyf protocol version Some(",
            digits.as_str(),
            ") is incompatible with cli expected 1",
        );
        return unavailable_status(executable, reason, Some(pv), Some(det));
    }
    if !det {
        return unavailable_status(
            executable,
            owned("hyf deterministic execution is unavailable"),
            Some(pv),
            Some(det),
        );
    }
    HyfStatusView {
        executable,
        state: owned("ready"),
        source: owned("hyf status control request · local first"),
        reason: Some(owned("healthy · protocol 1 · deterministic available")),
        protocol_version: Some(pv),
        deterministic_available: Some(det),
    }
}

/// The client for `config`, or the status view saying why there is none.
pub open spec fn client_result(enabled: bool, executable: Seq<char>) -> Result<Seq<char>, StatusSpec> {
    if !enabled {
        Err(disabled_spec(executable))
    } else if executable.len() == 0 {
        Err(unavailable_spec(executable, "hyf executable path is not configured"@, None, None))
    } else {
        Ok(executable)
    }
}

/// The client for the hyf settings, or the status view that says why there is none.
pub fn resolve_client(config: &HyfConfig) -> (r: Result<HyfClient, HyfStatusView>)
    ensures
        match client_result(config.enabled, config.executable@) {
            Ok(x) => r matches Ok(c) && c.executable_view() == x,
            Err(v) => r matches Err(s) && s.view_of() == v,
        },
{
    let executable = config.executable.clone();
    if !config.enabled {
        return Err(disabled_status(executable));
    }
    if config.executable.as_str().is_empty() {
        return Err(
            unavailable_status(
                executable,
                owned("hyf executable path is not configured"),
                None,
                None,
            ),
        );
    }
    Ok(HyfClient::new(executable))
}

/// The status of hyf under `config`; `probe` runs the status control request for a client and
/// is called only when a client could be resolved.
pub fn resolve_status<F>(config: &HyfConfig, probe: F) -> (r: HyfStatusView) where
    F: Fn(&HyfClient) -> Result<HyfSuccess<HyfStatusOutput>, HyfClientError>,

    requires
        forall|c: &HyfClient| #[trigger] probe.requires((c,)),
    ensures
        match client_result(config.enabled, config.executable@) {
            Err(v) => r.view_of() == v,
            Ok(x) => exists|c: &HyfClient, o: Result<HyfSuccess<HyfStatusOutput>, HyfClientError>|
                c.executable_view() == x && #[trigger] probe.ensures((c,), o) && r.view_of()
                    == status_spec(x, o),
        },
{
    match resolve_client(config) {
        Ok(client) => {
            let outcome = probe(&client);
            resolve_status_for_client(&client, outcome)
        },
        Err(view) => view,
    }
}

/// The client the runtime configuration selects, or the status view saying why there is none:
/// hyf must be enabled; an `inference.hyf_stdio` binding with an explicit endpoint names the
/// executable, one with a managed instance is refused, and without a binding the configured
/// executable is used.
pub open spec fn runtime_client_result(config: RuntimeConfig) -> Result<Seq<char>, StatusSpec> {
    let executable = config.hyf.executable@;
    if !config.hyf.enabled {
        Err(disabled_spec(executable))
    } else {
        match first_binding_for(bindings_view(config.capability_bindings@), "inference.hyf_stdio"@) {
            None => client_result(true, executable),
            Some(b) => match b.target_kind {
                CapabilityBindingTargetKind::ExplicitEndpoint => client_result(true, b.target),
                CapabilityBindingTargetKind::ManagedInstance => Err(
                    unavailable_spec(
                        executable,
                        "configured hyf binding target `"@ + b.target
                            + "` uses unsupported target_kind `managed_instance`; use `explicit_endpoint` for `inference.hyf_stdio`"@,
                        None,
                        None,
                    ),
                ),
            },
        }
    }
}

/// The hyf client the runtime configuration selects, or the status view saying why there is none.
pub fn resolve_runtime_client(config: &RuntimeConfig) -> (r: Result<HyfClient, HyfStatusView>)
    ensures
        match runtime_client_result(*config) {
            Ok(x) => r matches Ok(c) && c.executable_view() == x,
            Err(v) => r matches Err(s) && s.view_of() == v,
        },
{
    if !config.hyf.enabled {
        return Err(disabled_status(config.hyf.executable.clone()));
    }
    let binding = match config.capability_binding("inference.hyf_stdio") {
        Some(b) => b,
        None => {
            let settings = HyfConfig { enabled: true, executable: config.hyf.executable.clone() };
            return resolve_client(&settings);
        },
    };
    match binding.target_kind {
        CapabilityBindingTargetKind::ExplicitEndpoint => {
            let settings = HyfConfig { enabled: true, executable: binding.target.clone() };
            resolve_client(&settings)
        },
        CapabilityBindingTargetKind::ManagedInstance => {
            let reason = concat3(
                "configured hyf binding target `",
                binding.target.as_str(),
                "` uses unsupported target_kind `managed_instance`; use `explicit_endpoint` for `inference.hyf_stdio`",
            );
            Err(unavailable_status(config.hyf.executable.clone(), reason, None, None))
        },
    }
}

/// The hyf status under the runtime configuration; `probe` runs the status control request.
pub fn resolve_runtime_status<F>(config: &RuntimeConfig, probe: F) -> (r: HyfStatusView) where
    F: Fn(&HyfClient) -> Result<HyfSuccess<HyfStatusOutput>, HyfClientError>,

    requires
        forall|c: &HyfClient| #[trigger] probe.requires((c,)),
    ensures
        match runtime_client_result(*config) {
            Err(v) => r.view_of() == v,
            Ok(x) => exists|c: &HyfClient, o: Result<HyfSuccess<HyfStatusOutput>, HyfClientError>|
                c.executable_view() == x && #[trigger] probe.ensures((c,), o) && r.view_of()
                    == status_spec(x, o),
        },
{
    match resolve_runtime_client(config) {
        Ok(client) => {
            let outcome = probe(&client);
            resolve_status_for_client(&client, outcome)
        },
        Err(view) => view,
    }
}

/// The selected hyf client when its status is `ready`, else the status view.
pub fn resolve_ready_runtime_client<F>(config: &RuntimeConfig, probe: F) -> (r: Result<
    HyfClient,
    HyfStatusView,
>) where F: Fn(&HyfClient) -> Result<HyfSuccess<HyfStatusOutput>, HyfClientError>,

    requires
        forall|c: &HyfClient| #[trigger] probe.requires((c,)),
    ensures
        match runtime_client_result(*config) {
            Err(v) => r matches Err(s) && s.view_of() == v,
            Ok(x) => exists|c: &HyfClient, o: Result<HyfSuccess<HyfStatusOutput>, HyfClientError>|
                c.executable_view() == x && #[trigger] probe.ensures((c,), o) && (if status_spec(
                    x,
                    o,
                ).state == "ready"@ {
                    r matches Ok(k) && k.executable_view() == x
                } else {
                    r matches Err(s) && s.view_of() == status_spec(x, o)
                }),
        },
{
    let client = match resolve_runtime_client(config) {
        Ok(c) => c,
        Err(view) => {
            return Err(view);
        },
    };
    let outcome = probe(&client);
    let status = resolve_status_for_client(&client, outcome);
    if str_eq(status.state.as_str(), "ready") {
        Ok(client)
    } else {
        Err(status)
    }
}

/// The context sent with a business request to hyf.
#[derive(Debug, Clone, Default, PartialEq, Eq)]
pub struct HyfRequestContext {
    pub consumer: Option<String>,
    pub execution_mode_preference: Option<String>,
    pub scope: Option<HyfRequestScope>,
    pub return_provenance: Option<bool>,
}

/// The listings a request is scoped to.
#[derive(Debug, Clone, Default, PartialEq, Eq)]
pub struct HyfRequestScope {
    pub listing_ids: Vec<String>,
}

impl HyfRequestContext {
    /// The context of a deterministic request from this command line tool.
    pub fn deterministic_cli() -> (r: HyfRequestContext)
        ensures
            opt_str_view(r.consumer) == Some("radroots-cli"@),
            opt_str_view(r.execution_mode_preference) == Some("deterministic"@),
            r.scope is None,
            r.return_provenance is None,
    {
        HyfRequestContext {
            consumer: Some(owned("radroots-cli")),
            execution_mode_preference: Some(owned("deterministic")),
            scope: None,
            return_provenance: None,
        }
    }

    /// The same context, asking for provenance or not.
    pub fn with_return_provenance(self, return_provenance: bool) -> (r: HyfRequestContext)
        ensures
            r.consumer == self.consumer,
            r.execution_mode_preference == self.execution_mode_preference,
            r.scope == self.scope,
            r.return_provenance == Some(return_provenance),
    {
        let mut next = self;
        next.return_provenance = Some(return_provenance);
        next
    }

    /// The same context, scoped to `listing_ids`; an empty list removes the scope.
    pub fn with_listing_scope(self, listing_ids: Vec<String>) -> (r: HyfRequestContext)
        ensures
            r.consumer == self.consumer,
            r.execution_mode_preference == self.execution_mode_preference,
            r.return_provenance == self.return_provenance,
            listing_ids@.len() == 0 ==> r.scope is None,
            listing_ids@.len() > 0 ==> (r.scope matches Some(sc) && sc.listing_ids@ == listing_ids@),
    {
        let mut next = self;
        next.scope = if listing_ids.len() == 0 {
            None
        } else {
            Some(HyfRequestScope { listing_ids })
        };
        next
    }
}

/// The input of a `query_rewrite` request.
#[derive(Debug, Clone, PartialEq, Eq)]
pub struct HyfQueryRewriteRequest {
    pub query: String,
}

impl HyfQueryRewriteRequest {
    /// A request to rewrite `query`.
    pub fn new(query: String) -> (r: HyfQueryRewriteRequest)
        ensures
            r.query@ == query@,
    {
        HyfQueryRewriteRequest { query }
    }
}

/// The filters hyf extracted from a query.
#[derive(Debug, Clone, PartialEq, Eq)]
pub struct HyfExtractedFilters {
    pub local_intent: bool,
    pub fulfillment: String,
    pub time_window: String,
}

/// The output of a `query_rewrite` request.
#[derive(Debug, Clone, PartialEq, Eq)]
pub struct HyfQueryRewriteOutput {
    pub original_text: String,
    pub normalized_text: String,
    pub rewritten_text: String,
    pub query_terms: Vec<String>,
    pub normalization_signals: Vec<String>,
    pub ranking_hints: Vec<String>,
    pub extracted_filters: HyfExtractedFilters,
}

/// The request-context contract hyf advertises.
#[derive(Debug, Clone, PartialEq, Eq)]
pub struct HyfRequestContextContract {
    pub accepted_features: Vec<String>,
    pub effective_features: Vec<String>,
    pub unsupported_field_behavior: String,
}

/// One business capability hyf advertises.
#[derive(Debug, Clone, PartialEq, Eq)]
pub struct HyfBusinessCapability {
    pub id: String,
    pub kind: String,
    pub deterministic_execution: String,
    pub implementation_status: String,
    pub callable: bool,
    pub implemented: bool,
    pub assisted_execution: String,
    pub assisted_backend_available: bool,
    pub disabled_reason: Option<String>,
}

/// One candidate as hyf scored it.
#[derive(Debug, Clone, PartialEq, Eq)]
pub struct HyfScoredCandidate {
    pub id: String,
    pub heuristic_score: i64,
    pub matched_terms: Vec<String>,
    pub reasons: Vec<String>,
    pub delivery_alignment: String,
    pub distance_band: String,
    pub freshness_band: String,
    pub scope_match: bool,
}

/// The output of a `semantic_rank` request; `reasons` pairs each ranked id with its reasons.
#[derive(Debug, Clone, PartialEq, Eq)]
pub struct HyfSemanticRankOutput {
    pub ranked_ids: Vec<String>,
    pub reasons: Vec<(String, Vec<String>)>,
    pub scored_candidates: Vec<HyfScoredCandidate>,
    pub ranking_hints: Vec<String>,
    pub extracted_filters: HyfExtractedFilters,
}

/// How one result's signals compare to the query.
#[derive(Debug, Clone, PartialEq, Eq)]
pub struct HyfSignalAssessment {
    pub delivery_alignment: String,
    pub distance_band: String,
    pub freshness_band: String,
    pub scope_match: bool,
}

/// The output of an `explain_result` request.
#[derive(Debug, Clone, PartialEq, Eq)]
pub struct HyfExplainResultOutput {
    pub result_id: String,
    pub explanation_kind: String,
    pub summary: String,
    pub score: i64,
    pub reasons: Vec<String>,
    pub matched_terms: Vec<String>,
    pub ranking_hints: Vec<String>,
    pub extracted_filters: HyfExtractedFilters,
    pub signal_assessment: HyfSignalAssessment,
}

/// The error object of a failed reply.
#[derive(Debug, Clone, PartialEq, Eq)]
pub struct HyfWireError {
    pub code: Option<String>,
    pub message: Option<String>,
}

/// A reply as hyf writes it.
#[derive(Debug, Clone, PartialEq, Eq)]
pub struct HyfWireResponse<T> {
    pub version: u64,
    pub request_id: String,
    pub trace_id: Option<String>,
    pub ok: bool,
    pub output: Option<T>,
    pub meta: Option<String>,
    pub error: Option<HyfWireError>,
}

/// What a decoded reply means: a remote error when it is not `ok`, an invalid response when it
/// carries no output, else the success.
pub fn response_outcome<T>(response: HyfWireResponse<T>) -> (r: Result<HyfSuccess<T>, HyfClientError>)
    ensures
        !response.ok ==> (r matches Err(HyfClientError::RemoteError { code, message }) && (match response.error {
            Some(e) => code == e.code && message == e.message,
            None => code is None && message is None,
        })),
        response.ok && response.output is None ==> (r matches Err(HyfClientError::InvalidResponse(m))
            && m@ == "hyf response omitted output for a successful request"@),
        response.ok && response.output is Some ==> (r matches Ok(s) && s.version == response.version
            && s.request_id == response.request_id && s.trace_id == response.trace_id && s.output
            == response.output->0 && s.meta == response.meta),
{
    if !response.ok {
        return match response.error {
            Some(e) => Err(HyfClientError::RemoteError { code: e.code, message: e.message }),
            None => Err(HyfClientError::RemoteError { code: None, message: None }),
        };
    }
    match response.output {
        Some(output) => Ok(
            HyfSuccess {
                version: response.version,
                request_id: response.request_id,
                trace_id: response.trace_id,
                output,
                meta: response.meta,
            },
        ),
        None => Err(
            HyfClientError::InvalidResponse(owned("hyf response omitted output for a successful request")),
        ),
    }
}

impl HyfClientError {
    /// The message text of this error.
    pub open spec fn message_view(self) -> Seq<char> {
        match self {
            HyfClientError::NotFound => "hyf executable was not found"@,
            HyfClientError::Start(m) => "failed to start hyf request: "@ + m@,
            HyfClientError::Write(m) => "failed to write hyf request stdin: "@ + m@,
            HyfClientError::Wait(m) => "failed to wait on hyf request: "@ + m@,
            HyfClientError::Read(m) => "failed to read hyf request output: "@ + m@,
            HyfClientError::Timeout(ms) => "hyf request timed out after "@ + decimal(ms as nat) + "ms"@,
            HyfClientError::NonZeroExit { .. } => "hyf request exited unsuccessfully"@,
            HyfClientError::SerializeRequest(m) => "failed to serialize hyf request: "@ + m@,
            HyfClientError::InvalidUtf8(m) => "hyf response was not valid UTF-8: "@ + m@,
            HyfClientError::InvalidJson(m) => "hyf response was not valid JSON: "@ + m@,
            HyfClientError::InvalidResponse(m) => m@,
            HyfClientError::RemoteError { .. } => "hyf request returned a remote error"@,
        }
    }

    /// The message text of this error.
    pub fn message(&self) -> (r: String)
        ensures
            r@ == self.message_view(),
    {
        match self {
            HyfClientError::NotFound => owned("hyf executable was not found"),
            HyfClientError::Start(m) => concat2("failed to start hyf request: ", m.as_str()),
            HyfClientError::Write(m) => concat2("failed to write hyf request stdin: ", m.as_str()),
            HyfClientError::Wait(m) => concat2("failed to wait on hyf request: ", m.as_str()),
            HyfClientError::Read(m) => concat2("failed to read hyf request output: ", m.as_str()),
            HyfClientError::Timeout(ms) => {
                let digits = decimal_string(*ms);
                concat3("hyf request timed out after ", digits.as_str(), "ms")
            },
            HyfClientError::NonZeroExit { .. } => owned("hyf request exited unsuccessfully"),
            HyfClientError::SerializeRequest(m) => concat2("failed to serialize hyf request: ", m.as_str()),
            HyfClientError::InvalidUtf8(m) => concat2("hyf response was not valid UTF-8: ", m.as_str()),
            HyfClientError::InvalidJson(m) => concat2("hyf response was not valid JSON: ", m.as_str()),
            HyfClientError::InvalidResponse(m) => m.clone(),
            HyfClientError::RemoteError { .. } => owned("hyf request returned a remote error"),
        }
    }
}

} // verus!
