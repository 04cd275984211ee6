use vstd::prelude::*;

use crate::config::{
    CapabilityBindingSource, CapabilityBindingTargetKind, parse_capability_binding_target_kind,
};
use crate::error::RuntimeError;
use crate::text::{append_str, concat2, lower, owned, str_eq, trim, trim_string};

verus! {

/// The view of an optional string.
pub open spec fn opt_str_view(o: Option<String>) -> Option<Seq<char>> {
    match o {
        Some(s) => Some(s@),
        None => None,
    }
}

/// A capability binding as one config file writes it.
#[derive(Debug, Clone)]
pub struct CapabilityBindingFileConfig {
    pub capability: String,
    pub provider: String,
    pub target_kind: String,
    pub target: String,
    pub managed_account_ref: Option<String>,
    pub signer_session_ref: Option<String>,
}

/// A resolved capability binding.
#[derive(Debug, Clone, PartialEq, Eq)]
pub struct CapabilityBindingConfig {
    pub capability_id: String,
    pub provider_runtime_id: String,
    pub binding_model: String,
    pub target_kind: CapabilityBindingTargetKind,
    pub target: String,
    pub managed_account_ref: Option<String>,
    pub signer_session_ref: Option<String>,
    pub source: CapabilityBindingSource,
}

/// The plain values of a resolved capability binding.
pub struct BindingView {
    pub capability_id: Seq<char>,
    pub provider_runtime_id: Seq<char>,
    pub binding_model: Seq<char>,
    pub target_kind: CapabilityBindingTargetKind,
    pub target: Seq<char>,
    pub managed_account_ref: Option<Seq<char>>,
    pub signer_session_ref: Option<Seq<char>>,
    pub source: CapabilityBindingSource,
}

impl CapabilityBindingConfig {
    pub open spec fn view_of(self) -> BindingView {
        BindingView {
            capability_id: self.capability_id@,
            provider_runtime_id: self.provider_runtime_id@,
            binding_model: self.binding_model@,
            target_kind: self.target_kind,
            target: self.target@,
            managed_account_ref: opt_str_view(self.managed_account_ref),
            signer_session_ref: opt_str_view(self.signer_session_ref),
            source: self.source,
        }
    }
}

/// The views of a list of resolved bindings.
pub open spec fn bindings_view(v: Seq<CapabilityBindingConfig>) -> Seq<BindingView> {
    v.map_values(|b: CapabilityBindingConfig| b.view_of())
}

/// The capabilities the runtime knows, in the order they are reported.
pub open spec fn known_capabilities() -> Seq<Seq<char>> {
    seq![
        "signer.remote_nip46"@,
        "write_plane.trade_jsonrpc"@,
        "workflow.trade"@,
        "inference.hyf_stdio"@,
    ]
}

/// The provider and binding model a known capability requires.
pub open spec fn binding_spec(id: Seq<char>) -> Option<(Seq<char>, Seq<char>)> {
    if id == "signer.remote_nip46"@ {
        Some(("myc"@, "session_authorized_remote_signer"@))
    } else if id == "write_plane.trade_jsonrpc"@ {
        Some(("radrootsd"@, "daemon_backed_jsonrpc"@))
    } else if id == "workflow.trade"@ {
        Some(("rhi"@, "out_of_process_worker"@))
    } else if id == "inference.hyf_stdio"@ {
        Some(("hyf"@, "stdio_service"@))
    } else {
        None
    }
}

/// The provider and binding model a known capability requires.
#[derive(Debug, Clone, Copy)]
pub struct CapabilityBindingSpec {
    pub capability_id: &'static str,
    pub provider_runtime_id: &'static str,
    pub binding_model: &'static str,
}

/// The requirements of capability `capability_id`, if it is known.
pub fn capability_binding_spec(capability_id: &str) -> (r: Option<CapabilityBindingSpec>)
    ensures
        match binding_spec(capability_id@) {
            Some(p) => r is Some && r->0.capability_id@ == capability_id@ && r->0.provider_runtime_id@
                == p.0 && r->0.binding_model@ == p.1,
            None => r is None,
        },
{
    if str_eq(capability_id, "signer.remote_nip46") {
        Some(CapabilityBindingSpec {
            capability_id: "signer.remote_nip46",
            provider_runtime_id: "myc",
            binding_model: "session_authorized_remote_signer",
        })
    } else if str_eq(capability_id, "write_plane.trade_jsonrpc") {
        Some(CapabilityBindingSpec {
            capability_id: "write_plane.trade_jsonrpc",
            provider_runtime_id: "radrootsd",
            binding_model: "daemon_backed_jsonrpc",
        })
    } else if str_eq(capability_id, "workflow.trade") {
        Some(CapabilityBindingSpec {
            capability_id: "workflow.trade",
            provider_runtime_id: "rhi",
            binding_model: "out_of_process_worker",
        })
    } else if str_eq(capability_id, "inference.hyf_stdio") {
        Some(CapabilityBindingSpec {
            capability_id: "inference.hyf_stdio",
            provider_runtime_id: "hyf",
            binding_model: "stdio_service",
        })
    } else {
        None
    }
}

/// An optional reference trimmed, with a blank one dropped.
pub open spec fn opt_trimmed_ref(o: Option<Seq<char>>) -> Option<Seq<char>> {
    match o {
        Some(s) => if trim(s).len() == 0 {
            None
        } else {
            Some(trim(s))
        },
        None => None,
    }
}

/// Trims an optional reference, dropping a blank one.
pub fn normalize_binding_ref(value: &Option<String>) -> (r: Option<String>)
    ensures
        opt_str_view(r) == opt_trimmed_ref(opt_str_view(*value)),
{
    match value {
        Some(s) => {
            let t = trim_string(s.as_str());
            if t.as_str().is_empty() {
                None
            } else {
                Some(t)
            }
        },
        None => None,
    }
}

/// The plain values of a binding as a config file writes it.
pub struct FileBindingView {
    pub capability: Seq<char>,
    pub provider: Seq<char>,
    pub target_kind: Seq<char>,
    pub target: Seq<char>,
    pub managed_account_ref: Option<Seq<char>>,
    pub signer_session_ref: Option<Seq<char>>,
}

impl CapabilityBindingFileConfig {
    pub open spec fn view_of(self) -> FileBindingView {
        FileBindingView {
            capability: self.capability@,
            provider: self.provider@,
            target_kind: self.target_kind@,
            target: self.target@,
            managed_account_ref: opt_str_view(self.managed_account_ref),
            signer_session_ref: opt_str_view(self.signer_session_ref),
        }
    }
}

/// The views of a list of file bindings.
pub open spec fn file_bindings_view(v: Seq<CapabilityBindingFileConfig>) -> Seq<FileBindingView> {
    v.map_values(|b: CapabilityBindingFileConfig| b.view_of())
}

/// The target kind a file binding names, or the message refusing it.
pub open spec fn target_kind_result(value: Seq<char>, capability_id: Seq<char>) -> Result<
    CapabilityBindingTargetKind,
    Seq<char>,
> {
    let v = lower(trim(value));
    if v == "managed_instance"@ {
        Ok(CapabilityBindingTargetKind::ManagedInstance)
    } else if v == "explicit_endpoint"@ {
        Ok(CapabilityBindingTargetKind::ExplicitEndpoint)
    } else {
        Err(
            "capability_binding `"@ + capability_id
                + "` target_kind must be `managed_instance` or `explicit_endpoint`, got `"@ + v
                + "`"@,
        )
    }
}

/// How one file binding resolves, given the capabilities already bound in the same file.
pub open spec fn resolve_one_binding(
    b: FileBindingView,
    source: CapabilityBindingSource,
    seen: Seq<Seq<char>>,
) -> Result<BindingView, Seq<char>> {
    let capability = trim(b.capability);
    let provider = trim(b.provider);
    match binding_spec(capability) {
        None => Err("unknown capability_binding capability `"@ + capability + "`"@),
        Some(spec) => if provider != spec.0 {
            Err(
                "capability_binding `"@ + capability + "` must use provider `"@ + spec.0
                    + "`, got `"@ + provider + "`"@,
            )
        } else if seen.contains(capability) {
            Err("capability_binding `"@ + capability + "` is duplicated in one config file"@)
        } else if trim(b.target).len() == 0 {
            Err("capability_binding `"@ + capability + "` target must not be empty"@)
        } else {
            let account_ref = opt_trimmed_ref(b.managed_account_ref);
            let session_ref = opt_trimmed_ref(b.signer_session_ref);
            if capability != "signer.remote_nip46"@ && (account_ref is Some || session_ref is Some) {
                Err(
                    "capability_binding `"@ + capability
                        + "` may not set managed_account_ref or signer_session_ref"@,
                )
            } else {
                match target_kind_result(b.target_kind, capability) {
                    Err(m) => Err(m),
                    Ok(kind) => Ok(
                        BindingView {
                            capability_id: capability,
                            provider_runtime_id: spec.0,
                            binding_model: spec.1,
                            target_kind: kind,
                            target: trim(b.target),
                            managed_account_ref: account_ref,
                            signer_session_ref: session_ref,
                            source,
                        },
                    ),
                }
            }
        },
    }
}

/// The bindings of one config file from index `i` on, or the message for the first bad one.
pub open spec fn resolve_file_bindings_from(
    bs: Seq<FileBindingView>,
    source: CapabilityBindingSource,
    i: nat,
    seen: Seq<Seq<char>>,
) -> Result<Seq<BindingView>, Seq<char>>
    decreases bs.len() - i,
{
    if i >= bs.len() {
        Ok(seq![])
    } else {
        match resolve_one_binding(bs[i as int], source, seen) {
            Err(m) => Err(m),
            Ok(b) => match resolve_file_bindings_from(bs, source, i + 1, seen.push(b.capability_id)) {
                Ok(rest) => Ok(seq![b] + rest),
                Err(m) => Err(m),
            },
        }
    }
}

/// The view of a result holding resolved bindings.
pub open spec fn bindings_result_view(r: Result<Vec<CapabilityBindingConfig>, RuntimeError>) -> Result<
    Seq<BindingView>,
    Seq<char>,
> {
    match r {
        Ok(v) => Ok(bindings_view(v@)),
        Err(e) => Err(e.message_view()),
    }
}

fn contains_str(v: &Vec<String>, s: &str) -> (r: bool)
    ensures
        r == v@.map_values(|x: String| x@).contains(s@),
{
    let ghost sv = v@.map_values(|x: String| x@);
    let mut i: usize = 0;
    while i < v.len()
        invariant
            sv == v@.map_values(|x: String| x@),
            i <= v@.len(),
            forall|k: int| 0 <= k < i ==> v@[k]@ != s@,
        decreases v@.len() - i,
    {
        if str_eq(v[i].as_str(), s) {
            proof {
                assert(sv[i as int] == s@);
            }
            return true;
        }
        i += 1;
    }
    proof {
        if sv.contains(s@) {
            let k = choose|k: int| 0 <= k < sv.len() && sv[k] == s@;
            assert(v@[k]@ == s@);
        }
    }
    false
}

/// Resolves the capability bindings one config file declares.
pub fn resolve_file_capability_bindings(
    bindings: Option<&Vec<CapabilityBindingFileConfig>>,
    source: CapabilityBindingSource,
) -> (r: Result<Vec<CapabilityBindingConfig>, RuntimeError>)
    ensures
        r matches Err(e) ==> e is Config,
        match bindings {
            None => r matches Ok(v) && v@.len() == 0,
            Some(bs) => bindings_result_view(r) == resolve_file_bindings_from(
                file_bindings_view(bs@),
                source,
                0,
                seq![],
            ),
        },
{
    let Some(list) = bindings else {
        return Ok(Vec::new());
    };
    let ghost bs = file_bindings_view(list@);
    let mut seen: Vec<String> = Vec::new();
    let mut resolved: Vec<CapabilityBindingConfig> = Vec::new();
    let mut i: usize = 0;
    proof {
        assert(seen@.map_values(|x: String| x@) =~= Seq::<Seq<char>>::empty());
        assert(bindings_view(resolved@) =~= Seq::<BindingView>::empty());
        match resolve_file_bindings_from(bs, source, 0, seq![]) {
            Ok(rest) => { assert(Seq::<BindingView>::empty() + rest =~= rest); },
            Err(m) => {},
        }
    }
    while i < list.len()
        invariant
            bs == file_bindings_view(list@),
            bindings == Some(list),
            i <= list@.len(),
            match resolve_file_bindings_from(bs, source, 0, seq![]) {
                Ok(all) => resolve_file_bindings_from(
                    bs,
                    source,
                    i as nat,
                    seen@.map_values(|x: String| x@),
                ) is Ok && all == bindings_view(resolved@) + resolve_file_bindings_from(
                    bs,
                    source,
                    i as nat,
                    seen@.map_values(|x: String| x@),
                )->Ok_0,
                Err(m) => resolve_file_bindings_from(
                    bs,
                    source,
                    i as nat,
                    seen@.map_values(|x: String| x@),
                ) == Err::<Seq<BindingView>, Seq<char>>(m),
            },
        decreases list@.len() - i,
    {
        let binding = &list[i];
        assert(bs[i as int] == binding.view_of());
        let ghost seen_v = seen@.map_values(|x: String| x@);
        let capability = trim_string(binding.capability.as_str());
        let provider = trim_string(binding.provider.as_str());
        let Some(spec) = capability_binding_spec(capability.as_str()) else {
            let mut m = concat2("unknown capability_binding capability `", capability.as_str());
            append_str(&mut m, "`");
            return Err(RuntimeError::Config(m));
        };
        if !str_eq(provider.as_str(), spec.provider_runtime_id) {
            let mut m = concat2("capability_binding `", capability.as_str());
            append_str(&mut m, "` must use provider `");
            append_str(&mut m, spec.provider_runtime_id);
            append_str(&mut m, "`, got `");
            append_str(&mut m, provider.as_str());
            append_str(&mut m, "`");
            proof {
                assert(resolve_one_binding(bs[i as int], source, seen_v) == Err::<BindingView, Seq<char>>(m@));
            }
            return Err(RuntimeError::Config(m));
        }
        if contains_str(&seen, capability.as_str()) {
            let mut m = concat2("capability_binding `", capability.as_str());
            append_str(&mut m, "` is duplicated in one config file");
            proof {
                assert(resolve_one_binding(bs[i as int], source, seen_v) == Err::<BindingView, Seq<char>>(m@));
            }
            return Err(RuntimeError::Config(m));
        }
        let target = trim_string(binding.target.as_str());
        if target.as_str().is_empty() {
            let mut m = concat2("capability_binding `", capability.as_str());
            append_str(&mut m, "` target must not be empty");
            return Err(RuntimeError::Config(m));
        }
        let managed_account_ref = normalize_binding_ref(&binding.managed_account_ref);
        let signer_session_ref = normalize_binding_ref(&binding.signer_session_ref);
        if !str_eq(capability.as_str(), "signer.remote_nip46") && (managed_account_ref.is_some()
            || signer_session_ref.is_some()) {
            let mut m = concat2("capability_binding `", capability.as_str());
            append_str(&mut m, "` may not set managed_account_ref or signer_session_ref");
            return Err(RuntimeError::Config(m));
        }
        let target_kind = match parse_capability_binding_target_kind(
            binding.target_kind.as_str(),
            capability.as_str(),
        ) {
            Ok(k) => k,
            Err(e) => {
                return Err(e);
            },
        };
        let resolved_binding = CapabilityBindingConfig {
            capability_id: owned(spec.capability_id),
            provider_runtime_id: owned(spec.provider_runtime_id),
            binding_model: owned(spec.binding_model),
            target_kind,
            target,
            managed_account_ref,
            signer_session_ref,
            source,
        };
        let ghost bv = resolved_binding.view_of();
        assert(resolve_one_binding(bs[i as int], source, seen_v) == Ok::<BindingView, Seq<char>>(bv));
        let ghost before = bindings_view(resolved@);
        resolved.push(resolved_binding);
        seen.push(capability);
        proof {
            assert(bindings_view(resolved@) =~= before.push(bv));
            assert(seen@.map_values(|x: String| x@) =~= seen_v.push(bv.capability_id));
            match resolve_file_bindings_from(bs, source, 0, seq![]) {
                Ok(all) => {
                    let rest = resolve_file_bindings_from(bs, source, (i + 1) as nat, seen_v.push(bv.capability_id))->Ok_0;
                    assert(before + (seq![bv] + rest) =~= before.push(bv) + rest);
                },
                Err(m) => {},
            }
        }
        i += 1;
    }
    proof {
        match resolve_file_bindings_from(bs, source, 0, seq![]) {
            Ok(all) => { assert(all =~= bindings_view(resolved@)); },
            Err(m) => {},
        }
    }
    Ok(resolved)
}

} // verus!
