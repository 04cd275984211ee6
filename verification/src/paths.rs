use vstd::prelude::*;

use crate::bindings::opt_str_view;
use crate::text::strings_view;

verus! {

/// The runtime's resolved roots and namespaces.
#[derive(Debug, Clone, PartialEq, Eq)]
pub struct PathsConfig {
    pub profile: String,
    pub profile_source: String,
    pub allowed_profiles: Vec<String>,
    pub root_source: String,
    pub repo_local_root: Option<String>,
    pub repo_local_root_source: Option<String>,
    pub subordinate_path_override_source: String,
    pub app_namespace: String,
    pub shared_accounts_namespace: String,
    pub shared_identities_namespace: String,
    pub app_config_path: String,
    pub workspace_config_path: String,
    pub app_data_root: String,
    pub app_logs_root: String,
    pub shared_accounts_data_root: String,
    pub shared_accounts_secrets_root: String,
    pub default_identity_path: String,
}

impl PathsConfig {
    /// Every field of `self` reads as the same text as in `other`.
    pub open spec fn same_as(self, other: PathsConfig) -> bool {
        &&& self.profile@ == other.profile@
        &&& self.profile_source@ == other.profile_source@
        &&& strings_view(self.allowed_profiles@) == strings_view(other.allowed_profiles@)
        &&& self.root_source@ == other.root_source@
        &&& opt_str_view(self.repo_local_root) == opt_str_view(other.repo_local_root)
        &&& opt_str_view(self.repo_local_root_source) == opt_str_view(other.repo_local_root_source)
        &&& self.subordinate_path_override_source@ == other.subordinate_path_override_source@
        &&& self.app_namespace@ == other.app_namespace@
        &&& self.shared_accounts_namespace@ == other.shared_accounts_namespace@
        &&& self.shared_identities_namespace@ == other.shared_identities_namespace@
        &&& self.app_config_path@ == other.app_config_path@
        &&& self.workspace_config_path@ == other.workspace_config_path@
        &&& self.app_data_root@ == other.app_data_root@
        &&& self.app_logs_root@ == other.app_logs_root@
        &&& self.shared_accounts_data_root@ == other.shared_accounts_data_root@
        &&& self.shared_accounts_secrets_root@ == other.shared_accounts_secrets_root@
        &&& self.default_identity_path@ == other.default_identity_path@
    }

    /// A copy of these paths.
    pub fn duplicate(&self) -> (r: PathsConfig)
        ensures
            r.same_as(*self),
    {
        let mut allowed_profiles: Vec<String> = Vec::new();
        for i in 0..self.allowed_profiles.len()
            invariant
                allowed_profiles@.len() == i,
                forall|j: int| 0 <= j < i ==> #[trigger] allowed_profiles@[j]@ == self.allowed_profiles@[j]@,
        {
            allowed_profiles.push(self.allowed_profiles[i].clone());
        }
        let repo_local_root = match &self.repo_local_root {
            Some(s) => Some(s.clone()),
            None => None,
        };
        let repo_local_root_source = match &self.repo_local_root_source {
            Some(s) => Some(s.clone()),
            None => None,
        };
        let r = PathsConfig {
            profile: self.profile.clone(),
            profile_source: self.profile_source.clone(),
            allowed_profiles,
            root_source: self.root_source.clone(),
            repo_local_root,
            repo_local_root_source,
            subordinate_path_override_source: self.subordinate_path_override_source.clone(),
            app_namespace: self.app_namespace.clone(),
            shared_accounts_namespace: self.shared_accounts_namespace.clone(),
            shared_identities_namespace: self.shared_identities_namespace.clone(),
            app_config_path: self.app_config_path.clone(),
            workspace_config_path: self.workspace_config_path.clone(),
            app_data_root: self.app_data_root.clone(),
            app_logs_root: self.app_logs_root.clone(),
            shared_accounts_data_root: self.shared_accounts_data_root.clone(),
            shared_accounts_secrets_root: self.shared_accounts_secrets_root.clone(),
            default_identity_path: self.default_identity_path.clone(),
        };
        assert(strings_view(r.allowed_profiles@) =~= strings_view(self.allowed_profiles@));
        r
    }
}

/// What `std::path::Path::join` gives for `base` and `rel` on this build's platform.
pub uninterp spec fn path_join(base: Seq<char>, rel: Seq<char>) -> Seq<char>;

/// What `std::path::Path::parent` gives for `p` on this build's platform.
pub uninterp spec fn path_parent(p: Seq<char>) -> Option<Seq<char>>;

/// `rel` joined onto `base` with `std::path::Path::join`, rendered with `to_string_lossy`.
#[verifier::external_body]
pub(crate) fn join_path(base: &str, rel: &str) -> (r: String)
    ensures
        r@ == path_join(base@, rel@),
{
    std::path::Path::new(base).join(rel).to_string_lossy().into_owned()
}

/// The parent of `p` with `std::path::Path::parent`, rendered with `to_string_lossy`.
#[verifier::external_body]
pub(crate) fn parent_path(p: &str) -> (r: Option<String>)
    ensures
        match path_parent(p@) {
            Some(q) => r is Some && r->0@ == q,
            None => r is None,
        },
{
    match std::path::Path::new(p).parent() {
        Some(q) => Some(q.to_string_lossy().into_owned()),
        None => None,
    }
}

} // verus!
