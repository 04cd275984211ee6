use vstd::prelude::*;

use crate::bindings::opt_str_view;
use crate::error::{RuntimeError, is_config_err};
use crate::paths::{PathsConfig, join_path, parent_path, path_join, path_parent};
use crate::text::{
    append_str, chars_of, concat2, concat3, decimal, decimal_string, owned, str_eq, trim, trim_string,
};

verus! {

/// Which farm config file a command reads and writes.
#[derive(Debug, Clone, Copy, PartialEq, Eq, Structural)]
pub enum FarmConfigScope {
    User,
    Workspace,
}

impl FarmConfigScope {
    pub open spec fn name(self) -> Seq<char> {
        match self {
            FarmConfigScope::User => "user"@,
            FarmConfigScope::Workspace => "workspace"@,
        }
    }

    /// The scope's name.
    pub fn as_str(self) -> (r: &'static str)
        ensures
            r@ == self.name(),
    {
        match self {
            FarmConfigScope::User => "user",
            FarmConfigScope::Workspace => "workspace",
        }
    }
}

/// A field a farm setup still lacks.
#[derive(Debug, Clone, Copy, PartialEq, Eq, Structural)]
pub enum FarmMissingField {
    Name,
    Location,
    Delivery,
    Country,
}

impl FarmMissingField {
    pub open spec fn label_view(self) -> Seq<char> {
        match self {
            FarmMissingField::Name => "Farm name"@,
            FarmMissingField::Location => "Location"@,
            FarmMissingField::Delivery => "Delivery method"@,
            FarmMissingField::Country => "Country"@,
        }
    }

    /// The field's label.
    pub fn label(self) -> (r: &'static str)
        ensures
            r@ == self.label_view(),
    {
        match self {
            FarmMissingField::Name => "Farm name",
            FarmMissingField::Location => "Location",
            FarmMissingField::Delivery => "Delivery method",
            FarmMissingField::Country => "Country",
        }
    }
}

/// The farm config version this runtime reads and writes.
pub const SUPPORTED_FARM_CONFIG_VERSION: u32 = 1;

/// Which account and farm a farm config selects.
#[derive(Debug, Clone, PartialEq, Eq)]
pub struct FarmConfigSelection {
    pub scope: FarmConfigScope,
    pub account: String,
    pub farm_d_tag: String,
}

/// The seller profile a farm config holds.
#[derive(Debug, Clone, PartialEq, Eq)]
pub struct FarmProfile {
    pub name: String,
    pub display_name: Option<String>,
    pub nip05: Option<String>,
    pub about: Option<String>,
    pub website: Option<String>,
    pub picture: Option<String>,
    pub banner: Option<String>,
    pub lud06: Option<String>,
    pub lud16: Option<String>,
    pub bot: Option<bool>,
}

/// Where a farm is.
#[derive(Debug, Clone, PartialEq, Eq)]
pub struct FarmLocation {
    pub primary: Option<String>,
    pub city: Option<String>,
    pub region: Option<String>,
    pub country: Option<String>,
}

/// The farm record a farm config holds.
#[derive(Debug, Clone, PartialEq, Eq)]
pub struct FarmRecord {
    pub d_tag: String,
    pub name: String,
    pub about: Option<String>,
    pub website: Option<String>,
    pub picture: Option<String>,
    pub banner: Option<String>,
    pub location: Option<FarmLocation>,
    pub tags: Option<Vec<String>>,
}

/// The location new listings default to.
#[derive(Debug, Clone, PartialEq, Eq)]
pub struct ListingLocation {
    pub primary: String,
    pub city: Option<String>,
    pub region: Option<String>,
    pub country: Option<String>,
    pub geohash: Option<String>,
}

/// How listings are delivered.
#[derive(Debug, Clone, PartialEq, Eq)]
pub enum ListingDeliveryMethod {
    Pickup,
    LocalDelivery,
    Shipping,
    Other { method: String },
}

/// The defaults new listings take.
#[derive(Debug, Clone, PartialEq, Eq)]
pub struct FarmListingDefaults {
    pub delivery_method: String,
    pub location: ListingLocation,
}

/// When the profile and farm were last published.
#[derive(Debug, Clone, Default, PartialEq, Eq)]
pub struct FarmPublicationStatus {
    pub profile_event_id: Option<String>,
    pub farm_event_id: Option<String>,
    pub profile_published_at: Option<u64>,
    pub farm_published_at: Option<u64>,
}

/// A farm config file.
#[derive(Debug, Clone, PartialEq, Eq)]
pub struct FarmConfigDocument {
    pub version: u32,
    pub selection: FarmConfigSelection,
    pub profile: FarmProfile,
    pub farm: FarmRecord,
    pub listing_defaults: FarmListingDefaults,
    pub publication: FarmPublicationStatus,
}

/// A farm config that was found, with its scope and path.
#[derive(Debug, Clone, PartialEq, Eq)]
pub struct ResolvedFarmConfig {
    pub scope: FarmConfigScope,
    pub path: String,
    pub document: FarmConfigDocument,
}

/// The scope a farm command uses: the requested one, else the one the path profile implies.
pub open spec fn scope_result(profile: Seq<char>, explicit: Option<FarmConfigScope>) -> Result<
    FarmConfigScope,
    Seq<char>,
> {
    match explicit {
        Some(s) => Ok(s),
        None => if profile == "repo_local"@ {
            Ok(FarmConfigScope::Workspace)
        } else if profile == "interactive_user"@ {
            Ok(FarmConfigScope::User)
        } else {
            Err("unsupported farm config path profile `"@ + profile + "`"@)
        },
    }
}

/// The scope a farm command uses: the requested one, else the one the path profile implies.
pub fn resolve_scope(paths: &PathsConfig, explicit_scope: Option<FarmConfigScope>) -> (r: Result<
    FarmConfigScope,
    RuntimeError,
>)
    ensures
        match scope_result(paths.profile@, explicit_scope) {
            Ok(s) => r == Ok::<FarmConfigScope, RuntimeError>(s),
            Err(m) => is_config_err(r, m),
        },
{
    if let Some(scope) = explicit_scope {
        return Ok(scope);
    }
    if str_eq(paths.profile.as_str(), "repo_local") {
        Ok(FarmConfigScope::Workspace)
    } else if str_eq(paths.profile.as_str(), "interactive_user") {
        Ok(FarmConfigScope::User)
    } else {
        Err(
            RuntimeError::Config(
                concat3("unsupported farm config path profile `", paths.profile.as_str(), "`"),
            ),
        )
    }
}

/// Where the user-scope farm config lives: beside the app config file.
pub open spec fn user_path_result(app_config_path: Seq<char>) -> Result<Seq<char>, Seq<char>> {
    match path_parent(app_config_path) {
        Some(p) => Ok(path_join(p, "farm.toml"@)),
        None => Err("app config path "@ + app_config_path + " has no parent directory"@),
    }
}

/// Where the workspace-scope farm config lives: under the workspace's cli app config directory.
pub open spec fn workspace_path_result(workspace_config_path: Seq<char>) -> Result<Seq<char>, Seq<char>> {
    match path_parent(workspace_config_path) {
        Some(p) => Ok(path_join(path_join(p, "config/apps/cli"@), "farm.toml"@)),
        None => Err("workspace config path "@ + workspace_config_path + " has no parent directory"@),
    }
}

/// The user-scope farm config path.
pub fn user_config_path(paths: &PathsConfig) -> (r: Result<String, RuntimeError>)
    ensures
        match user_path_result(paths.app_config_path@) {
            Ok(p) => r matches Ok(x) && x@ == p,
            Err(m) => is_config_err(r, m),
        },
{
    match parent_path(paths.app_config_path.as_str()) {
        Some(parent) => Ok(join_path(parent.as_str(), "farm.toml")),
        None => Err(
            RuntimeError::Config(
                concat3("app config path ", paths.app_config_path.as_str(), " has no parent directory"),
            ),
        ),
    }
}

/// The workspace-scope farm config path.
pub fn workspace_config_path(paths: &PathsConfig) -> (r: Result<String, RuntimeError>)
    ensures
        match workspace_path_result(paths.workspace_config_path@) {
            Ok(p) => r matches Ok(x) && x@ == p,
            Err(m) => is_config_err(r, m),
        },
{
    match parent_path(paths.workspace_config_path.as_str()) {
        Some(parent) => {
            let dir = join_path(parent.as_str(), "config/apps/cli");
            Ok(join_path(dir.as_str(), "farm.toml"))
        },
        None => Err(
            RuntimeError::Config(
                concat3(
                    "workspace config path ",
                    paths.workspace_config_path.as_str(),
                    " has no parent directory",
                ),
            ),
        ),
    }
}

/// The farm config path of `scope`.
pub fn config_path(paths: &PathsConfig, scope: FarmConfigScope) -> (r: Result<String, RuntimeError>)
    ensures
        match (match scope {
            FarmConfigScope::User => user_path_result(paths.app_config_path@),
            FarmConfigScope::Workspace => workspace_path_result(paths.workspace_config_path@),
        }) {
            Ok(p) => r matches Ok(x) && x@ == p,
            Err(m) => is_config_err(r, m),
        },
{
    match scope {
        FarmConfigScope::User => user_config_path(paths),
        FarmConfigScope::Workspace => workspace_config_path(paths),
    }
}

/// The path a farm command reads, for the scope it resolves.
pub open spec fn farm_path_result(paths: PathsConfig, explicit: Option<FarmConfigScope>) -> Result<
    (FarmConfigScope, Seq<char>),
    Seq<char>,
> {
    match scope_result(paths.profile@, explicit) {
        Err(m) => Err(m),
        Ok(scope) => match (match scope {
            FarmConfigScope::User => user_path_result(paths.app_config_path@),
            FarmConfigScope::Workspace => workspace_path_result(paths.workspace_config_path@),
        }) {
            Ok(p) => Ok((scope, p)),
            Err(m) => Err(m),
        },
    }
}

/// The scope and path a farm command reads.
pub fn resolve_farm_path(paths: &PathsConfig, explicit_scope: Option<FarmConfigScope>) -> (r: Result<
    (FarmConfigScope, String),
    RuntimeError,
>)
    ensures
        match farm_path_result(*paths, explicit_scope) {
            Ok((s, p)) => r matches Ok((rs, rp)) && rs == s && rp@ == p,
            Err(m) => is_config_err(r, m),
        },
{
    let scope = match resolve_scope(paths, explicit_scope) {
        Ok(s) => s,
        Err(e) => {
            return Err(e);
        },
    };
    match config_path(paths, scope) {
        Ok(p) => Ok((scope, p)),
        Err(e) => Err(e),
    }
}

/// The characters of the base64url alphabet.
pub open spec fn is_base64url_char(c: char) -> bool {
    ('A' <= c && c <= 'Z') || ('a' <= c && c <= 'z') || ('0' <= c && c <= '9') || c == '-' || c
        == '_'
}

/// A farm or listing identifier: 22 base64url characters.
pub open spec fn is_d_tag(s: Seq<char>) -> bool {
    s.len() == 22 && forall|i: int| 0 <= i < 22 ==> #[trigger] is_base64url_char(s[i])
}

/// Whether `s` is a 22-character base64url identifier.
pub fn is_d_tag_base64url(s: &str) -> (r: bool)
    ensures
        r == is_d_tag(s@),
{
    let cs = chars_of(s);
    if cs.len() != 22 {
        return false;
    }
    let mut i: usize = 0;
    while i < 22
        invariant
            cs@ == s@,
            cs@.len() == 22,
            i <= 22,
            forall|j: int| 0 <= j < i ==> #[trigger] is_base64url_char(cs@[j]),
        decreases 22 - i,
    {
        let c = cs[i];
        if !(('A' <= c && c <= 'Z') || ('a' <= c && c <= 'z') || ('0' <= c && c <= '9') || c == '-'
            || c == '_') {
            proof {
                assert(!is_base64url_char(s@[i as int]));
            }
            return false;
        }
        i += 1;
    }
    true
}

/// Whether `r` is the delivery method the text `v` names once trimmed: blank text is refused,
/// the three known names stand for their methods, any other text for itself.
pub open spec fn delivery_holds(r: Result<ListingDeliveryMethod, RuntimeError>, v: Seq<char>) -> bool {
    let m = trim(v);
    if m.len() == 0 {
        is_config_err(r, "farm config listing_defaults.delivery_method must not be empty"@)
    } else if m == "pickup"@ {
        r == Ok::<ListingDeliveryMethod, RuntimeError>(ListingDeliveryMethod::Pickup)
    } else if m == "local_delivery"@ {
        r == Ok::<ListingDeliveryMethod, RuntimeError>(ListingDeliveryMethod::LocalDelivery)
    } else if m == "shipping"@ {
        r == Ok::<ListingDeliveryMethod, RuntimeError>(ListingDeliveryMethod::Shipping)
    } else {
        r matches Ok(ListingDeliveryMethod::Other { method }) && method@ == m
    }
}

/// Parses a delivery method.
pub fn parse_delivery_method(value: &str) -> (r: Result<ListingDeliveryMethod, RuntimeError>)
    ensures
        delivery_holds(r, value@),
{
    let method = trim_string(value);
    if method.as_str().is_empty() {
        return Err(
            RuntimeError::Config(owned("farm config listing_defaults.delivery_method must not be empty")),
        );
    }
    if str_eq(method.as_str(), "pickup") {
        Ok(ListingDeliveryMethod::Pickup)
    } else if str_eq(method.as_str(), "local_delivery") {
        Ok(ListingDeliveryMethod::LocalDelivery)
    } else if str_eq(method.as_str(), "shipping") {
        Ok(ListingDeliveryMethod::Shipping)
    } else {
        Ok(ListingDeliveryMethod::Other { method })
    }
}

impl FarmListingDefaults {
    /// The delivery method these defaults name.
    pub fn delivery_method_model(&self) -> (r: Result<ListingDeliveryMethod, RuntimeError>)
        ensures
            delivery_holds(r, self.delivery_method@),
    {
        parse_delivery_method(self.delivery_method.as_str())
    }
}

/// The first problem with a farm config read for `scope`, in the order they are checked.
pub open spec fn document_error(d: FarmConfigDocument, scope: FarmConfigScope) -> Option<Seq<char>> {
    let sel = trim(d.selection.farm_d_tag@);
    let tag = trim(d.farm.d_tag@);
    if d.version != 1 {
        Some("farm config version must be 1, got "@ + decimal(d.version as nat))
    } else if d.selection.scope != scope {
        Some(
            "farm config scope `"@ + d.selection.scope.name() + "` does not match resolved `"@
                + scope.name() + "` scope"@,
        )
    } else if trim(d.selection.account@).len() == 0 {
        Some("farm config selection.account must not be empty"@)
    } else if sel.len() == 0 {
        Some("farm config selection.farm_d_tag must not be empty"@)
    } else if !is_d_tag(sel) {
        Some("farm config selection.farm_d_tag must be a 22-character base64url identifier"@)
    } else if tag.len() == 0 {
        Some("farm config farm.d_tag must not be empty"@)
    } else if !is_d_tag(tag) {
        Some("farm config farm.d_tag must be a 22-character base64url identifier"@)
    } else if sel != tag {
        Some("farm config selection.farm_d_tag must match farm.d_tag"@)
    } else {
        None
    }
}

/// Checks a farm config read for `resolved_scope`.
pub fn validate(document: &FarmConfigDocument, resolved_scope: FarmConfigScope) -> (r: Result<
    (),
    RuntimeError,
>)
    ensures
        match document_error(*document, resolved_scope) {
            Some(m) => is_config_err(r, m),
            None => r is Ok,
        },
{
    if document.version != 1 {
        let digits = decimal_string(document.version as u128);
        return Err(RuntimeError::Config(concat2("farm config version must be 1, got ", digits.as_str())));
    }
    if document.selection.scope != resolved_scope {
        let mut m = concat3(
            "farm config scope `",
            document.selection.scope.as_str(),
            "` does not match resolved `",
        );
        append_str(&mut m, resolved_scope.as_str());
        append_str(&mut m, "` scope");
        return Err(RuntimeError::Config(m));
    }
    let account = trim_string(document.selection.account.as_str());
    if account.as_str().is_empty() {
        return Err(RuntimeError::Config(owned("farm config selection.account must not be empty")));
    }
    let sel = trim_string(document.selection.farm_d_tag.as_str());
    if sel.as_str().is_empty() {
        return Err(RuntimeError::Config(owned("farm config selection.farm_d_tag must not be empty")));
    }
    if !is_d_tag_base64url(sel.as_str()) {
        return Err(
            RuntimeError::Config(
                owned("farm config selection.farm_d_tag must be a 22-character base64url identifier"),
            ),
        );
    }
    let tag = trim_string(document.farm.d_tag.as_str());
    if tag.as_str().is_empty() {
        return Err(RuntimeError::Config(owned("farm config farm.d_tag must not be empty")));
    }
    if !is_d_tag_base64url(tag.as_str()) {
        return Err(
            RuntimeError::Config(owned("farm config farm.d_tag must be a 22-character base64url identifier")),
        );
    }
    if !str_eq(sel.as_str(), tag.as_str()) {
        return Err(RuntimeError::Config(owned("farm config selection.farm_d_tag must match farm.d_tag")));
    }
    Ok(())
}

/// `v` trimmed when that is not empty.
pub open spec fn non_blank(v: Seq<char>) -> Option<Seq<char>> {
    if trim(v).len() == 0 {
        None
    } else {
        Some(trim(v))
    }
}

/// `o`'s text trimmed when present and not blank.
pub open spec fn opt_non_blank(o: Option<Seq<char>>) -> Option<Seq<char>> {
    match o {
        Some(v) => non_blank(v),
        None => None,
    }
}

/// The farm's name: the profile's, else the farm record's.
pub open spec fn farm_name_of(d: FarmConfigDocument) -> Option<Seq<char>> {
    match non_blank(d.profile.name@) {
        Some(n) => Some(n),
        None => non_blank(d.farm.name@),
    }
}

/// The farm's primary location: the listing default's, else the farm record's.
pub open spec fn location_primary_of(d: FarmConfigDocument) -> Option<Seq<char>> {
    match non_blank(d.listing_defaults.location.primary@) {
        Some(p) => Some(p),
        None => match d.farm.location {
            Some(l) => opt_non_blank(opt_str_view(l.primary)),
            None => None,
        },
    }
}

/// The farm's country: the listing default's, else the farm record's.
pub open spec fn location_country_of(d: FarmConfigDocument) -> Option<Seq<char>> {
    match opt_non_blank(opt_str_view(d.listing_defaults.location.country)) {
        Some(c) => Some(c),
        None => match d.farm.location {
            Some(l) => opt_non_blank(opt_str_view(l.country)),
            None => None,
        },
    }
}

/// The fields a farm setup still lacks, in the order they are asked for.
pub open spec fn missing_fields_of(d: FarmConfigDocument) -> Seq<FarmMissingField> {
    let located = location_primary_of(d) is Some;
    (if farm_name_of(d) is None { seq![FarmMissingField::Name] } else { seq![] }) + (if !located {
        seq![FarmMissingField::Location]
    } else {
        seq![]
    }) + (if trim(d.listing_defaults.delivery_method@).len() == 0 {
        seq![FarmMissingField::Delivery]
    } else {
        seq![]
    }) + (if located && location_country_of(d) is None {
        seq![FarmMissingField::Country]
    } else {
        seq![]
    })
}

pub(crate) fn non_blank_str(v: &str) -> (r: Option<String>)
    ensures
        opt_str_view(r) == non_blank(v@),
{
    let t = trim_string(v);
    if t.as_str().is_empty() {
        None
    } else {
        Some(t)
    }
}

pub(crate) fn opt_non_blank_str(o: &Option<String>) -> (r: Option<String>)
    ensures
        opt_str_view(r) == opt_non_blank(opt_str_view(*o)),
{
    match o {
        Some(v) => non_blank_str(v.as_str()),
        None => None,
    }
}

/// The farm's name: the profile's, else the farm record's.
pub fn farm_name(document: &FarmConfigDocument) -> (r: Option<String>)
    ensures
        opt_str_view(r) == farm_name_of(*document),
{
    match non_blank_str(document.profile.name.as_str()) {
        Some(n) => Some(n),
        None => non_blank_str(document.farm.name.as_str()),
    }
}

/// The farm's primary location: the listing default's, else the farm record's.
pub fn location_primary(document: &FarmConfigDocument) -> (r: Option<String>)
    ensures
        opt_str_view(r) == location_primary_of(*document),
{
    match non_blank_str(document.listing_defaults.location.primary.as_str()) {
        Some(p) => Some(p),
        None => match &document.farm.location {
            Some(l) => opt_non_blank_str(&l.primary),
            None => None,
        },
    }
}

/// The farm's country: the listing default's, else the farm record's.
pub fn location_country(document: &FarmConfigDocument) -> (r: Option<String>)
    ensures
        opt_str_view(r) == location_country_of(*document),
{
    match opt_non_blank_str(&document.listing_defaults.location.country) {
        Some(c) => Some(c),
        None => match &document.farm.location {
            Some(l) => opt_non_blank_str(&l.country),
            None => None,
        },
    }
}

/// The fields a farm setup still lacks, in the order they are asked for.
pub fn missing_fields(document: &FarmConfigDocument) -> (r: Vec<FarmMissingField>)
    ensures
        r@ == missing_fields_of(*document),
{
    let mut missing: Vec<FarmMissingField> = Vec::new();
    let named = farm_name(document).is_some();
    if !named {
        missing.push(FarmMissingField::Name);
    }
    let located = location_primary(document).is_some();
    if !located {
        missing.push(FarmMissingField::Location);
    }
    let delivery = trim_string(document.listing_defaults.delivery_method.as_str());
    if delivery.as_str().is_empty() {
        missing.push(FarmMissingField::Delivery);
    }
    if located && location_country(document).is_none() {
        missing.push(FarmMissingField::Country);
    }
    proof {
        let d = *document;
        let a: Seq<FarmMissingField> = if farm_name_of(d) is None { seq![FarmMissingField::Name] } else { seq![] };
        let b: Seq<FarmMissingField> = if !located { seq![FarmMissingField::Location] } else { seq![] };
        let c: Seq<FarmMissingField> = if trim(d.listing_defaults.delivery_method@).len() == 0 {
            seq![FarmMissingField::Delivery]
        } else {
            seq![]
        };
        let e: Seq<FarmMissingField> = if located && location_country_of(d) is None {
            seq![FarmMissingField::Country]
        } else {
            seq![]
        };
        assert(missing@ =~= a + b + c + e);
    }
    missing
}

/// The plain values of a farm profile.
pub struct ProfileView {
    pub name: Seq<char>,
    pub display_name: Option<Seq<char>>,
    pub nip05: Option<Seq<char>>,
    pub about: Option<Seq<char>>,
    pub website: Option<Seq<char>>,
    pub picture: Option<Seq<char>>,
    pub banner: Option<Seq<char>>,
    pub lud06: Option<Seq<char>>,
    pub lud16: Option<Seq<char>>,
    pub bot: Option<bool>,
}

/// The plain values of a farm location.
pub struct LocationView {
    pub primary: Option<Seq<char>>,
    pub city: Option<Seq<char>>,
    pub region: Option<Seq<char>>,
    pub country: Option<Seq<char>>,
}

/// The plain values of a farm record.
pub struct FarmView {
    pub d_tag: Seq<char>,
    pub name: Seq<char>,
    pub about: Option<Seq<char>>,
    pub website: Option<Seq<char>>,
    pub picture: Option<Seq<char>>,
    pub banner: Option<Seq<char>>,
    pub location: Option<LocationView>,
    pub tags: Option<Seq<Seq<char>>>,
}

/// The plain values of listing defaults.
pub struct DefaultsView {
    pub delivery_method: Seq<char>,
    pub primary: Seq<char>,
    pub city: Option<Seq<char>>,
    pub region: Option<Seq<char>>,
    pub country: Option<Seq<char>>,
    pub geohash: Option<Seq<char>>,
}

/// The plain values of a farm config file.
pub struct DocumentView {
    pub version: u32,
    pub scope: FarmConfigScope,
    pub account: Seq<char>,
    pub farm_d_tag: Seq<char>,
    pub profile: ProfileView,
    pub farm: FarmView,
    pub defaults: DefaultsView,
    pub profile_event_id: Option<Seq<char>>,
    pub farm_event_id: Option<Seq<char>>,
    pub profile_published_at: Option<u64>,
    pub farm_published_at: Option<u64>,
}

impl FarmLocation {
    pub open spec fn view_of(self) -> LocationView {
        LocationView {
            primary: opt_str_view(self.primary),
            city: opt_str_view(self.city),
            region: opt_str_view(self.region),
            country: opt_str_view(self.country),
        }
    }
}

impl FarmConfigDocument {
    pub open spec fn view_of(self) -> DocumentView {
        DocumentView {
            version: self.version,
            scope: self.selection.scope,
            account: self.selection.account@,
            farm_d_tag: self.selection.farm_d_tag@,
            profile: ProfileView {
                name: self.profile.name@,
                display_name: opt_str_view(self.profile.display_name),
                nip05: opt_str_view(self.profile.nip05),
                about: opt_str_view(self.profile.about),
                website: opt_str_view(self.profile.website),
                picture: opt_str_view(self.profile.picture),
                banner: opt_str_view(self.profile.banner),
                lud06: opt_str_view(self.profile.lud06),
                lud16: opt_str_view(self.profile.lud16),
                bot: self.profile.bot,
            },
            farm: FarmView {
                d_tag: self.farm.d_tag@,
                name: self.farm.name@,
                about: opt_str_view(self.farm.about),
                website: opt_str_view(self.farm.website),
                picture: opt_str_view(self.farm.picture),
                banner: opt_str_view(self.farm.banner),
                location: match self.farm.location {
                    Some(l) => Some(l.view_of()),
                    None => None,
                },
                tags: match self.farm.tags {
                    Some(t) => Some(crate::text::strings_view(t@)),
                    None => None,
                },
            },
            defaults: DefaultsView {
                delivery_method: self.listing_defaults.delivery_method@,
                primary: self.listing_defaults.location.primary@,
                city: opt_str_view(self.listing_defaults.location.city),
                region: opt_str_view(self.listing_defaults.location.region),
                country: opt_str_view(self.listing_defaults.location.country),
                geohash: opt_str_view(self.listing_defaults.location.geohash),
            },
            profile_event_id: opt_str_view(self.publication.profile_event_id),
            farm_event_id: opt_str_view(self.publication.farm_event_id),
            profile_published_at: self.publication.profile_published_at,
            farm_published_at: self.publication.farm_published_at,
        }
    }
}

} // verus!
