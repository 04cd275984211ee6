use radroots_cli::accounts::AccountRuntimeFailure;
use radroots_cli::error::RuntimeError;
use radroots_cli::farm::{
    FarmField, apply_field_update, capitalize_ascii_word, component_idempotency_key,
    derive_component_idempotency_key, display_delivery_method, encode_base64url_no_pad, generate_d_tag,
    is_uuid_v7_idempotency_key, missing_blocks_listing_defaults, missing_field_actions, missing_field_labels,
    publish_state, required_d_tag, terminal_field_name, terminal_field_value,
};
use radroots_cli::farm_config::{
    FarmConfigDocument, FarmConfigScope, FarmConfigSelection, FarmListingDefaults, FarmLocation,
    FarmMissingField, FarmProfile, FarmPublicationStatus, FarmRecord, ListingDeliveryMethod, ListingLocation,
    ResolvedFarmConfig, SUPPORTED_FARM_CONFIG_VERSION, is_d_tag_base64url, missing_fields, parse_delivery_method,
    resolve_scope, validate,
};
use radroots_cli::farm_init::{FarmCreateArgs, SellerAccount, init_document};
use radroots_cli::farm_views::{
    FarmSellerAccount, FarmSetupView, SelectedSeller, farm_get_view, farm_rebind, farm_set, farm_setup_actions,
    farm_status_view,
    missing_selected_account_setup_view, publish_readiness,
};
use radroots_cli::config::Verbosity;
use radroots_cli::human::render_human_with_config;
use radroots_cli::output::{CommandOutput, CommandView};
use radroots_cli::paths::PathsConfig;

fn sample_paths(profile: &str) -> PathsConfig {
    let root = "/tmp/farm-test";
    PathsConfig {
        profile: profile.to_owned(),
        profile_source: "test".to_owned(),
        allowed_profiles: vec!["interactive_user".to_owned(), "repo_local".to_owned()],
        root_source: "test".to_owned(),
        repo_local_root: Some(format!("{root}/infra/local/runtime/radroots")),
        repo_local_root_source: Some("test".to_owned()),
        subordinate_path_override_source: "test".to_owned(),
        app_namespace: "apps/cli".to_owned(),
        shared_accounts_namespace: "shared/accounts".to_owned(),
        shared_identities_namespace: "shared/identities".to_owned(),
        app_config_path: format!("{root}/home/.radroots/config/apps/cli/config.toml"),
        workspace_config_path: format!("{root}/workspace/infra/local/runtime/radroots/config.toml"),
        app_data_root: format!("{root}/home/.radroots/data/apps/cli"),
        app_logs_root: format!("{root}/home/.radroots/logs/apps/cli"),
        shared_accounts_data_root: format!("{root}/home/.radroots/data/shared/accounts"),
        shared_accounts_secrets_root: format!("{root}/home/.radroots/secrets/shared/accounts"),
        default_identity_path: format!("{root}/home/.radroots/secrets/shared/identities/default.json"),
    }
}

fn sample_document(scope: FarmConfigScope) -> FarmConfigDocument {
    FarmConfigDocument {
        version: SUPPORTED_FARM_CONFIG_VERSION,
        selection: FarmConfigSelection {
            scope,
            account: "seller".to_owned(),
            farm_d_tag: "AAAAAAAAAAAAAAAAAAAAAA".to_owned(),
        },
        profile: FarmProfile {
            name: "La Huerta".to_owned(),
            display_name: Some("La Huerta".to_owned()),
            nip05: None,
            about: Some("Small mixed vegetable farm.".to_owned()),
            website: Some("https://example.invalid/la-huerta".to_owned()),
            picture: None,
            banner: None,
            lud06: None,
            lud16: None,
            bot: None,
        },
        farm: FarmRecord {
            d_tag: "AAAAAAAAAAAAAAAAAAAAAA".to_owned(),
            name: "La Huerta".to_owned(),
            about: Some("Small mixed vegetable farm.".to_owned()),
            website: Some("https://example.invalid/la-huerta".to_owned()),
            picture: None,
            banner: None,
            location: Some(FarmLocation {
                primary: Some("San Francisco, CA".to_owned()),
                city: Some("San Francisco".to_owned()),
                region: Some("CA".to_owned()),
                country: Some("US".to_owned()),
            }),
            tags: None,
        },
        listing_defaults: FarmListingDefaults {
            delivery_method: "pickup".to_owned(),
            location: ListingLocation {
                primary: "San Francisco, CA".to_owned(),
                city: Some("San Francisco".to_owned()),
                region: Some("CA".to_owned()),
                country: Some("US".to_owned()),
                geohash: None,
            },
        },
        publication: FarmPublicationStatus::default(),
    }
}

fn config_message<T: std::fmt::Debug>(result: Result<T, RuntimeError>) -> String {
    match result {
        Err(RuntimeError::Config(message)) => message,
        other => panic!("expected a config error, got {other:?}"),
    }
}

#[test]
fn resolve_scope_defaults_from_runtime_profile() {
    let interactive_paths = sample_paths("interactive_user");
    let repo_local_paths = sample_paths("repo_local");

    assert_eq!(resolve_scope(&interactive_paths, None).expect("interactive scope"), FarmConfigScope::User);
    assert_eq!(resolve_scope(&repo_local_paths, None).expect("repo_local scope"), FarmConfigScope::Workspace);
}

#[test]
fn explicit_scope_override_selects_requested_document() {
    let paths = sample_paths("repo_local");
    assert_eq!(resolve_scope(&paths, Some(FarmConfigScope::User)).expect("user scope"), FarmConfigScope::User);
    let document = sample_document(FarmConfigScope::User);
    validate(&document, FarmConfigScope::User).expect("user document validates for user scope");
}

#[test]
fn resolve_scope_rejects_unknown_profile() {
    let paths = sample_paths("kiosk");
    assert_eq!(config_message(resolve_scope(&paths, None)), "unsupported farm config path profile `kiosk`");
}

#[test]
fn load_rejects_scope_mismatch() {
    let message = config_message(validate(&sample_document(FarmConfigScope::User), FarmConfigScope::Workspace));
    assert!(message.contains("does not match resolved `workspace` scope"));
    assert_eq!(message, "farm config scope `user` does not match resolved `workspace` scope");
}

#[test]
fn load_rejects_unsupported_version() {
    let mut document = sample_document(FarmConfigScope::User);
    document.version = 2;
    let message = config_message(validate(&document, FarmConfigScope::User));
    assert!(message.contains("farm config version must be 1, got 2"));
}

#[test]
fn validate_rejects_mismatched_d_tags_and_bad_delivery() {
    let mut document = sample_document(FarmConfigScope::User);
    document.farm.d_tag = "AAAAAAAAAAAAAAAAAAAAAQ".to_owned();
    assert_eq!(
        config_message(validate(&document, FarmConfigScope::User)),
        "farm config selection.farm_d_tag must match farm.d_tag"
    );
    let mut document = sample_document(FarmConfigScope::User);
    document.selection.farm_d_tag = "short".to_owned();
    assert_eq!(
        config_message(validate(&document, FarmConfigScope::User)),
        "farm config selection.farm_d_tag must be a 22-character base64url identifier"
    );
    let mut document = sample_document(FarmConfigScope::User);
    document.selection.account = "   ".to_owned();
    assert_eq!(
        config_message(validate(&document, FarmConfigScope::User)),
        "farm config selection.account must not be empty"
    );
}

#[test]
fn delivery_methods_parse_known_and_other_values() {
    assert_eq!(parse_delivery_method(" pickup ").expect("pickup"), ListingDeliveryMethod::Pickup);
    assert_eq!(parse_delivery_method("local_delivery").expect("local"), ListingDeliveryMethod::LocalDelivery);
    assert_eq!(parse_delivery_method("shipping").expect("shipping"), ListingDeliveryMethod::Shipping);
    assert_eq!(
        parse_delivery_method("barter").expect("other"),
        ListingDeliveryMethod::Other { method: "barter".to_owned() }
    );
    assert_eq!(
        config_message(parse_delivery_method("  ")),
        "farm config listing_defaults.delivery_method must not be empty"
    );
}

#[test]
fn missing_fields_follow_setup_order() {
    let complete = sample_document(FarmConfigScope::User);
    assert!(missing_fields(&complete).is_empty());

    let mut document = sample_document(FarmConfigScope::User);
    document.profile.name = " ".to_owned();
    document.farm.name = String::new();
    document.listing_defaults.delivery_method = String::new();
    document.listing_defaults.location.country = None;
    if let Some(location) = document.farm.location.as_mut() {
        location.country = Some("  ".to_owned());
    }
    assert_eq!(
        missing_fields(&document),
        vec![FarmMissingField::Name, FarmMissingField::Delivery, FarmMissingField::Country]
    );

    let labels = missing_field_labels(&missing_fields(&document));
    assert_eq!(labels, vec!["Farm name", "Delivery method", "Country"]);
    assert!(missing_blocks_listing_defaults(&missing_fields(&document)));
    assert!(!missing_blocks_listing_defaults(&[FarmMissingField::Name, FarmMissingField::Country]));
}

#[test]
fn missing_field_actions_are_unique_and_ordered() {
    let actions = missing_field_actions(&[
        FarmMissingField::Name,
        FarmMissingField::Location,
        FarmMissingField::Name,
    ]);
    assert_eq!(actions.len(), 2);
    assert_ne!(actions[0], actions[1]);
    assert!(missing_field_actions(&[]).is_empty());
}

#[test]
fn generated_farm_d_tag_is_valid_base64url() {
    assert!(is_d_tag_base64url(&generate_d_tag(1_700_000_000_123_456_789, 7)));
}

#[test]
fn generated_listing_d_tag_is_valid_base64url() {
    let d_tag = generate_d_tag(1_700_000_000_987_654_321, 8);
    assert!(is_d_tag_base64url(&d_tag));
}

#[test]
fn base64url_encoder_produces_twenty_two_characters_for_sixteen_bytes() {
    let encoded = encode_base64url_no_pad([0u8; 16]);
    assert_eq!(encoded.len(), 22);
    assert!(is_d_tag_base64url(&encoded));
}

#[test]
fn base64url_encoder_exact_values() {
    assert_eq!(encode_base64url_no_pad([0u8; 16]), "AAAAAAAAAAAAAAAAAAAAAA");
    assert_eq!(encode_base64url_no_pad([0xffu8; 16]), "_____________________w");
    assert_eq!(generate_d_tag(1, 0), "AAAAAAAAAAAAAAAAAAAAAQ");
    assert_eq!(generate_d_tag(5, 4), "AAAAAAAAAAAAAAAAAAAAAQ");
    let mut bytes = [0u8; 16];
    bytes[0] = 0xfb;
    bytes[1] = 0xef;
    assert_eq!(encode_base64url_no_pad(bytes), "--8AAAAAAAAAAAAAAAAAAA");
}

#[test]
fn d_tag_checks_reject_wrong_shapes() {
    assert!(!is_d_tag_base64url("AAAAAAAAAAAAAAAAAAAAA"));
    assert!(!is_d_tag_base64url("AAAAAAAAAAAAAAAAAAAAA+"));
    assert!(is_d_tag_base64url("abcdefghijklmnopqrs-_9"));
    assert_eq!(required_d_tag("  AAAAAAAAAAAAAAAAAAAAAA  ", "farm_d_tag").expect("trimmed"), "AAAAAAAAAAAAAAAAAAAAAA");
    assert_eq!(config_message(required_d_tag("  ", "farm_d_tag")), "farm_d_tag must not be empty");
    assert_eq!(
        config_message(required_d_tag("short", "farm_d_tag")),
        "farm_d_tag must be a 22-character base64url identifier"
    );
}

#[test]
fn idempotency_keys_are_checked_and_derived() {
    let key = "018f6a3c-8d2e-7b4a-9c1d-2e3f4a5b6c7d";
    assert!(is_uuid_v7_idempotency_key(key));
    assert!(!is_uuid_v7_idempotency_key("018f6a3c-8d2e-4b4a-9c1d-2e3f4a5b6c7d"));
    assert!(!is_uuid_v7_idempotency_key("not-a-key"));

    let profile = derive_component_idempotency_key(key, "profile").expect("profile key");
    let farm = derive_component_idempotency_key(key, "farm").expect("farm key");
    assert!(is_uuid_v7_idempotency_key(&profile));
    assert!(is_uuid_v7_idempotency_key(&farm));
    assert_ne!(profile, farm);
    assert_eq!(profile, "018f6a3c-8d2e-7b4a-9c1d-02440908de62");
    assert_eq!(farm, "018f6a3c-8d2e-7b4a-9c1d-1fad1a00b4a5");
    assert_eq!(profile, derive_component_idempotency_key(key, "profile").expect("same key"));
    assert_eq!(
        config_message(derive_component_idempotency_key("bad", "profile")),
        "idempotency_key must be a UUIDv7"
    );

    assert_eq!(component_idempotency_key(None, "farm").expect("no key"), None);
    assert_eq!(component_idempotency_key(Some(key), "farm").expect("some key"), Some(farm));
}

#[test]
fn delivery_methods_display_as_words() {
    assert_eq!(display_delivery_method("local_delivery"), "Local Delivery");
    assert_eq!(display_delivery_method("__pickup__"), "Pickup");
    assert_eq!(display_delivery_method(""), "");
    assert_eq!(capitalize_ascii_word(&['s', 'h', 'i', 'p']), "Ship");
    assert_eq!(capitalize_ascii_word(&[]), "");
}

#[test]
fn publish_state_reflects_event_and_time() {
    assert_eq!(publish_state(Some("evt"), Some(1)), "published");
    assert_eq!(publish_state(Some("  "), Some(3)), "published");
    assert_eq!(publish_state(Some("  "), None), "not_published");
    assert_eq!(publish_state(None, None), "not_published");
}

#[test]
fn field_updates_write_profile_farm_and_defaults() {
    let mut document = sample_document(FarmConfigScope::User);
    apply_field_update(&mut document, FarmField::Name, "  Moss Street  ").expect("name");
    assert_eq!(document.profile.name, "Moss Street");
    assert_eq!(document.farm.name, "Moss Street");

    apply_field_update(&mut document, FarmField::City, "Oakland").expect("city");
    assert_eq!(document.listing_defaults.location.city.as_deref(), Some("Oakland"));
    assert_eq!(document.farm.location.as_ref().and_then(|l| l.city.as_deref()), Some("Oakland"));

    apply_field_update(&mut document, FarmField::Delivery, "shipping").expect("delivery");
    assert_eq!(document.listing_defaults.delivery_method, "shipping");

    let before = document.clone();
    assert_eq!(
        config_message(apply_field_update(&mut document, FarmField::About, "   ")),
        "farm set value must not be empty"
    );
    assert_eq!(document, before);
    assert_eq!(terminal_field_name(FarmField::Delivery), "Delivery");
    assert_eq!(terminal_field_name(FarmField::DisplayName), "Display name");
    assert_eq!(terminal_field_value(FarmField::Delivery, "local_delivery"), "Local Delivery");
}

fn create_args() -> FarmCreateArgs {
    FarmCreateArgs::default()
}

#[test]
fn init_document_drafts_a_new_farm_from_the_account() {
    let account = SellerAccount { id: "acct_seller".to_owned(), label: Some("  Moss Street Farm ".to_owned()) };
    let mut args = create_args();
    args.location = Some("Asheville, NC".to_owned());
    args.country = Some(" US ".to_owned());
    args.delivery_method = Some("pickup".to_owned());
    let document = init_document(FarmConfigScope::User, &account, None, &args, 1, 0).expect("draft");
    assert_eq!(document.version, 1);
    assert_eq!(document.selection.account, "acct_seller");
    assert_eq!(document.selection.farm_d_tag, "AAAAAAAAAAAAAAAAAAAAAQ");
    assert_eq!(document.farm.d_tag, "AAAAAAAAAAAAAAAAAAAAAQ");
    assert_eq!(document.profile.name, "Moss Street Farm");
    assert_eq!(document.profile.display_name.as_deref(), Some("Moss Street Farm"));
    assert_eq!(document.farm.name, "Moss Street Farm");
    assert_eq!(document.listing_defaults.location.primary, "Asheville, NC");
    assert_eq!(document.listing_defaults.location.country.as_deref(), Some("US"));
    assert_eq!(document.listing_defaults.delivery_method, "pickup");
    assert_eq!(document.publication, FarmPublicationStatus::default());
    validate(&document, FarmConfigScope::User).expect("drafted document validates");
    assert!(missing_fields(&document).is_empty());
}

#[test]
fn init_document_keeps_existing_values_and_publication() {
    let mut existing = sample_document(FarmConfigScope::User);
    existing.publication.farm_event_id = Some("evt_farm".to_owned());
    existing.publication.farm_published_at = Some(1_700_000_000);
    let resolved = ResolvedFarmConfig {
        scope: FarmConfigScope::User,
        path: "/tmp/farm.toml".to_owned(),
        document: existing,
    };
    let account = SellerAccount { id: "seller".to_owned(), label: None };
    let mut args = create_args();
    args.about = Some("Now with eggs.".to_owned());
    let document = init_document(FarmConfigScope::User, &account, Some(&resolved), &args, 9, 9).expect("update");
    assert_eq!(document.farm.d_tag, "AAAAAAAAAAAAAAAAAAAAAA");
    assert_eq!(document.profile.name, "La Huerta");
    assert_eq!(document.profile.about.as_deref(), Some("Now with eggs."));
    assert_eq!(document.farm.about.as_deref(), Some("Now with eggs."));
    assert_eq!(document.listing_defaults.location.city.as_deref(), Some("San Francisco"));
    assert_eq!(document.listing_defaults.delivery_method, "pickup");
    assert_eq!(document.publication.farm_event_id.as_deref(), Some("evt_farm"));
    assert_eq!(document.publication.farm_published_at, Some(1_700_000_000));

    args.farm_d_tag = Some("BBBBBBBBBBBBBBBBBBBBBB".to_owned());
    let moved = init_document(FarmConfigScope::User, &account, Some(&resolved), &args, 0, 0).expect("new d-tag");
    assert_eq!(moved.farm.d_tag, "BBBBBBBBBBBBBBBBBBBBBB");
    assert_eq!(moved.publication, FarmPublicationStatus::default());
}

#[test]
fn init_document_refuses_another_seller_account() {
    let resolved = ResolvedFarmConfig {
        scope: FarmConfigScope::User,
        path: "/tmp/farm.toml".to_owned(),
        document: sample_document(FarmConfigScope::User),
    };
    let account = SellerAccount { id: "other".to_owned(), label: None };
    match init_document(FarmConfigScope::User, &account, Some(&resolved), &create_args(), 0, 0) {
        Err(RuntimeError::Account(AccountRuntimeFailure::MismatchWithDetail(message, detail))) => {
            assert_eq!(
                message,
                "account mismatch: farm config is bound to seller account `seller`; select account `other` before updating this farm config"
            );
            assert_eq!(detail.seller_actor_source, "farm_config");
            assert_eq!(detail.farm_bound_seller_account_id, "seller");
            assert_eq!(detail.attempted_seller_account_id, "other");
            assert_eq!(
                detail.actions,
                vec!["radroots --dry-run account select other", "radroots account select other"]
            );
        },
        other => panic!("expected an account mismatch, got {other:?}"),
    }
}

#[test]
fn init_document_rejects_bad_d_tags() {
    let account = SellerAccount { id: "acct".to_owned(), label: None };
    let mut args = create_args();
    args.farm_d_tag = Some("short".to_owned());
    assert_eq!(
        config_message(init_document(FarmConfigScope::User, &account, None, &args, 0, 0)),
        "farm_d_tag must be a 22-character base64url identifier"
    );
    args.farm_d_tag = Some("   ".to_owned());
    assert_eq!(
        config_message(init_document(FarmConfigScope::User, &account, None, &args, 0, 0)),
        "farm_d_tag must not be empty"
    );
    let draft = init_document(FarmConfigScope::Workspace, &account, None, &create_args(), 0, 0).expect("draft");
    assert_eq!(draft.profile.name, "acct");
    assert_eq!(draft.selection.scope, FarmConfigScope::Workspace);
}

fn resolved(document: FarmConfigDocument) -> ResolvedFarmConfig {
    ResolvedFarmConfig { scope: FarmConfigScope::User, path: "/home/.radroots/config/apps/cli/farm.toml".to_owned(), document }
}

fn seller(write_capable: bool, remote: Option<Result<(), String>>) -> FarmSellerAccount {
    FarmSellerAccount {
        id: "seller".to_owned(),
        pubkey: "ab".repeat(32),
        write_capable,
        remote_signer_check: remote,
    }
}

#[test]
fn farm_get_reports_missing_and_found_configs() {
    let missing = farm_get_view(FarmConfigScope::User, "/x/farm.toml".to_owned(), None);
    assert_eq!(missing.state, "unconfigured");
    assert_eq!(missing.reason.as_deref(), Some("no farm config found at /x/farm.toml"));
    assert_eq!(missing.actions, vec!["radroots farm create"]);
    let found = farm_get_view(FarmConfigScope::User, "/x".to_owned(), Some(resolved(sample_document(FarmConfigScope::User))));
    assert_eq!(found.state, "ready");
    assert_eq!(found.path, "/home/.radroots/config/apps/cli/farm.toml");
    let document = found.document.expect("document");
    assert_eq!(document.selection.scope, "user");
    assert_eq!(document.publication.farm_state, "not_published");
    let output = CommandOutput::success(CommandView::FarmGet(farm_get_view(
        FarmConfigScope::User,
        "/x".to_owned(),
        Some(resolved(sample_document(FarmConfigScope::User))),
    )));
    assert_eq!(
        render_human_with_config(&output, Verbosity::Normal, ""),
        "Farm draft\n\nFarm\n  Name          La Huerta\n  Display name  La Huerta\n  About         Small mixed vegetable farm.\n  Website       https://example.invalid/la-huerta\n  Place         San Francisco, CA\n  City          San Francisco\n  Region        CA\n  Country       US\n  Delivery      Pickup\n  Scope         user\n  Farm tag      AAAAAAAAAAAAAAAAAAAAAA\n"
    );
}

#[test]
fn publish_readiness_follows_transport_signer_and_custody() {
    let nostr = publish_readiness(true, &seller(true, None));
    assert_eq!(nostr.state, "unconfigured");
    assert_eq!(nostr.reason.as_deref(), Some("farm publish requires a configured Nostr transport profile"));
    let remote_bad = publish_readiness(false, &seller(true, Some(Err("no session".to_owned()))));
    assert_eq!(remote_bad.reason.as_deref(), Some("no session"));
    assert_eq!(remote_bad.missing, vec!["Remote signer binding"]);
    let remote_ok = publish_readiness(false, &seller(false, Some(Ok(()))));
    assert!(remote_ok.executable);
    assert!(remote_ok.actions.is_empty());
    let watch_only = publish_readiness(false, &seller(false, None));
    assert_eq!(
        watch_only.reason.as_deref(),
        Some("resolved account `seller` is watch_only and cannot sign because it is not secret-backed")
    );
    let ready = publish_readiness(false, &seller(true, None));
    assert_eq!(ready.state, "ready");
    assert_eq!(ready.actions, vec!["radroots farm publish"]);
}

#[test]
fn farm_status_walks_account_fields_and_readiness() {
    let none = farm_status_view(FarmConfigScope::Workspace, "/w/farm.toml".to_owned(), None, None, false, "local");
    assert_eq!(none.state, "unconfigured");
    assert_eq!(none.scope, "workspace");
    assert_eq!(none.missing, vec!["Farm draft"]);
    assert_eq!(none.account_state, "not_checked");

    let no_account = farm_status_view(
        FarmConfigScope::User,
        "/x".to_owned(),
        Some(resolved(sample_document(FarmConfigScope::User))),
        None,
        false,
        "local",
    );
    assert_eq!(no_account.account_state, "missing");
    assert_eq!(
        no_account.reason.as_deref(),
        Some("farm config account `seller` is not present in the local account store")
    );
    assert_eq!(no_account.missing, vec!["Farm-bound seller account"]);
    assert_eq!(no_account.actions.len(), 3);

    let mut incomplete = sample_document(FarmConfigScope::User);
    incomplete.listing_defaults.delivery_method = String::new();
    let missing_fields_status =
        farm_status_view(FarmConfigScope::User, "/x".to_owned(), Some(resolved(incomplete)), Some(seller(true, None)), false, "local");
    assert_eq!(missing_fields_status.listing_defaults_state, "missing");
    assert_eq!(missing_fields_status.missing, vec!["Delivery method"]);
    assert_eq!(missing_fields_status.actions, vec!["radroots farm set delivery pickup"]);
    assert_eq!(missing_fields_status.publish_state, "not_checked");

    let ready = farm_status_view(
        FarmConfigScope::User,
        "/x".to_owned(),
        Some(resolved(sample_document(FarmConfigScope::User))),
        Some(seller(true, None)),
        false,
        "local",
    );
    assert_eq!(ready.state, "ready");
    assert!(ready.publish_executable);
    assert_eq!(ready.config.as_ref().and_then(|c| c.seller_pubkey.clone()), Some("ab".repeat(32)));
    let output = CommandOutput::success(CommandView::FarmStatus(ready));
    assert_eq!(
        render_human_with_config(&output, Verbosity::Normal, ""),
        "Farm ready to publish\n\nFarm\n  Name      La Huerta\n  Scope     user\n  Place     San Francisco, CA\n  Delivery  Pickup\n\nNext\n  radroots farm publish\n"
    );
}

#[test]
fn farm_set_updates_or_reports_missing_config() {
    let words = vec!["local".to_owned(), "delivery".to_owned()];
    let missing = farm_set(FarmField::Delivery, &words, FarmConfigScope::User, "/x".to_owned(), None, None, false, false)
        .expect("no config");
    assert_eq!(missing.view.state, "unconfigured");
    assert_eq!(missing.view.field, "Delivery");
    assert_eq!(missing.view.reason.as_deref(), Some("no farm draft found at /x"));
    assert!(missing.document.is_none());

    let words = vec!["local_delivery".to_owned()];
    let updated = farm_set(
        FarmField::Delivery,
        &words,
        FarmConfigScope::User,
        "/x".to_owned(),
        Some(resolved(sample_document(FarmConfigScope::User))),
        Some(seller(true, None)),
        false,
        false,
    )
    .expect("updated");
    assert_eq!(updated.view.state, "updated");
    assert_eq!(updated.view.value, "Local Delivery");
    assert_eq!(updated.view.reason, None);
    assert_eq!(updated.view.actions, vec!["radroots farm get", "radroots farm publish"]);
    assert_eq!(updated.document.expect("document").listing_defaults.delivery_method, "local_delivery");

    let dry = farm_set(
        FarmField::Name,
        &vec!["Moss".to_owned(), "Street".to_owned()],
        FarmConfigScope::User,
        "/x".to_owned(),
        Some(resolved(sample_document(FarmConfigScope::User))),
        None,
        false,
        true,
    )
    .expect("dry run");
    assert_eq!(dry.view.state, "dry_run");
    assert_eq!(dry.view.value, "Moss Street");
    assert_eq!(
        dry.view.reason.as_deref(),
        Some("dry run requested; farm draft was not written; farm-bound seller account `seller` is not present in the local account store")
    );
    assert!(dry.document.is_none());
    let output = CommandOutput::success(CommandView::FarmSet(dry.view));
    assert_eq!(
        render_human_with_config(&output, Verbosity::Normal, ""),
        "Farm updated\n\nChanged\n  Field  Name\n  Value  Moss Street\n\nFarm\n  Name      Moss Street\n  Scope     user\n  Place     San Francisco, CA\n  Delivery  Pickup\n\nNext\n  radroots farm get\n  radroots account import <path>\n  radroots --dry-run account select <selector>\n  radroots account select <selector>\n"
    );

    let blank = farm_set(
        FarmField::Name,
        &vec!["  ".to_owned()],
        FarmConfigScope::User,
        "/x".to_owned(),
        Some(resolved(sample_document(FarmConfigScope::User))),
        None,
        false,
        false,
    );
    assert_eq!(config_message(blank), "farm set value must not be empty");
}

#[test]
fn setup_actions_and_views() {
    let document = sample_document(FarmConfigScope::User);
    assert_eq!(farm_setup_actions(&document, None, false).len(), 4);
    assert_eq!(farm_setup_actions(&document, Some(&seller(true, None)), true), vec!["radroots farm get"]);
    let view = missing_selected_account_setup_view();
    assert_eq!(view.reason.as_deref(), Some("choose or create an account before setting up your farm"));
    let output = CommandOutput::unconfigured(CommandView::FarmSetup(view));
    assert_eq!(
        render_human_with_config(&output, Verbosity::Normal, ""),
        "Not ready yet\n\nMissing\n  Resolved account\n\nNext\n  radroots account create\n"
    );
    let saved = FarmSetupView {
        state: "saved".to_owned(),
        source: "farm config · local first".to_owned(),
        config: None,
        reason: Some("The farm draft is local until you publish it.".to_owned()),
        actions: vec!["radroots farm get".to_owned()],
    };
    let output = CommandOutput::success(CommandView::FarmSetup(saved));
    assert_eq!(
        render_human_with_config(&output, Verbosity::Normal, ""),
        "Farm draft saved\n\nThe farm draft is local until you publish it.\nNext\n  radroots farm get\n"
    );
}

#[test]
fn farm_rebind_clears_publication_only_when_the_key_changes() {
    let mut published = sample_document(FarmConfigScope::User);
    published.publication.farm_event_id = Some("evt".to_owned());
    let to = SelectedSeller { id: "acct_new".to_owned(), pubkey: "AB".repeat(32) };
    let same_key = farm_rebind(
        FarmConfigScope::User,
        "/x".to_owned(),
        Some(resolved(published.clone())),
        Some("ab".repeat(32)),
        Ok(to.clone()),
        "acct_new",
        false,
    )
    .expect("rebound");
    assert_eq!(same_key.view.state, "rebound");
    assert_eq!(same_key.view.seller_pubkey_changed, Some(false));
    assert_eq!(same_key.view.publication_state_action.as_deref(), Some("preserved"));
    let document = same_key.document.expect("document");
    assert_eq!(document.selection.account, "acct_new");
    assert_eq!(document.publication.farm_event_id.as_deref(), Some("evt"));

    let new_key = farm_rebind(
        FarmConfigScope::User,
        "/x".to_owned(),
        Some(resolved(published)),
        Some("cd".repeat(32)),
        Ok(to),
        "acct_new",
        true,
    )
    .expect("dry run");
    assert_eq!(new_key.view.state, "dry_run");
    assert_eq!(new_key.view.publication_state_action.as_deref(), Some("cleared"));
    assert_eq!(new_key.view.actions, vec!["radroots account select acct_new"]);
    assert!(new_key.document.is_none());
}

#[test]
fn farm_rebind_reports_missing_config_and_unknown_selector() {
    let none = farm_rebind(FarmConfigScope::User, "/x".to_owned(), None, None, Err(RuntimeError::Config("x".to_owned())), "s", false)
        .expect("no config");
    assert_eq!(none.view.state, "unconfigured");
    assert_eq!(none.view.reason.as_deref(), Some("no farm config found at /x"));
    let unknown = farm_rebind(
        FarmConfigScope::User,
        "/x".to_owned(),
        Some(resolved(sample_document(FarmConfigScope::User))),
        None,
        Err(RuntimeError::Account(AccountRuntimeFailure::Unresolved("no account matches `zed`".to_owned()))),
        "zed",
        false,
    );
    match unknown {
        Err(RuntimeError::Account(AccountRuntimeFailure::UnresolvedWithDetail(message, detail))) => {
            assert_eq!(message, "no account matches `zed`");
            assert_eq!(detail.selector, "zed");
            assert_eq!(detail.actions, vec!["radroots account import <path>", "radroots account create"]);
        },
        other => panic!("expected an unresolved selector, got {other:?}"),
    }
}
