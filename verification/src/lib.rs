pub mod text;
pub mod error;
pub mod config;
pub mod envfile;
pub mod relay;
pub mod bindings;
pub mod runtime_config;
pub mod paths;
pub mod hyf;
pub mod find;
pub mod daemon;
pub mod output;
pub mod farm_config;
pub mod farm;
pub mod farm_init;
pub mod farm_views;
pub mod accounts;
pub mod job;
pub mod render;
pub mod views;
pub mod config_show;
pub mod render_views;
pub mod render_farm;
pub mod sell;
pub mod order;
pub mod order_watch;
pub mod order_history;
pub mod sync_views;
pub mod account_views;
pub mod listing_views;
pub mod sell_drafts;
pub mod local_store;
pub mod status_views;
pub mod farm_publish;
pub mod market_views;
pub mod runtime_views;
pub mod human;
pub mod listing;
pub mod logging;
pub mod direct_relay;
pub mod laws;
