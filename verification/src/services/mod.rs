//! Request planners for the platform's services. Each method returns the
//! HTTP call the service makes, as data; executing it and decoding the
//! reply is the transport's job.

pub mod voice;
pub mod voice_config;
pub mod compliance;
pub mod governance;
pub mod consent;
pub mod ai;
pub mod messages;
pub mod pay;
pub mod platform;
pub mod i18n;
pub mod auth;
pub mod admin_billing;
pub mod admin_cpaas;
pub mod admin_ether;
pub mod admin_gating;
pub mod admin_ops;
pub mod agent_workflows;
pub mod business;
pub mod chaos;
pub mod commerce;
pub mod connect;
pub mod creator;
pub mod enterprise_context;
pub mod ethical_ai;
pub mod finops;
pub mod firebase_auth;
pub mod gating;
pub mod identity;
pub mod maps;
pub mod pos;
pub mod smart_home;
pub mod sms;
pub mod sre_analytics;
pub mod tuning;
pub mod voice_marketplace;
pub mod voice_orders;
