pub mod classify;
pub mod config;
pub mod controller;
pub mod controller_proofs;
pub mod decision;
pub mod events;
pub mod identity;
pub mod intake;
pub mod link;
pub mod notification;
pub mod notifier;
pub mod reconcile;
pub mod request;
pub mod rescan;
pub mod response;
pub mod seasons;
pub mod store;
pub mod store_proofs;
pub mod text;
pub mod timestamp;
pub mod webhooks;
