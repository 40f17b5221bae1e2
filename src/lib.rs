//! Abuse-report escalation and sanctions for accounts on federated platforms:
//! token verification, per-pair rate limiting, the follower-scaled report
//! thresholds, the escalation decision, moderator suspensions, suspension
//! propagation and the daily expiry sweep.
pub mod auth;
pub mod error;
pub mod events;
pub mod limiter;
pub mod mem;
pub mod model;
pub mod moderation;
pub mod platform;
pub mod pool;
pub mod propagate;
pub mod rejection;
pub mod report;
pub mod scorer;
pub mod sweep;
