//! Core logic of a streaming-event gateway: a server that relays live events
//! from upstream providers (Twitch EventSub, Streamlabs socket.io) to desktop
//! clients over resumable WebSocket sessions keyed by an opaque state token.
//!
//! The crate holds the verified decision logic: the connection registry, the
//! per-client orchestration steps, the upstream session state machines, the
//! token lifecycle, the reward reconciler, and the JSON wire protocol. The
//! surrounding I/O (sockets, HTTP, storage) lives outside and feeds plain
//! values into these functions.

pub mod callbacks;
pub mod config;
pub mod events;
pub mod eventsub;
pub mod json;
pub mod messages;
pub mod orchestrator;
pub mod registry;
pub mod rewards;
pub mod store;
pub mod streamlabs;
pub mod tokens;
pub mod trigger;
pub mod wire;

