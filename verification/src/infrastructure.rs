//! What stands between a request and the stored data: the parameters of a
//! request, the pages it asks for, the store, and the handlers.
pub mod bounds;
pub mod moderation;
pub mod pagination;
pub mod params;
pub mod relational;
pub mod reply;
pub mod response;
pub mod router;
pub mod store;
