//! Proxies: stateless type tags that tie an owned type to the family of views
//! borrowed from it, one view type for each borrow lifetime.
//!
//! A container that stores owned values picks a proxy as its storage strategy
//! and hands out `View<'a, P>` values. [`ViewInverse`] leads from a view type
//! back to the proxy that produces it, so that callers can name the view and
//! never the proxy.

pub mod laws;
pub mod proxy;
pub mod reference;

pub use proxy::{Owned, ProxyToOwned, ProxyView, View, ViewInverse};
pub use reference::ReferenceProxy;
