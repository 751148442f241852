//! The proxy whose views are plain references.

use crate::proxy::{ProxyView, ViewInverse};
use core::marker::PhantomData;
use vstd::prelude::*;

verus! {

/// A proxy that simply returns a reference to the owned value.
pub struct ReferenceProxy<T>(pub PhantomData<T>);

impl<T> ReferenceProxy<T> {
    /// The proxy for `T`. It holds no data, so there is one value of it.
    pub fn new() -> (proxy: Self)
        ensures
            proxy == ReferenceProxy::<T>(PhantomData),
    {
        ReferenceProxy(PhantomData)
    }
}

impl<T> Default for ReferenceProxy<T> {
    fn default() -> (proxy: Self)
        ensures
            proxy == ReferenceProxy::<T>(PhantomData),
    {
        Self::new()
    }
}

impl<'a, T: 'static> ViewInverse<'a> for &'a T {
    type Owned = T;

    type Proxy = ReferenceProxy<T>;
}

impl<T: 'static> ProxyView for ReferenceProxy<T> {
    type Owned = T;

    type View<'a> = &'a T;

    /// A reference shows the value it points to, and no other.
    open spec fn depicts<'a>(view: &'a T, owned: T) -> bool {
        *view == owned
    }

    /// The view is the reference itself.
    fn view<'a>(owned: &'a T) -> (view: &'a T)
        ensures
            view == owned,
    {
        owned
    }
}

} // verus!
