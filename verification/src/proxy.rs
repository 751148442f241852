//! The contracts between a proxy, its owned type and its views.

use vstd::prelude::*;

verus! {

/// The view type that the proxy `P` produces for the lifetime `'a`.
pub type View<'a, P> = <P as ProxyView>::View<'a>;

/// The owned type that the proxy `P` borrows from.
pub type Owned<P> = <P as ProxyView>::Owned;

/// A type generator that produces a view type for a given lifetime.
///
/// The owned value has to outlive every borrow, so its type is fixed where the
/// trait is implemented. Every view type names its proxy in turn, through
/// [`ViewInverse`]: the bound on [`ProxyView::View`] makes the inverse of a
/// proxy's view lead back to that proxy and to its owned type, and thereby
/// keeps two proxies from sharing a view type.
///
/// Views may come about in other ways too (a row of a matrix, a part of a
/// buffer), but one can always be made from a reference to an owned value.
pub trait ProxyView {
    /// The concrete type that this proxy borrows from.
    type Owned;

    /// The borrowed view type for a given lifetime, which `Self::Owned` must
    /// outlive.
    type View<'a>: ViewInverse<'a, Proxy = Self, Owned = Self::Owned> where Self::Owned: 'a;

    /// Whether `view` shows the value `owned`.
    spec fn depicts<'a>(view: Self::View<'a>, owned: Self::Owned) -> bool;

    /// Makes the view of an owned value. It is defined on every owned value
    /// and reads it only.
    fn view<'a>(owned: &'a Self::Owned) -> (view: Self::View<'a>)
        ensures
            Self::depicts(view, *owned),
    ;
}

/// Implemented by every view type: names the proxy that produces the view and
/// the owned type it is borrowed from.
///
/// A container can take the proxy from the view type in this way, and let its
/// users name the view type alone. A view type has one proxy only.
pub trait ViewInverse<'a> {
    /// The type that the view is borrowed from.
    type Owned: 'a;

    /// The proxy that produces this view. The trait puts no bound on it: code
    /// that goes from a view type to its proxy asks for
    /// `Self::Proxy: ProxyView<View<'a> = Self, Owned = Self::Owned>` where it
    /// needs it, which holds of every view that a proxy produces.
    type Proxy;
}

/// A generic way to get owned values back from the views of a proxy.
pub trait ProxyToOwned: ProxyView {
    /// Builds an owned value that stands by itself and that `view` shows.
    fn to_owned_proxy<'a>(view: Self::View<'a>) -> (owned: Self::Owned)
        ensures
            Self::depicts(view, owned),
    ;
}

} // verus!
