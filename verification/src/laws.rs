//! What holds of every proxy, and of the reference proxy.
//!
//! The laws on types are stated as functions whose signatures only type-check
//! because the law holds: each hands its argument back under the other type.

use crate::proxy::{ProxyToOwned, ProxyView, ViewInverse};
use crate::reference::ReferenceProxy;
use vstd::prelude::*;

verus! {

/// A proxy, taken as a value of the proxy type that its view names.
pub open spec fn named_proxy<'a, P: ProxyView>(proxy: P) -> <P::View<'a> as ViewInverse<'a>>::Proxy where
    P::Owned: 'a,
 {
    proxy
}

/// Round trip: whatever `view` makes of `owned`, and whatever `to_owned_proxy`
/// then builds from that view, the one view shows both the value it was made
/// from and the value rebuilt from it.
pub proof fn lemma_round_trip<'a, P: ProxyToOwned>(
    owned: &'a P::Owned,
    view: P::View<'a>,
    rebuilt: P::Owned,
)
    requires
        call_ensures(P::view, (owned,), view),
        call_ensures(P::to_owned_proxy, (view,), rebuilt),
    ensures
        P::depicts(view, *owned),
        P::depicts(view, rebuilt),
{
}

/// Round trip through a reference: a value that is shown by the view that the
/// reference proxy makes of `owned` is equal to `owned`.
pub proof fn lemma_reference_round_trip<'a, T: 'static>(owned: &'a T, view: &'a T, rebuilt: T)
    requires
        call_ensures(ReferenceProxy::<T>::view, (owned,), view),
        ReferenceProxy::<T>::depicts(view, rebuilt),
    ensures
        rebuilt == *owned,
{
}

/// The reference proxy holds no data: any two values of it are equal.
pub proof fn lemma_reference_proxy_stateless<T>(first: ReferenceProxy<T>, second: ReferenceProxy<T>)
    ensures
        first == second,
{
}

/// Inverse of a view: the proxy that a view of `P` names is `P` itself, so a
/// value of `P` is a value of that type.
pub proof fn lemma_inverse_names_proxy<'a, P: ProxyView>(proxy: P) -> (named: <P::View<
    'a,
> as ViewInverse<'a>>::Proxy) where P::Owned: 'a
    ensures
        named == proxy,
{
    proxy
}

/// Inverse of a view, read backwards: a value of the proxy type that a view of
/// `P` names is a value of `P`.
pub proof fn lemma_proxy_of_inverse<'a, P: ProxyView>(
    named: <P::View<'a> as ViewInverse<'a>>::Proxy,
) -> (proxy: P) where P::Owned: 'a
    ensures
        proxy == named,
{
    named
}

/// Inverse of a view: the owned type that a view of `P` names is the owned
/// type of `P`, so a value of the one is a value of the other.
pub proof fn lemma_inverse_names_owned<'a, P: ProxyView>(owned: P::Owned) -> (named: <P::View<
    'a,
> as ViewInverse<'a>>::Owned) where P::Owned: 'a
    ensures
        named == owned,
{
    owned
}

/// The inverse is exact: the proxy that a view of `P` names makes, for the
/// same lifetime, that very view type, so a view of `P` is a view of it.
pub proof fn lemma_named_proxy_makes_view<'a, P: ProxyView>(view: P::View<'a>) -> (made: <<P::View<
    'a,
> as ViewInverse<'a>>::Proxy as ProxyView>::View<'a>) where P::Owned: 'a
    ensures
        made == view,
{
    view
}

/// A view type has one proxy: a proxy `Q` whose view for some lifetime is the
/// view of `P` is `P`, and a value of `P` is a value of `Q`.
pub proof fn lemma_view_has_one_proxy<'a, P: ProxyView, Q: ProxyView<View<'a> = P::View<'a>>>(
    proxy: P,
) -> (other: Q) where P::Owned: 'a, Q::Owned: 'a
    ensures
        named_proxy::<Q>(other) == named_proxy::<P>(proxy),
{
    let named = lemma_inverse_names_proxy::<P>(proxy);
    lemma_proxy_of_inverse::<Q>(named)
}

} // verus!
