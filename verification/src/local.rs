use crate::address::IpAddress;
use crate::geo_data::{GeoData, GeoDataView, GeoIpReader};
use std::convert::Infallible;
use vstd::prelude::*;

verus! {

/// Whether `mapping` can be called on every address and gives every address
/// one value only.
pub open spec fn is_mapping<F: Fn(IpAddress) -> GeoData>(mapping: F) -> bool {
    &&& forall|addr: IpAddress| call_requires(mapping, (addr,))
    &&& forall|addr: IpAddress, one: GeoData, other: GeoData|
        call_ensures(mapping, (addr,), one) && call_ensures(mapping, (addr,), other) ==> one@
            == other@
}

/// The value that `mapping` gives `addr`.
pub open spec fn mapped<F: Fn(IpAddress) -> GeoData>(mapping: F, addr: IpAddress) -> GeoDataView {
    (choose|data: GeoData| call_ensures(mapping, (addr,), data))@
}

/// A resolver that answers from a function of the address, in place of a
/// database. It reads nothing and keeps nothing.
#[derive(Debug)]
pub struct LocalResolver<F: Fn(IpAddress) -> GeoData> {
    resolver: F,
}

impl<F: Fn(IpAddress) -> GeoData> LocalResolver<F> {
    #[verifier::type_invariant]
    spec fn well_formed(self) -> bool {
        is_mapping(self.resolver)
    }

    /// The function that this resolver answers from.
    pub closed spec fn mapping(&self) -> F {
        self.resolver
    }

    /// A resolver that answers from `resolver`.
    pub fn new(resolver: F) -> (local: Self)
        requires
            is_mapping(resolver),
        ensures
            local.mapping() == resolver,
    {
        Self { resolver }
    }
}

impl<F: Fn(IpAddress) -> GeoData + Copy> Clone for LocalResolver<F> {
    fn clone(&self) -> (copy: Self)
        ensures
            copy.mapping() == self.mapping(),
    {
        proof {
            use_type_invariant(self);
        }
        Self { resolver: self.resolver }
    }
}

impl<F: Fn(IpAddress) -> GeoData> GeoIpReader for LocalResolver<F> {
    type Error = Infallible;

    /// The value of the function at `addr`: there for every address.
    open spec fn resolves(&self, addr: IpAddress) -> Option<GeoDataView> {
        Some(mapped(self.mapping(), addr))
    }

    /// The value of the function at `addr`. It never fails.
    fn lookup_geo_data(&self, addr: IpAddress) -> (out: Result<GeoData, Infallible>)
        ensures
            out matches Ok(data) && call_ensures(self.mapping(), (addr,), data),
    {
        proof {
            use_type_invariant(self);
        }
        Ok((self.resolver)(addr))
    }
}

/// A local resolver never fails, and what it answers for an address is the
/// value of its function there: the same at every call.
pub proof fn lemma_local_lookup_is_pure<F: Fn(IpAddress) -> GeoData>(
    local: LocalResolver<F>,
    addr: IpAddress,
    first: Result<GeoData, Infallible>,
    second: Result<GeoData, Infallible>,
)
    requires
        crate::geo_data::answers(local.resolves(addr), first),
        crate::geo_data::answers(local.resolves(addr), second),
    ensures
        first is Ok,
        second is Ok,
        first->Ok_0@ == second->Ok_0@,
        first->Ok_0@ == mapped(local.mapping(), addr),
{
}

} // verus!
