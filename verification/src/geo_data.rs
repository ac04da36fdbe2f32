use crate::address::IpAddress;
use std::sync::Arc;
use vstd::prelude::*;

verus! {

/// Geographic metadata resolved for one address. Every field is optional on
/// its own: the presence of one says nothing about another.
#[derive(Debug, Clone)]
pub struct GeoData {
    /// Continent code.
    pub continent: Option<Arc<str>>,
    /// ISO country code.
    pub country: Option<Arc<str>>,
    /// Subdivision codes, outermost first.
    pub region: Option<Vec<String>>,
    /// English display name of the city.
    pub city: Option<Arc<str>>,
}

/// The mathematical value of a [`GeoData`]: texts as character sequences.
pub ghost struct GeoDataView {
    pub continent: Option<Seq<char>>,
    pub country: Option<Seq<char>>,
    pub region: Option<Seq<Seq<char>>>,
    pub city: Option<Seq<char>>,
}

/// The characters of an optional shared text.
pub open spec fn shared_text_view(text: Option<Arc<str>>) -> Option<Seq<char>> {
    match text {
        Some(t) => Some((*t)@),
        None => None,
    }
}

/// The character sequences of a list of strings, in order.
pub open spec fn texts_view(texts: Seq<String>) -> Seq<Seq<char>> {
    texts.map_values(|t: String| t@)
}

impl View for GeoData {
    type V = GeoDataView;

    open spec fn view(&self) -> GeoDataView {
        GeoDataView {
            continent: shared_text_view(self.continent),
            country: shared_text_view(self.country),
            region: match self.region {
                Some(codes) => Some(texts_view(codes@)),
                None => None,
            },
            city: shared_text_view(self.city),
        }
    }
}

/// `Arc::from` on a string slice: the shared text holds the characters of
/// the slice.
#[verifier::external_body]
pub(crate) fn share(text: &str) -> (shared: Arc<str>)
    ensures
        (*shared)@ == text@,
{
    Arc::from(text)
}

impl GeoDataView {
    /// The value with no field present.
    pub open spec fn absent() -> GeoDataView {
        GeoDataView { continent: None, country: None, region: None, city: None }
    }
}

/// Whether `out` is the answer that `expected` stands for: the data where
/// there is data, and a failure where there is none.
pub open spec fn answers<E>(expected: Option<GeoDataView>, out: Result<GeoData, E>) -> bool {
    match out {
        Ok(data) => expected == Some(data@),
        Err(_) => expected is None,
    }
}

/// A source of geographic metadata for IP addresses.
pub trait GeoIpReader {
    /// How a lookup fails.
    type Error;

    /// What this source holds for `addr`, or `None` where its lookup of
    /// `addr` fails. A lookup changes nothing: the same address always has
    /// the same answer.
    spec fn resolves(&self, addr: IpAddress) -> Option<GeoDataView>;

    /// Looks `addr` up.
    fn lookup_geo_data(&self, addr: IpAddress) -> (out: Result<GeoData, Self::Error>)
        ensures
            answers(self.resolves(addr), out),
    ;
}

/// Lookups are repeatable: any two answers of one source for one address
/// succeed or fail together, and where they succeed they hold the same data.
pub proof fn lemma_lookup_repeatable<R: GeoIpReader>(
    source: R,
    addr: IpAddress,
    first: Result<GeoData, R::Error>,
    second: Result<GeoData, R::Error>,
)
    requires
        answers(source.resolves(addr), first),
        answers(source.resolves(addr), second),
    ensures
        first is Ok <==> second is Ok,
        first is Ok ==> first->Ok_0@ == second->Ok_0@,
{
}

} // verus!
