use crate::geo_data::{share, shared_text_view, texts_view, GeoData, GeoDataView};
use crate::names::NameTable;
use std::sync::Arc;
use vstd::prelude::*;

verus! {

/// The continent entry of a record.
#[derive(Debug)]
pub struct Continent {
    pub code: Option<String>,
}

/// The country entry of a record.
#[derive(Debug)]
pub struct Country {
    pub iso_code: Option<String>,
}

/// One administrative subdivision of a record.
#[derive(Debug)]
pub struct Subdivision {
    pub iso_code: Option<String>,
}

/// The city entry of a record.
#[derive(Debug)]
pub struct City {
    pub names: Option<NameTable>,
}

/// A city-level record as the database holds it: every entry may be missing,
/// and so may every value inside an entry.
#[derive(Debug)]
pub struct CityRecord {
    pub continent: Option<Continent>,
    pub country: Option<Country>,
    pub subdivisions: Option<Vec<Subdivision>>,
    pub city: Option<City>,
}

/// The mathematical value of a [`Continent`].
pub ghost struct ContinentView {
    pub code: Option<Seq<char>>,
}

/// The mathematical value of a [`Country`].
pub ghost struct CountryView {
    pub iso_code: Option<Seq<char>>,
}

/// The mathematical value of a [`Subdivision`].
pub ghost struct SubdivisionView {
    pub iso_code: Option<Seq<char>>,
}

/// The mathematical value of a [`City`]: its name table as a map from
/// language keys to names.
pub ghost struct CityView {
    pub names: Option<Map<Seq<char>, Seq<char>>>,
}

/// The mathematical value of a [`CityRecord`].
pub ghost struct CityRecordView {
    pub continent: Option<ContinentView>,
    pub country: Option<CountryView>,
    pub subdivisions: Option<Seq<SubdivisionView>>,
    pub city: Option<CityView>,
}

/// The characters of an optional string.
pub open spec fn text_view(text: Option<String>) -> Option<Seq<char>> {
    match text {
        Some(t) => Some(t@),
        None => None,
    }
}

impl View for Continent {
    type V = ContinentView;

    open spec fn view(&self) -> ContinentView {
        ContinentView { code: text_view(self.code) }
    }
}

impl View for Country {
    type V = CountryView;

    open spec fn view(&self) -> CountryView {
        CountryView { iso_code: text_view(self.iso_code) }
    }
}

impl View for Subdivision {
    type V = SubdivisionView;

    open spec fn view(&self) -> SubdivisionView {
        SubdivisionView { iso_code: text_view(self.iso_code) }
    }
}

impl View for City {
    type V = CityView;

    open spec fn view(&self) -> CityView {
        CityView {
            names: match self.names {
                Some(table) => Some(table@),
                None => None,
            },
        }
    }
}

/// The view of an entry that may be missing.
pub open spec fn entry_view<T: View>(entry: Option<T>) -> Option<T::V> {
    match entry {
        Some(e) => Some(e@),
        None => None,
    }
}

/// The views of a list of subdivisions, in order.
pub open spec fn subdivisions_view(subdivisions: Seq<Subdivision>) -> Seq<SubdivisionView> {
    subdivisions.map_values(|s: Subdivision| s@)
}

/// The views of a list of subdivisions that may be missing.
pub open spec fn list_view(subdivisions: Option<Vec<Subdivision>>) -> Option<
    Seq<SubdivisionView>,
> {
    match subdivisions {
        Some(list) => Some(subdivisions_view(list@)),
        None => None,
    }
}

impl View for CityRecord {
    type V = CityRecordView;

    open spec fn view(&self) -> CityRecordView {
        CityRecordView {
            continent: entry_view(self.continent),
            country: entry_view(self.country),
            subdivisions: list_view(self.subdivisions),
            city: entry_view(self.city),
        }
    }
}

impl CityRecordView {
    /// The record without entries.
    pub open spec fn empty() -> CityRecordView {
        CityRecordView { continent: None, country: None, subdivisions: None, city: None }
    }
}

impl CityRecord {
    /// The record without entries.
    pub fn empty() -> (record: Self)
        ensures
            record@ == CityRecordView::empty(),
    {
        CityRecord { continent: None, country: None, subdivisions: None, city: None }
    }
}

/// The language key under which a city's display name is looked up.
pub open spec fn english() -> Seq<char> {
    "en"@
}

/// The English key is the two letters `e`, `n`.
pub proof fn lemma_english_key()
    ensures
        english() == seq!['e', 'n'],
{
    reveal_strlit("en");
    assert(english() =~= seq!['e', 'n']);
}

/// The continent code: there only if the record has a continent entry and
/// that entry has a code.
pub open spec fn continent_of(continent: Option<ContinentView>) -> Option<Seq<char>> {
    match continent {
        Some(c) => c.code,
        None => None,
    }
}

/// The country code: there only if the record has a country entry and that
/// entry has an ISO code.
pub open spec fn country_of(country: Option<CountryView>) -> Option<Seq<char>> {
    match country {
        Some(c) => c.iso_code,
        None => None,
    }
}

/// The codes of the subdivisions that have one, in the order of the list.
pub open spec fn codes_of(subdivisions: Seq<SubdivisionView>) -> Seq<Seq<char>> {
    subdivisions.filter_map(|s: SubdivisionView| s.iso_code)
}

/// The region: absent if the record has no subdivision list, else the codes
/// of the list, which may be none.
pub open spec fn region_of(subdivisions: Option<Seq<SubdivisionView>>) -> Option<Seq<Seq<char>>> {
    match subdivisions {
        Some(list) => Some(codes_of(list)),
        None => None,
    }
}

/// The city name: there only if the record has a city entry, the entry has
/// a name table, and the table binds the English key.
pub open spec fn city_of(city: Option<CityView>) -> Option<Seq<char>> {
    match city {
        Some(c) => match c.names {
            Some(names) => if names.contains_key(english()) {
                Some(names[english()])
            } else {
                None
            },
            None => None,
        },
        None => None,
    }
}

/// The flat result that a record stands for.
pub open spec fn normalized(record: CityRecordView) -> GeoDataView {
    GeoDataView {
        continent: continent_of(record.continent),
        country: country_of(record.country),
        region: region_of(record.subdivisions),
        city: city_of(record.city),
    }
}

/// An optional string as an optional shared text.
fn share_text(text: Option<String>) -> (shared: Option<Arc<str>>)
    ensures
        shared_text_view(shared) == text_view(text),
{
    match text {
        Some(t) => Some(share(t.as_str())),
        None => None,
    }
}

/// The codes of the subdivisions that have one, in the order of the list.
pub fn region_codes(subdivisions: &Vec<Subdivision>) -> (codes: Vec<String>)
    ensures
        texts_view(codes@) == codes_of(subdivisions_view(subdivisions@)),
{
    let ghost all = subdivisions_view(subdivisions@);
    let ghost code = |s: SubdivisionView| s.iso_code;
    let mut codes: Vec<String> = Vec::new();
    let mut i: usize = 0;
    while i < subdivisions.len()
        invariant
            i <= subdivisions.len(),
            all == subdivisions_view(subdivisions@),
            code == |s: SubdivisionView| s.iso_code,
            texts_view(codes@) == all.take(i as int).filter_map(code),
        decreases subdivisions.len() - i,
    {
        let ghost before = codes@;
        proof {
            all.lemma_filter_map_take_succ(code, i as int);
        }
        match &subdivisions[i].iso_code {
            Some(c) => {
                codes.push(c.clone());
                assert(texts_view(codes@) == texts_view(before) + seq![c@]);
            },
            None => {},
        }
        i += 1;
    }
    proof {
        assert(all.take(subdivisions.len() as int) == all);
    }
    codes
}

/// The English name of a city entry.
pub fn english_name(city: &Option<City>) -> (name: Option<Arc<str>>)
    ensures
        shared_text_view(name) == city_of(entry_view(*city)),
{
    match city {
        Some(entry) => match &entry.names {
            Some(names) => match names.get("en") {
                Some(value) => Some(share(value.as_str())),
                None => None,
            },
            None => None,
        },
        None => None,
    }
}

/// Flattens a record: each field of the result comes from the entry of the
/// same name and from nothing else, and a missing link anywhere on the way
/// leaves the field absent.
pub fn normalize(record: CityRecord) -> (data: GeoData)
    ensures
        data@ == normalized(record@),
{
    let city = english_name(&record.city);
    let region = match &record.subdivisions {
        Some(list) => Some(region_codes(list)),
        None => None,
    };
    let continent = match record.continent {
        Some(c) => share_text(c.code),
        None => None,
    };
    let country = match record.country {
        Some(c) => share_text(c.iso_code),
        None => None,
    };
    GeoData { continent, country, region, city }
}

/// Each field of the flat result depends on the entry of the same name
/// alone: two records that agree on an entry agree on its field, whatever
/// their other entries hold.
pub proof fn lemma_fields_independent(one: CityRecordView, other: CityRecordView)
    ensures
        one.continent == other.continent ==> normalized(one).continent == normalized(
            other,
        ).continent,
        one.country == other.country ==> normalized(one).country == normalized(other).country,
        one.subdivisions == other.subdivisions ==> normalized(one).region == normalized(
            other,
        ).region,
        one.city == other.city ==> normalized(one).city == normalized(other).city,
{
}

/// A field of the flat result is present exactly if every link on the way
/// to it is: the continent entry and its code, the country entry and its
/// code, the subdivision list, and the city entry, its name table and the
/// English key in the table.
pub proof fn lemma_field_presence(record: CityRecordView)
    ensures
        normalized(record).continent is Some <==> record.continent is Some
            && record.continent->0.code is Some,
        normalized(record).country is Some <==> record.country is Some
            && record.country->0.iso_code is Some,
        normalized(record).region is Some <==> record.subdivisions is Some,
        normalized(record).city is Some <==> record.city is Some && record.city->0.names is Some
            && record.city->0.names->0.contains_key(english()),
{
}

/// A city entry whose name table lacks the English key, a city entry
/// without a name table and a missing city entry all give the same: no city
/// name.
pub proof fn lemma_city_fallback(names: Map<Seq<char>, Seq<char>>)
    requires
        !names.contains_key(english()),
    ensures
        city_of(Some(CityView { names: Some(names) })) == None::<Seq<char>>,
        city_of(Some(CityView { names: None })) == None::<Seq<char>>,
        city_of(None) == None::<Seq<char>>,
{
}

/// The codes of a list in two pieces are the codes of the first piece
/// followed by the codes of the second: the order of the list is kept.
pub proof fn lemma_codes_keep_order(first: Seq<SubdivisionView>, second: Seq<SubdivisionView>)
    ensures
        codes_of(first + second) == codes_of(first) + codes_of(second),
    decreases second.len(),
{
    let code = |s: SubdivisionView| s.iso_code;
    if second.len() == 0 {
        assert(first + second == first);
        assert(codes_of(second) == Seq::<Seq<char>>::empty());
    } else {
        lemma_codes_keep_order(first, second.drop_last());
        assert((first + second).drop_last() == first + second.drop_last());
        assert((first + second).last() == second.last());
        match second.last().iso_code {
            Some(c) => {
                assert(codes_of(first + second) == codes_of(first + second.drop_last()) + seq![c]);
                assert(codes_of(second) == codes_of(second.drop_last()) + seq![c]);
            },
            None => {},
        }
    }
}

/// A single subdivision gives its code where it has one, and nothing where
/// it has none: it is dropped, not replaced.
pub proof fn lemma_codes_of_one(subdivision: SubdivisionView)
    ensures
        codes_of(seq![subdivision]) == match subdivision.iso_code {
            Some(code) => seq![code],
            None => Seq::<Seq<char>>::empty(),
        },
{
    Seq::lemma_filter_map_singleton(subdivision, |s: SubdivisionView| s.iso_code);
}

} // verus!
