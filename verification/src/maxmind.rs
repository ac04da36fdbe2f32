use crate::address::IpAddress;
use crate::geo_data::{GeoData, GeoDataView, GeoIpReader};
use crate::names::{entries_map, entries_view, NameTable};
use crate::record::{
    entry_view, list_view, normalize, normalized, subdivisions_view, City, CityRecord,
    CityRecordView, CityView, Continent, ContinentView, Country, CountryView, Subdivision,
    SubdivisionView,
};
use bytes::Bytes;
use maxminddb::{geoip2, MaxMindDbError, PathElement, Reader};
use std::collections::BTreeMap;
use std::sync::Arc;
use vstd::prelude::*;
use vstd::std_specs::convert::FromSpecImpl;

verus! {

#[verifier::external_type_specification]
#[verifier::external_body]
pub struct ExBytes(Bytes);

#[verifier::external_type_specification]
#[verifier::external_body]
pub struct ExMaxMindDbError(MaxMindDbError);

/// A resolver backed by a MaxMind database image held in memory. The image
/// is never changed after loading. The engine's reader is kept out of the
/// verifier's sight: all that is known of it is the image it holds.
#[verifier::external_body]
#[derive(Debug)]
pub struct MaxMindGeoIpReader {
    reader: Arc<Reader<Bytes>>,
}

/// How loading a database or looking an address up in it fails.
#[derive(Debug)]
pub enum MaxMindGeoIpError {
    /// The database engine reported a fault.
    MaxMindDB(MaxMindDbError),
}

impl From<MaxMindDbError> for MaxMindGeoIpError {
    fn from(fault: MaxMindDbError) -> (error: Self) {
        MaxMindGeoIpError::MaxMindDB(fault)
    }
}

impl FromSpecImpl<MaxMindDbError> for MaxMindGeoIpError {
    open spec fn obeys_from_spec() -> bool {
        true
    }

    open spec fn from_spec(fault: MaxMindDbError) -> Self {
        MaxMindGeoIpError::MaxMindDB(fault)
    }
}

/// The bytes that a buffer holds.
pub uninterp spec fn buffer_bytes(buffer: Bytes) -> Seq<u8>;

/// The database image that a reader holds.
pub uninterp spec fn reader_image(reader: MaxMindGeoIpReader) -> Seq<u8>;

/// Whether the engine finds a record for `addr` in `image`, or `None` where
/// it fails to look `addr` up.
pub uninterp spec fn engine_has_data(image: Seq<u8>, addr: IpAddress) -> Option<bool>;

/// The continent entry that the engine reads for `addr` in `image`: `None`
/// where the engine fails, `Some(None)` where it finds no such entry.
pub uninterp spec fn engine_continent(image: Seq<u8>, addr: IpAddress) -> Option<
    Option<ContinentView>,
>;

/// The country entry that the engine reads for `addr` in `image`: `None`
/// where the engine fails, `Some(None)` where it finds no such entry.
pub uninterp spec fn engine_country(image: Seq<u8>, addr: IpAddress) -> Option<
    Option<CountryView>,
>;

/// The subdivision list that the engine reads for `addr` in `image`: `None`
/// where the engine fails, `Some(None)` where it finds no such list.
pub uninterp spec fn engine_subdivisions(image: Seq<u8>, addr: IpAddress) -> Option<
    Option<Seq<SubdivisionView>>,
>;

/// The city entry that the engine reads for `addr` in `image`, as the
/// entries of its name table where it has one: `None` where the engine
/// fails, `Some(None)` where it finds no city entry.
pub uninterp spec fn engine_city(image: Seq<u8>, addr: IpAddress) -> Option<
    Option<Option<Seq<(Seq<char>, Seq<char>)>>>,
>;

/// The byte sequence that stands before the metadata of a database image.
pub open spec fn metadata_marker() -> Seq<u8> {
    seq![0xab, 0xcd, 0xef, 0x4d, 0x61, 0x78, 0x4d, 0x69, 0x6e, 0x64, 0x2e, 0x63, 0x6f, 0x6d]
}

/// Whether the marker occurs anywhere in `image`.
pub open spec fn has_metadata_marker(image: Seq<u8>) -> bool {
    exists|at: int|
        0 <= at && at + metadata_marker().len() <= image.len() && #[trigger] image.subrange(
            at,
            at + metadata_marker().len(),
        ) == metadata_marker()
}

/// `maxminddb::Reader::from_source` on `buffer`. A reader that it returns
/// holds the bytes of the buffer, and a buffer without the metadata marker
/// is refused. On which other buffers it fails is left open.
#[verifier::external_body]
fn open_image(buffer: Bytes) -> (opened: Result<MaxMindGeoIpReader, MaxMindDbError>)
    ensures
        opened matches Ok(reader) ==> reader_image(reader) == buffer_bytes(buffer),
        !has_metadata_marker(buffer_bytes(buffer)) ==> opened is Err,
{
    Ok(MaxMindGeoIpReader { reader: Arc::new(Reader::from_source(buffer)?) })
}

/// `Reader::lookup` of `addr`, then `LookupResult::has_data`. The outcome
/// depends on the image and the address alone.
#[verifier::external_body]
fn has_data(reader: &MaxMindGeoIpReader, addr: IpAddress) -> (found: Result<bool, MaxMindDbError>)
    ensures
        engine_has_data(reader_image(*reader), addr) == match found {
            Ok(yes) => Some(yes),
            Err(_) => None,
        },
{
    let ip = match addr {
        IpAddress::V4(octets) => octets.into(),
        IpAddress::V6(octets) => octets.into(),
    };
    Ok(reader.reader.lookup(ip)?.has_data())
}

/// `Reader::lookup` of `addr`, then `LookupResult::decode_path` of the key
/// `continent` as a `geoip2::city::Continent`, of which the code is kept.
/// The outcome depends on the image and the address alone.
#[verifier::external_body]
fn read_continent(reader: &MaxMindGeoIpReader, addr: IpAddress) -> (part: Result<
    Option<Continent>,
    MaxMindDbError,
>)
    ensures
        engine_continent(reader_image(*reader), addr) == match part {
            Ok(Some(entry)) => Some(Some(entry@)),
            Ok(None) => Some(None),
            Err(_) => None,
        },
{
    let ip = match addr {
        IpAddress::V4(octets) => octets.into(),
        IpAddress::V6(octets) => octets.into(),
    };
    let found = reader.reader.lookup(ip)?;
    let entry = found.decode_path::<geoip2::city::Continent>(&[PathElement::Key("continent")])?;
    Ok(entry.map(|c| Continent { code: c.code.map(String::from) }))
}

/// `Reader::lookup` of `addr`, then `LookupResult::decode_path` of the key
/// `country` as a `geoip2::city::Country`, of which the ISO code is kept.
/// The outcome depends on the image and the address alone.
#[verifier::external_body]
fn read_country(reader: &MaxMindGeoIpReader, addr: IpAddress) -> (part: Result<
    Option<Country>,
    MaxMindDbError,
>)
    ensures
        engine_country(reader_image(*reader), addr) == match part {
            Ok(Some(entry)) => Some(Some(entry@)),
            Ok(None) => Some(None),
            Err(_) => None,
        },
{
    let ip = match addr {
        IpAddress::V4(octets) => octets.into(),
        IpAddress::V6(octets) => octets.into(),
    };
    let found = reader.reader.lookup(ip)?;
    let entry = found.decode_path::<geoip2::city::Country>(&[PathElement::Key("country")])?;
    Ok(entry.map(|c| Country { iso_code: c.iso_code.map(String::from) }))
}

/// `Reader::lookup` of `addr`, then `LookupResult::decode_path` of the key
/// `subdivisions` as a list of `geoip2::city::Subdivision`, of each of which
/// the ISO code is kept, in the order of the list. The outcome depends on
/// the image and the address alone.
#[verifier::external_body]
fn read_subdivisions(reader: &MaxMindGeoIpReader, addr: IpAddress) -> (part: Result<
    Option<Vec<Subdivision>>,
    MaxMindDbError,
>)
    ensures
        engine_subdivisions(reader_image(*reader), addr) == match part {
            Ok(Some(list)) => Some(Some(subdivisions_view(list@))),
            Ok(None) => Some(None),
            Err(_) => None,
        },
{
    let ip = match addr {
        IpAddress::V4(octets) => octets.into(),
        IpAddress::V6(octets) => octets.into(),
    };
    let found = reader.reader.lookup(ip)?;
    let list = found
        .decode_path::<Vec<geoip2::city::Subdivision>>(&[PathElement::Key("subdivisions")])?;
    Ok(list.map(|l| {
        l.into_iter().map(|s| Subdivision { iso_code: s.iso_code.map(String::from) }).collect()
    }))
}

/// `Reader::lookup` of `addr`, then `LookupResult::decode_path` twice: of
/// the key `city`, to learn whether there is a city entry, and of the keys
/// `city`, `names` as a map from strings to strings, whose entries are kept
/// in the order of their keys. The outcome depends on the image and the
/// address alone.
#[verifier::external_body]
fn read_city(reader: &MaxMindGeoIpReader, addr: IpAddress) -> (part: Result<
    Option<Option<Vec<(String, String)>>>,
    MaxMindDbError,
>)
    ensures
        engine_city(reader_image(*reader), addr) == match part {
            Ok(Some(Some(names))) => Some(Some(Some(entries_view(names@)))),
            Ok(Some(None)) => Some(Some(None)),
            Ok(None) => Some(None),
            Err(_) => None,
        },
{
    let ip = match addr {
        IpAddress::V4(octets) => octets.into(),
        IpAddress::V6(octets) => octets.into(),
    };
    let found = reader.reader.lookup(ip)?;
    let entry = found.decode_path::<geoip2::city::City>(&[PathElement::Key("city")])?;
    let names = found
        .decode_path::<BTreeMap<String, String>>(&[PathElement::Key("city"), PathElement::Key("names")])?;
    Ok(entry.map(|_| names.map(|table| table.into_iter().collect())))
}

/// The name table of a city entry that may be missing, as the entries that
/// bind it.
pub open spec fn names_view(city: Option<Option<Vec<(String, String)>>>) -> Option<
    Option<Seq<(Seq<char>, Seq<char>)>>,
> {
    match city {
        Some(Some(names)) => Some(Some(entries_view(names@))),
        Some(None) => Some(None),
        None => None,
    }
}

/// The record that the four parts make.
pub open spec fn assembled(
    continent: Option<ContinentView>,
    country: Option<CountryView>,
    subdivisions: Option<Seq<SubdivisionView>>,
    city: Option<Option<Seq<(Seq<char>, Seq<char>)>>>,
) -> CityRecordView {
    CityRecordView {
        continent,
        country,
        subdivisions,
        city: match city {
            Some(Some(names)) => Some(CityView { names: Some(entries_map(names)) }),
            Some(None) => Some(CityView { names: None }),
            None => None,
        },
    }
}

/// The record that the engine reads for `addr` in `image`, or `None` where
/// the engine fails. An address for which the engine finds nothing has the
/// record without entries.
pub open spec fn engine_record(image: Seq<u8>, addr: IpAddress) -> Option<CityRecordView> {
    match engine_has_data(image, addr) {
        Some(true) => match (
            engine_continent(image, addr),
            engine_country(image, addr),
            engine_subdivisions(image, addr),
            engine_city(image, addr),
        ) {
            (Some(continent), Some(country), Some(subdivisions), Some(city)) => Some(
                assembled(continent, country, subdivisions, city),
            ),
            _ => None,
        },
        Some(false) => Some(CityRecordView::empty()),
        None => None,
    }
}

/// The fault of the first part that failed, in the order continent, country,
/// subdivisions, city.
pub open spec fn first_fault(
    continent: Result<Option<Continent>, MaxMindDbError>,
    country: Result<Option<Country>, MaxMindDbError>,
    subdivisions: Result<Option<Vec<Subdivision>>, MaxMindDbError>,
    city: Result<Option<Option<Vec<(String, String)>>>, MaxMindDbError>,
) -> Option<MaxMindDbError> {
    match (continent, country, subdivisions, city) {
        (Err(fault), _, _, _) => Some(fault),
        (_, Err(fault), _, _) => Some(fault),
        (_, _, Err(fault), _) => Some(fault),
        (_, _, _, Err(fault)) => Some(fault),
        _ => None,
    }
}

/// Puts the four parts that the engine gave together. The record is there
/// exactly if no part failed; else the first fault is handed on unchanged.
pub fn record_from_parts(
    continent: Result<Option<Continent>, MaxMindDbError>,
    country: Result<Option<Country>, MaxMindDbError>,
    subdivisions: Result<Option<Vec<Subdivision>>, MaxMindDbError>,
    city: Result<Option<Option<Vec<(String, String)>>>, MaxMindDbError>,
) -> (out: Result<CityRecord, MaxMindGeoIpError>)
    ensures
        match first_fault(continent, country, subdivisions, city) {
            Some(fault) => out == Err::<CityRecord, _>(MaxMindGeoIpError::MaxMindDB(fault)),
            None => out matches Ok(record) && record@ == assembled(
                entry_view(continent->Ok_0),
                entry_view(country->Ok_0),
                list_view(subdivisions->Ok_0),
                names_view(city->Ok_0),
            ),
        },
{
    let continent = match continent {
        Ok(entry) => entry,
        Err(fault) => {
            return Err(MaxMindGeoIpError::from(fault));
        },
    };
    let country = match country {
        Ok(entry) => entry,
        Err(fault) => {
            return Err(MaxMindGeoIpError::from(fault));
        },
    };
    let subdivisions = match subdivisions {
        Ok(list) => list,
        Err(fault) => {
            return Err(MaxMindGeoIpError::from(fault));
        },
    };
    let city = match city {
        Ok(Some(Some(names))) => Some(City { names: Some(NameTable::from_entries(names)) }),
        Ok(Some(None)) => Some(City { names: None }),
        Ok(None) => None,
        Err(fault) => {
            return Err(MaxMindGeoIpError::from(fault));
        },
    };
    Ok(CityRecord { continent, country, subdivisions, city })
}

impl MaxMindGeoIpReader {
    /// The database image that this resolver answers from.
    pub open spec fn image(&self) -> Seq<u8> {
        reader_image(*self)
    }

    /// Loads a database from a buffer that holds a complete image. Either
    /// the whole load succeeds, and the resolver answers from the bytes of
    /// the buffer, or it fails and leaves no resolver behind. A buffer
    /// without the metadata marker always fails.
    pub fn from_buffer(buffer: Bytes) -> (loaded: Result<Self, MaxMindGeoIpError>)
        ensures
            loaded matches Ok(resolver) ==> resolver.image() == buffer_bytes(buffer),
            !has_metadata_marker(buffer_bytes(buffer)) ==> loaded is Err,
    {
        Self::from_opened(open_image(buffer))
    }

    /// What a load returns for what the engine made of the buffer: the
    /// resolver that it opened, as it is, or its fault, unchanged, as the
    /// error of the load.
    pub fn from_opened(opened: Result<Self, MaxMindDbError>) -> (loaded: Result<
        Self,
        MaxMindGeoIpError,
    >)
        ensures
            loaded == match opened {
                Ok(resolver) => Ok::<Self, MaxMindGeoIpError>(resolver),
                Err(fault) => Err(MaxMindGeoIpError::MaxMindDB(fault)),
            },
    {
        match opened {
            Ok(resolver) => Ok(resolver),
            Err(fault) => Err(MaxMindGeoIpError::from(fault)),
        }
    }

    /// Reads the record of `addr`. Where the database has nothing for
    /// `addr`, that is the record without entries; else the four parts are
    /// read and put together. It fails exactly if the engine does.
    pub fn lookup_record(&self, addr: IpAddress) -> (out: Result<CityRecord, MaxMindGeoIpError>)
        ensures
            match out {
                Ok(record) => engine_record(self.image(), addr) == Some(record@),
                Err(_) => engine_record(self.image(), addr) is None,
            },
    {
        match has_data(self, addr) {
            Ok(true) => {
                let continent = read_continent(self, addr);
                let country = read_country(self, addr);
                let subdivisions = read_subdivisions(self, addr);
                let city = read_city(self, addr);
                record_from_parts(continent, country, subdivisions, city)
            },
            Ok(false) => Ok(CityRecord::empty()),
            Err(fault) => Err(MaxMindGeoIpError::from(fault)),
        }
    }
}

impl GeoIpReader for MaxMindGeoIpReader {
    type Error = MaxMindGeoIpError;

    /// The flat form of the record that the engine reads for `addr`.
    open spec fn resolves(&self, addr: IpAddress) -> Option<GeoDataView> {
        match engine_record(self.image(), addr) {
            Some(record) => Some(normalized(record)),
            None => None,
        }
    }

    /// Looks `addr` up in the database and flattens the record. It fails
    /// exactly if the engine fails. An address for which the database has
    /// nothing is no failure: its record has no entry, and so the result
    /// has no field.
    fn lookup_geo_data(&self, addr: IpAddress) -> (out: Result<GeoData, MaxMindGeoIpError>) {
        match self.lookup_record(addr) {
            Ok(record) => Ok(normalize(record)),
            Err(error) => Err(error),
        }
    }
}

/// An address for which the database has nothing is no failure: its lookup
/// succeeds, and no field of the result is present.
pub proof fn lemma_no_data_is_no_error(resolver: MaxMindGeoIpReader, addr: IpAddress)
    ensures
        engine_has_data(resolver.image(), addr) == Some(false) ==> resolver.resolves(addr)
            == Some(GeoDataView::absent()),
{
}

} // verus!
