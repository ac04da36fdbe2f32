use bytes::Bytes;
use geoip::maxmind::record_from_parts;
use geoip::record::{normalize, Continent, Country, Subdivision};
use geoip::{GeoData, GeoIpReader, IpAddress, MaxMindGeoIpError, MaxMindGeoIpReader};
use maxminddb::MaxMindDbError;

const MARKER: &[u8] = b"\xab\xcd\xefMaxMind.com";

fn put_string(out: &mut Vec<u8>, text: &str) {
    assert!(text.len() < 29);
    out.push((2u8 << 5) | text.len() as u8);
    out.extend_from_slice(text.as_bytes());
}

fn put_map(out: &mut Vec<u8>, entries: u8) {
    assert!(entries < 29);
    out.push((7u8 << 5) | entries);
}

fn put_array(out: &mut Vec<u8>, items: u8) {
    assert!(items < 29);
    out.push(items);
    out.push(4);
}

fn put_u16(out: &mut Vec<u8>, value: u16) {
    out.push((5u8 << 5) | 2);
    out.extend_from_slice(&value.to_be_bytes());
}

fn put_u32(out: &mut Vec<u8>, value: u32) {
    out.push((6u8 << 5) | 4);
    out.extend_from_slice(&value.to_be_bytes());
}

fn put_u64(out: &mut Vec<u8>, value: u64) {
    out.push(8);
    out.push(2);
    out.extend_from_slice(&value.to_be_bytes());
}

fn metadata(ip_version: u16, node_count: u32, record_size: u16) -> Vec<u8> {
    let mut out: Vec<u8> = Vec::new();
    put_map(&mut out, 9);
    put_string(&mut out, "binary_format_major_version");
    put_u16(&mut out, 2);
    put_string(&mut out, "binary_format_minor_version");
    put_u16(&mut out, 0);
    put_string(&mut out, "build_epoch");
    put_u64(&mut out, 1_700_000_000);
    put_string(&mut out, "database_type");
    put_string(&mut out, "GeoIP2-City");
    put_string(&mut out, "description");
    put_map(&mut out, 1);
    put_string(&mut out, "en");
    put_string(&mut out, "hand-made city data");
    put_string(&mut out, "ip_version");
    put_u16(&mut out, ip_version);
    put_string(&mut out, "languages");
    put_array(&mut out, 2);
    put_string(&mut out, "de");
    put_string(&mut out, "en");
    put_string(&mut out, "node_count");
    put_u32(&mut out, node_count);
    put_string(&mut out, "record_size");
    put_u16(&mut out, record_size);
    out
}

#[derive(Clone, Copy)]
enum Target {
    Node(u32),
    Record(usize),
    Nothing,
}

fn image(ip_version: u16, nodes: &[(Target, Target)], records: &[Vec<u8>]) -> Vec<u8> {
    let node_count = nodes.len() as u32;
    let mut offsets: Vec<u32> = Vec::new();
    let mut data: Vec<u8> = Vec::new();
    for record in records {
        offsets.push(data.len() as u32);
        data.extend_from_slice(record);
    }
    let value = |target: Target| -> u32 {
        match target {
            Target::Node(n) => n,
            Target::Record(i) => node_count + 16 + offsets[i],
            Target::Nothing => node_count,
        }
    };
    let mut out: Vec<u8> = Vec::new();
    for (left, right) in nodes {
        out.extend_from_slice(&value(*left).to_be_bytes()[1..]);
        out.extend_from_slice(&value(*right).to_be_bytes()[1..]);
    }
    out.extend_from_slice(&[0u8; 16]);
    out.extend_from_slice(&data);
    out.extend_from_slice(MARKER);
    out.extend_from_slice(&metadata(ip_version, node_count, 24));
    out
}

/// Every entry present: 0.0.0.0/2.
fn record_full() -> Vec<u8> {
    let mut out: Vec<u8> = Vec::new();
    put_map(&mut out, 5);
    put_string(&mut out, "city");
    put_map(&mut out, 2);
    put_string(&mut out, "geoname_id");
    put_u32(&mut out, 2950159);
    put_string(&mut out, "names");
    put_map(&mut out, 3);
    put_string(&mut out, "de");
    put_string(&mut out, "Berlin (de)");
    put_string(&mut out, "en");
    put_string(&mut out, "Berlin");
    put_string(&mut out, "ja");
    put_string(&mut out, "ベルリン");
    put_string(&mut out, "continent");
    put_map(&mut out, 2);
    put_string(&mut out, "code");
    put_string(&mut out, "EU");
    put_string(&mut out, "geoname_id");
    put_u32(&mut out, 6255148);
    put_string(&mut out, "country");
    put_map(&mut out, 2);
    put_string(&mut out, "iso_code");
    put_string(&mut out, "DE");
    put_string(&mut out, "names");
    put_map(&mut out, 1);
    put_string(&mut out, "en");
    put_string(&mut out, "Germany");
    put_string(&mut out, "location");
    put_map(&mut out, 1);
    put_string(&mut out, "time_zone");
    put_string(&mut out, "Europe/Berlin");
    put_string(&mut out, "subdivisions");
    put_array(&mut out, 3);
    put_map(&mut out, 1);
    put_string(&mut out, "iso_code");
    put_string(&mut out, "BE");
    put_map(&mut out, 1);
    put_string(&mut out, "geoname_id");
    put_u32(&mut out, 5);
    put_map(&mut out, 2);
    put_string(&mut out, "geoname_id");
    put_u32(&mut out, 6);
    put_string(&mut out, "iso_code");
    put_string(&mut out, "X1");
    out
}

/// Entries that lack what is looked for inside them: 64.0.0.0/3.
fn record_hollow() -> Vec<u8> {
    let mut out: Vec<u8> = Vec::new();
    put_map(&mut out, 4);
    put_string(&mut out, "country");
    put_map(&mut out, 1);
    put_string(&mut out, "iso_code");
    put_string(&mut out, "SE");
    put_string(&mut out, "continent");
    put_map(&mut out, 1);
    put_string(&mut out, "geoname_id");
    put_u32(&mut out, 1);
    put_string(&mut out, "city");
    put_map(&mut out, 1);
    put_string(&mut out, "geoname_id");
    put_u32(&mut out, 7);
    put_string(&mut out, "subdivisions");
    put_array(&mut out, 0);
    out
}

/// A city with a German name only: 96.0.0.0/3.
fn record_german_city() -> Vec<u8> {
    let mut out: Vec<u8> = Vec::new();
    put_map(&mut out, 1);
    put_string(&mut out, "city");
    put_map(&mut out, 1);
    put_string(&mut out, "names");
    put_map(&mut out, 1);
    put_string(&mut out, "de");
    put_string(&mut out, "Köln");
    out
}

/// A country entry of the wrong shape: 128.0.0.0/2.
fn record_broken() -> Vec<u8> {
    let mut out: Vec<u8> = Vec::new();
    put_map(&mut out, 2);
    put_string(&mut out, "continent");
    put_map(&mut out, 1);
    put_string(&mut out, "code");
    put_string(&mut out, "AS");
    put_string(&mut out, "country");
    put_string(&mut out, "not a map");
    out
}

fn v4_image() -> Vec<u8> {
    image(
        4,
        &[
            (Target::Node(1), Target::Node(3)),
            (Target::Record(0), Target::Node(2)),
            (Target::Record(1), Target::Record(2)),
            (Target::Record(3), Target::Nothing),
        ],
        &[
            record_full(),
            record_hollow(),
            record_german_city(),
            record_broken(),
        ],
    )
}

fn v6_image() -> Vec<u8> {
    image(
        6,
        &[(Target::Record(0), Target::Nothing)],
        &[record_full()],
    )
}

fn load(bytes: Vec<u8>) -> MaxMindGeoIpReader {
    match MaxMindGeoIpReader::from_buffer(Bytes::from(bytes)) {
        Ok(reader) => reader,
        Err(MaxMindGeoIpError::MaxMindDB(fault)) => panic!("image refused: {}", fault),
    }
}

fn refused(bytes: Vec<u8>) -> MaxMindDbError {
    match MaxMindGeoIpReader::from_buffer(Bytes::from(bytes)) {
        Ok(_) => panic!("a reader came out of a bad image"),
        Err(MaxMindGeoIpError::MaxMindDB(fault)) => fault,
    }
}

fn v4(a: u8, b: u8, c: u8, d: u8) -> IpAddress {
    IpAddress::V4([a, b, c, d])
}

fn assert_all_absent(data: &GeoData) {
    assert_eq!(data.continent, None);
    assert_eq!(data.country, None);
    assert_eq!(data.region, None);
    assert_eq!(data.city, None);
}

#[test]
fn lookup_of_a_full_record() {
    let reader = load(v4_image());
    let data = reader.lookup_geo_data(v4(1, 2, 3, 4)).unwrap();
    assert_eq!(data.continent.as_deref(), Some("EU"));
    assert_eq!(data.country.as_deref(), Some("DE"));
    assert_eq!(data.region, Some(vec!["BE".to_string(), "X1".to_string()]));
    assert_eq!(data.city.as_deref(), Some("Berlin"));
}

#[test]
fn lookup_covers_the_whole_network_of_a_record() {
    let reader = load(v4_image());
    for addr in [v4(0, 0, 0, 0), v4(10, 9, 8, 7), v4(63, 255, 255, 255)] {
        let data = reader.lookup_geo_data(addr).unwrap();
        assert_eq!(data.city.as_deref(), Some("Berlin"));
        assert_eq!(data.country.as_deref(), Some("DE"));
    }
}

#[test]
fn lookup_record_shows_the_record_as_the_database_holds_it() {
    let reader = load(v4_image());
    let record = reader.lookup_record(v4(1, 2, 3, 4)).unwrap();
    assert_eq!(record.continent.unwrap().code.as_deref(), Some("EU"));
    assert_eq!(record.country.unwrap().iso_code.as_deref(), Some("DE"));
    let codes: Vec<Option<String>> = record
        .subdivisions
        .unwrap()
        .into_iter()
        .map(|s| s.iso_code)
        .collect();
    assert_eq!(
        codes,
        vec![Some("BE".to_string()), None, Some("X1".to_string())]
    );
    let names = record.city.unwrap().names.unwrap();
    assert_eq!(names.get("de").map(|n| n.as_str()), Some("Berlin (de)"));
    assert_eq!(names.get("en").map(|n| n.as_str()), Some("Berlin"));
    assert_eq!(names.get("ja").map(|n| n.as_str()), Some("ベルリン"));
    assert_eq!(names.get("fr"), None);
}

#[test]
fn lookup_of_a_record_with_hollow_entries() {
    let reader = load(v4_image());
    let data = reader.lookup_geo_data(v4(70, 1, 1, 1)).unwrap();
    assert_eq!(data.continent, None);
    assert_eq!(data.country.as_deref(), Some("SE"));
    assert_eq!(data.region, Some(Vec::<String>::new()));
    assert_eq!(data.city, None);
    let record = reader.lookup_record(v4(70, 1, 1, 1)).unwrap();
    assert!(record.continent.unwrap().code.is_none());
    assert!(record.city.unwrap().names.is_none());
    assert!(record.subdivisions.unwrap().is_empty());
}

#[test]
fn lookup_of_a_city_without_english_name() {
    let reader = load(v4_image());
    let data = reader.lookup_geo_data(v4(100, 1, 1, 1)).unwrap();
    assert_all_absent(&data);
    let record = reader.lookup_record(v4(100, 1, 1, 1)).unwrap();
    assert!(record.continent.is_none());
    assert!(record.country.is_none());
    assert!(record.subdivisions.is_none());
    let names = record.city.unwrap().names.unwrap();
    assert_eq!(names.get("de").map(|n| n.as_str()), Some("Köln"));
    assert_eq!(names.get("en"), None);
}

#[test]
fn address_without_data_is_no_error() {
    let reader = load(v4_image());
    for addr in [v4(200, 1, 1, 1), v4(192, 0, 0, 0), v4(255, 255, 255, 255)] {
        let data = reader.lookup_geo_data(addr).unwrap();
        assert_all_absent(&data);
        let record = reader.lookup_record(addr).unwrap();
        assert!(record.continent.is_none());
        assert!(record.country.is_none());
        assert!(record.subdivisions.is_none());
        assert!(record.city.is_none());
    }
}

#[test]
fn engine_fault_on_a_record_is_a_lookup_error() {
    let reader = load(v4_image());
    match reader.lookup_geo_data(v4(130, 1, 1, 1)) {
        Err(MaxMindGeoIpError::MaxMindDB(MaxMindDbError::Decoding { .. })) => {}
        other => panic!("expected a decoding fault, got {:?}", other),
    }
    assert!(reader.lookup_record(v4(130, 1, 1, 1)).is_err());
}

#[test]
fn a_lookup_error_leaves_the_reader_usable() {
    let reader = load(v4_image());
    assert!(reader.lookup_geo_data(v4(130, 1, 1, 1)).is_err());
    let data = reader.lookup_geo_data(v4(1, 2, 3, 4)).unwrap();
    assert_eq!(data.city.as_deref(), Some("Berlin"));
    assert!(reader.lookup_geo_data(v4(130, 1, 1, 1)).is_err());
}

#[test]
fn ipv6_address_in_an_ipv4_database_is_a_lookup_error() {
    let reader = load(v4_image());
    match reader.lookup_geo_data(IpAddress::V6([0; 16])) {
        Err(MaxMindGeoIpError::MaxMindDB(MaxMindDbError::InvalidInput { .. })) => {}
        other => panic!("expected an input fault, got {:?}", other),
    }
}

#[test]
fn lookups_in_an_ipv6_database() {
    let reader = load(v6_image());
    let mut low = [0u8; 16];
    low[15] = 1;
    let data = reader.lookup_geo_data(IpAddress::V6(low)).unwrap();
    assert_eq!(data.city.as_deref(), Some("Berlin"));
    assert_eq!(data.region, Some(vec!["BE".to_string(), "X1".to_string()]));
    let mut high = [0u8; 16];
    high[0] = 0x80;
    high[15] = 1;
    let data = reader.lookup_geo_data(IpAddress::V6(high)).unwrap();
    assert_all_absent(&data);
    let data = reader.lookup_geo_data(v4(9, 9, 9, 9)).unwrap();
    assert_eq!(data.country.as_deref(), Some("DE"));
}

#[test]
fn address_octets_are_read_in_network_order() {
    let reader = load(v4_image());
    let data = reader.lookup_geo_data(v4(1, 0, 0, 200)).unwrap();
    assert_eq!(data.country.as_deref(), Some("DE"));
    let data = reader.lookup_geo_data(v4(200, 0, 0, 1)).unwrap();
    assert_all_absent(&data);
}

#[test]
fn repeated_lookups_give_the_same_answer() {
    let reader = load(v4_image());
    for addr in [v4(1, 2, 3, 4), v4(70, 1, 1, 1), v4(100, 1, 1, 1), v4(200, 1, 1, 1)] {
        let first = reader.lookup_geo_data(addr).unwrap();
        let second = reader.lookup_geo_data(addr).unwrap();
        assert_eq!(first.continent, second.continent);
        assert_eq!(first.country, second.country);
        assert_eq!(first.region, second.region);
        assert_eq!(first.city, second.city);
    }
}

#[test]
fn two_readers_on_one_image_agree() {
    let one = load(v4_image());
    let other = load(v4_image());
    let a = one.lookup_geo_data(v4(70, 1, 1, 1)).unwrap();
    let b = other.lookup_geo_data(v4(70, 1, 1, 1)).unwrap();
    assert_eq!(a.country, b.country);
    assert_eq!(a.region, b.region);
}

#[test]
fn empty_buffer_is_refused() {
    match refused(Vec::new()) {
        MaxMindDbError::InvalidDatabase { .. } => {}
        other => panic!("expected an invalid database, got {:?}", other),
    }
}

#[test]
fn buffer_without_marker_is_refused() {
    match refused(vec![0x5a; 4096]) {
        MaxMindDbError::InvalidDatabase { .. } => {}
        other => panic!("expected an invalid database, got {:?}", other),
    }
    let mut bytes = v4_image();
    let at = bytes.len() - metadata(4, 4, 24).len() - MARKER.len();
    bytes[at] = 0;
    refused(bytes);
}

#[test]
fn marker_without_metadata_is_refused() {
    refused(MARKER.to_vec());
    let mut bytes = MARKER.to_vec();
    bytes.extend_from_slice(b"\xff\xff\xff\xff garbage");
    refused(bytes);
}

#[test]
fn every_truncation_of_an_image_is_refused() {
    let whole = v4_image();
    let mut keep: usize = 0;
    while keep < whole.len() {
        assert!(
            MaxMindGeoIpReader::from_buffer(Bytes::from(whole[..keep].to_vec())).is_err(),
            "a prefix of {} bytes was taken for a database",
            keep
        );
        keep += 1;
    }
    load(whole);
}

#[test]
fn search_tree_larger_than_the_buffer_is_refused() {
    let mut bytes: Vec<u8> = vec![0; 40];
    bytes.extend_from_slice(MARKER);
    bytes.extend_from_slice(&metadata(4, 1000, 24));
    refused(bytes);
}

#[test]
fn unknown_record_size_is_refused() {
    let mut bytes: Vec<u8> = vec![0; 64];
    bytes.extend_from_slice(MARKER);
    bytes.extend_from_slice(&metadata(4, 1, 20));
    refused(bytes);
}

#[test]
fn unknown_ip_version_is_refused() {
    let mut bytes: Vec<u8> = vec![0; 64];
    bytes.extend_from_slice(MARKER);
    bytes.extend_from_slice(&metadata(5, 1, 24));
    refused(bytes);
}

#[test]
fn data_pointer_outside_the_data_section_is_a_lookup_error() {
    let mut bytes = image(4, &[(Target::Record(0), Target::Nothing)], &[record_german_city()]);
    bytes[0] = 0x0f;
    let reader = load(bytes);
    assert!(reader.lookup_geo_data(v4(1, 1, 1, 1)).is_err());
    assert_all_absent(&reader.lookup_geo_data(v4(129, 1, 1, 1)).unwrap());
}

#[test]
fn record_cut_short_is_a_lookup_error() {
    let mut record = record_full();
    record.truncate(record.len() - 1);
    let reader = load(image(4, &[(Target::Record(0), Target::Nothing)], &[record]));
    assert!(reader.lookup_geo_data(v4(1, 1, 1, 1)).is_err());
}

fn fault(message: &str) -> MaxMindDbError {
    MaxMindDbError::invalid_input(message)
}

fn message_of(out: Result<geoip::record::CityRecord, MaxMindGeoIpError>) -> String {
    match out {
        Err(MaxMindGeoIpError::MaxMindDB(MaxMindDbError::InvalidInput { message })) => message,
        other => panic!("expected a fault, got {:?}", other),
    }
}

#[test]
fn parts_without_fault_make_a_record() {
    let record = record_from_parts(
        Ok(Some(Continent { code: Some("AF".to_string()) })),
        Ok(Some(Country { iso_code: None })),
        Ok(Some(vec![Subdivision { iso_code: Some("K".to_string()) }])),
        Ok(Some(Some(vec![
            ("en".to_string(), "old".to_string()),
            ("en".to_string(), "new".to_string()),
        ]))),
    )
    .unwrap();
    assert_eq!(record.continent.as_ref().unwrap().code.as_deref(), Some("AF"));
    assert!(record.country.as_ref().unwrap().iso_code.is_none());
    assert_eq!(record.subdivisions.as_ref().unwrap().len(), 1);
    let data = normalize(record);
    assert_eq!(data.continent.as_deref(), Some("AF"));
    assert_eq!(data.country, None);
    assert_eq!(data.region, Some(vec!["K".to_string()]));
    assert_eq!(data.city.as_deref(), Some("new"));
}

#[test]
fn absent_parts_make_an_empty_record() {
    let record = record_from_parts(Ok(None), Ok(None), Ok(None), Ok(None)).unwrap();
    assert!(record.continent.is_none());
    assert!(record.country.is_none());
    assert!(record.subdivisions.is_none());
    assert!(record.city.is_none());
    assert_all_absent(&normalize(record));
}

#[test]
fn city_part_without_names_makes_a_city_without_table() {
    let record = record_from_parts(Ok(None), Ok(None), Ok(None), Ok(Some(None))).unwrap();
    assert!(record.city.unwrap().names.is_none());
}

#[test]
fn the_first_fault_among_the_parts_is_handed_on() {
    assert_eq!(
        message_of(record_from_parts(Err(fault("a")), Err(fault("b")), Err(fault("c")), Err(fault("d")))),
        "a"
    );
    assert_eq!(
        message_of(record_from_parts(Ok(None), Err(fault("b")), Err(fault("c")), Err(fault("d")))),
        "b"
    );
    assert_eq!(
        message_of(record_from_parts(Ok(None), Ok(None), Err(fault("c")), Err(fault("d")))),
        "c"
    );
    assert_eq!(
        message_of(record_from_parts(Ok(None), Ok(None), Ok(None), Err(fault("d")))),
        "d"
    );
}

#[test]
fn error_is_made_from_the_engine_fault() {
    match MaxMindGeoIpError::from(fault("wrapped")) {
        MaxMindGeoIpError::MaxMindDB(MaxMindDbError::InvalidInput { message }) => {
            assert_eq!(message, "wrapped")
        }
        other => panic!("unexpected {:?}", other),
    }
}

#[test]
fn an_opened_reader_is_handed_on_as_it_is() {
    let reader = MaxMindGeoIpReader::from_opened(Ok(load(v4_image()))).unwrap();
    let data = reader.lookup_geo_data(v4(1, 2, 3, 4)).unwrap();
    assert_eq!(data.city.as_deref(), Some("Berlin"));
    assert_all_absent(&reader.lookup_geo_data(v4(200, 1, 1, 1)).unwrap());
}

#[test]
fn a_fault_of_opening_is_the_error_of_the_load() {
    match MaxMindGeoIpReader::from_opened(Err(fault("no database"))) {
        Err(MaxMindGeoIpError::MaxMindDB(MaxMindDbError::InvalidInput { message })) => {
            assert_eq!(message, "no database")
        }
        other => panic!("unexpected {:?}", other),
    }
}
