use bubble_flexrouter::dns_cache::{complete_miss, first_record, DnsCache, DnsResolveError};

#[test]
fn miss_then_hit() {
    let mut cache = DnsCache::new();
    let host = String::from("example.com");
    assert!(cache.lookup(&host).is_none());
    cache.store(&host, &String::from("93.184.216.34"));
    assert_eq!(cache.lookup(&host).unwrap(), "93.184.216.34");
}

#[test]
fn later_store_overwrites() {
    let mut cache = DnsCache::new();
    let host = String::from("example.com");
    cache.store(&host, &String::from("93.184.216.34"));
    cache.store(&host, &String::from("93.184.216.35"));
    assert_eq!(cache.lookup(&host).unwrap(), "93.184.216.35");
}

#[test]
fn first_record_wins() {
    let records = vec![String::from("93.184.216.34"), String::from("93.184.216.35")];
    assert_eq!(first_record(&records).unwrap(), "93.184.216.34");
}

#[test]
fn no_records_is_an_error() {
    let records: Vec<String> = Vec::new();
    assert!(matches!(
        first_record(&records),
        Err(DnsResolveError::DnsNoRecordsFound)
    ));
}

#[test]
fn complete_miss_remembers_first_record() {
    let mut cache = DnsCache::new();
    let host = String::from("example.com");
    let records = vec![String::from("93.184.216.34"), String::from("93.184.216.35")];
    let ip = complete_miss(&mut cache, &host, &records).unwrap();
    assert_eq!(ip, "93.184.216.34");
    assert_eq!(cache.lookup(&host).unwrap(), "93.184.216.34");
}

#[test]
fn complete_miss_with_no_records_changes_nothing() {
    let mut cache = DnsCache::new();
    let host = String::from("example.com");
    let records: Vec<String> = Vec::new();
    assert!(complete_miss(&mut cache, &host, &records).is_err());
    assert!(cache.lookup(&host).is_none());
}
