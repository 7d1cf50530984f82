use rddns::records::{sanitize_sensitive_url_params, DnsRecordType, SyncRecordResult, SyncStatus};

#[test]
fn test_sanitize_sensitive_url_params() {
    let raw_err = "error sending request for url (https://www.namesilo.com/api/dnsListRecords?version=1&type=xml&key=secret123456&domain=example.com): operation timed out";
    let sanitized = sanitize_sensitive_url_params(raw_err);
    assert!(!sanitized.contains("secret123456"));
    assert!(sanitized.contains("key=******"));

    let raw_nc = "https://dynamicdns.park-your-domain.com/update?host=@&domain=test.com&password=my_password_xyz&ip=1.1.1.1";
    let sanitized_nc = sanitize_sensitive_url_params(raw_nc);
    assert!(!sanitized_nc.contains("my_password_xyz"));
    assert!(sanitized_nc.contains("password=******"));
}

#[test]
fn test_sync_record_result_constructors() {
    let res_unchanged = SyncRecordResult::unchanged("example.com", DnsRecordType::A, "1.1.1.1");
    assert_eq!(res_unchanged.status, SyncStatus::Unchanged);
    assert_eq!(res_unchanged.domain, "example.com");

    let res_updated = SyncRecordResult::updated("example.com", DnsRecordType::A, "1.1.1.2");
    assert_eq!(res_updated.status, SyncStatus::Updated);

    let res_created = SyncRecordResult::created("example.com", DnsRecordType::AAAA, "::1");
    assert_eq!(res_created.status, SyncStatus::Created);

    let res_unchanged_log =
        SyncRecordResult::unchanged_log("TestProvider", "example.com", DnsRecordType::A, "1.1.1.1");
    assert_eq!(res_unchanged_log.status, SyncStatus::Unchanged);

    let res_updated_log =
        SyncRecordResult::updated_log("TestProvider", "example.com", DnsRecordType::A, "1.1.1.2");
    assert_eq!(res_updated_log.status, SyncStatus::Updated);

    let res_created_log =
        SyncRecordResult::created_log("TestProvider", "example.com", DnsRecordType::AAAA, "::1");
    assert_eq!(res_created_log.status, SyncStatus::Created);

    let res_failed = SyncRecordResult::failed("example.com", DnsRecordType::A, "1.1.1.1", "网络超时");
    assert_eq!(res_failed.status, SyncStatus::Failed);
    assert_eq!(res_failed.message, "网络超时");
}
