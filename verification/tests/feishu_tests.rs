use rddns::feishu::FeishuNotifier;
use rddns::net::Ipv4;
use rddns::notify::{NotificationEvent, NotificationOverallStatus};
use rddns::records::{DnsRecordType, SyncRecordResult, SyncStatus};

fn payload_of(event: &NotificationEvent) -> (serde_json::Value, String) {
    let text = FeishuNotifier::build_card_payload(event).to_text();
    let value: serde_json::Value = serde_json::from_str(&text).expect("valid JSON");
    (value, text)
}

#[test]
fn test_build_card_payload_success() {
    let result1 = SyncRecordResult {
        domain: "test4.mangerle.cn".to_string(),
        record_type: DnsRecordType::A,
        target_ip: "13.115.228.110".to_string(),
        status: SyncStatus::Updated,
        message: "通知通道测试消息（真实 IPv4 数据）".to_string(),
    };
    let result2 = SyncRecordResult {
        domain: "test.mangerle.cn".to_string(),
        record_type: DnsRecordType::AAAA,
        target_ip: "::1".to_string(),
        status: SyncStatus::Updated,
        message: "通知通道测试消息（真实 IPv6 数据）".to_string(),
    };

    let event = NotificationEvent {
        overall_status: NotificationOverallStatus::Success,
        task_name: "腾讯云".to_string(),
        ipv4: Some(Ipv4::new(13, 115, 228, 110)),
        ipv6: None,
        ip_changed: true,
        results: vec![result1, result2],
        timestamp_text: "2024-05-01 12:00:00".to_string(),
        timestamp_unix: 1714536000,
    };

    let (payload, card_json) = payload_of(&event);
    assert_eq!(payload["msg_type"], "interactive");
    assert_eq!(payload["card"]["schema"], "2.0");
    assert_eq!(payload["card"]["header"]["template"], "green");
    assert_eq!(
        payload["card"]["header"]["title"]["content"],
        "rddns 动态域名解析通知"
    );

    assert!(card_json.contains("腾讯云"));
    assert!(card_json.contains("全部同步成功"));
    assert!(card_json.contains("13.115.228.110"));
    assert!(card_json.contains("未获取 / 未启用"));
    assert!(card_json.contains("test4.mangerle.cn"));
    assert!(card_json.contains("\"table\""));
    assert!(card_json.contains("更新"));
}

#[test]
fn test_build_card_payload_failed() {
    let result = SyncRecordResult {
        domain: "fail.example.com".to_string(),
        record_type: DnsRecordType::A,
        target_ip: "1.2.3.4".to_string(),
        status: SyncStatus::Failed,
        message: "认证失败".to_string(),
    };

    let event = NotificationEvent {
        overall_status: NotificationOverallStatus::Failed,
        task_name: "阿里云".to_string(),
        ipv4: None,
        ipv6: None,
        ip_changed: false,
        results: vec![result],
        timestamp_text: "2024-05-01 12:00:00".to_string(),
        timestamp_unix: 1714536000,
    };

    let (payload, card_json) = payload_of(&event);
    assert_eq!(payload["card"]["header"]["template"], "red");
    assert!(card_json.contains("同步出现错误"));
    assert!(card_json.contains("失败"));
}

#[test]
fn card_table_has_one_row_per_result_and_a_minimum_page_size() {
    let mk = |d: &str, s: SyncStatus| SyncRecordResult {
        domain: d.to_string(),
        record_type: DnsRecordType::AAAA,
        target_ip: "2408::1".to_string(),
        status: s,
        message: "m".to_string(),
    };
    let event = NotificationEvent {
        overall_status: NotificationOverallStatus::PartialSuccess,
        task_name: "t".to_string(),
        ipv4: None,
        ipv6: None,
        ip_changed: true,
        results: vec![mk("a.example.com", SyncStatus::Created), mk("b.example.com", SyncStatus::Unchanged)],
        timestamp_text: "2024-05-01 12:00:00".to_string(),
        timestamp_unix: 0,
    };
    let (payload, _) = payload_of(&event);
    assert_eq!(payload["card"]["header"]["template"], "orange");
    let table = &payload["card"]["body"]["elements"][4];
    assert_eq!(table["tag"], "table");
    assert_eq!(table["page_size"], 5);
    assert_eq!(table["rows"].as_array().unwrap().len(), 2);
    assert_eq!(table["rows"][0]["status"], "<font color='green'>新建</font>");
    assert_eq!(table["rows"][1]["status"], "<font color='grey'>保持</font>");
    assert_eq!(table["rows"][1]["record_type"], "AAAA");
    assert_eq!(
        payload["card"]["body"]["elements"][1]["text"]["content"],
        "**IPv4 地址**：未获取 / 未启用\n**IPv6 地址**：未获取 / 未启用\n**触发时间**：2024-05-01 12:00:00"
    );
}

#[test]
fn signed_card_carries_time_and_signature_only_with_secret() {
    let event = NotificationEvent {
        overall_status: NotificationOverallStatus::Success,
        task_name: "t".to_string(),
        ipv4: None,
        ipv6: None,
        ip_changed: false,
        results: vec![],
        timestamp_text: "2024-05-01 12:00:00".to_string(),
        timestamp_unix: 1714536000,
    };
    let plain = FeishuNotifier::new(rddns::config::FeishuConfig { enabled: true, webhook_url: "u".to_string(), secret: None });
    let v: serde_json::Value = serde_json::from_str(&plain.signed_payload(&event, 1714536000).to_text()).unwrap();
    assert!(v.get("sign").is_none());
    let signed = FeishuNotifier::new(rddns::config::FeishuConfig {
        enabled: true,
        webhook_url: "u".to_string(),
        secret: Some(" s ".to_string()),
    });
    let v: serde_json::Value = serde_json::from_str(&signed.signed_payload(&event, 1714536000).to_text()).unwrap();
    assert_eq!(v["timestamp"], "1714536000");
    assert_eq!(v["sign"].as_str().unwrap().len(), 44);
    assert_eq!(v["msg_type"], "interactive");
}
