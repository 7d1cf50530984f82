use rddns::mail::EmailNotifier;
use rddns::net::Ipv4;
use rddns::notify::{NotificationEvent, NotificationOverallStatus};
use rddns::records::{DnsRecordType, SyncRecordResult, SyncStatus};

#[test]
fn mail_page_holds_the_event() {
    let event = NotificationEvent {
        overall_status: NotificationOverallStatus::PartialSuccess,
        task_name: "home".to_string(),
        ipv4: Some(Ipv4::new(1, 2, 3, 4)),
        ipv6: None,
        ip_changed: true,
        results: vec![
            SyncRecordResult {
                domain: "a.example.com".to_string(),
                record_type: DnsRecordType::A,
                target_ip: "1.2.3.4".to_string(),
                status: SyncStatus::Created,
                message: "ok".to_string(),
            },
            SyncRecordResult {
                domain: "b.example.com".to_string(),
                record_type: DnsRecordType::AAAA,
                target_ip: "::1".to_string(),
                status: SyncStatus::Failed,
                message: "boom".to_string(),
            },
        ],
        timestamp_text: "2024-05-01 12:00:00".to_string(),
        timestamp_unix: 0,
    };
    let html = EmailNotifier::render_html(&event);
    assert!(html.starts_with("<!DOCTYPE html>"));
    assert!(html.ends_with("</html>"));
    assert!(html.contains("● 状态: 部分解析失败"));
    assert!(html.contains("background:#fffbeb;border:1px solid #fde68a"));
    assert!(html.contains("<strong>home</strong>"));
    assert!(html.contains(">1.2.3.4</div>"));
    assert!(html.contains(">未获取 / 未启用</div>"));
    assert!(html.contains("2024-05-01 12:00:00"));
    assert!(html.contains(">已新增</span>"));
    assert!(html.contains(">同步失败</span>"));
    assert!(html.find("a.example.com").unwrap() < html.find("b.example.com").unwrap());
    assert_eq!(html.matches("<tr>").count(), 2 + 9);
    assert_eq!(EmailNotifier::subject(&event), "[rddns] 动态域名解析通知 - 部分成功");
}
