use rddns::config::{TelegramConfig, WebhookConfig};
use rddns::domain::ParsedDomain;
use rddns::engine::IpAddress;
use rddns::net::Ipv4;
use rddns::notify::{CustomWebhookNotifier, NotificationEvent, NotificationOverallStatus, TelegramNotifier};
use rddns::providers::{CallbackProvider, DnsProviderError, HttpReply};
use rddns::records::{DnsRecordType, SyncRecordResult, SyncStatus};
use rddns::text_map::TextMap;

fn event(task: &str, results: Vec<SyncRecordResult>) -> NotificationEvent {
    NotificationEvent {
        overall_status: NotificationOverallStatus::Success,
        task_name: task.to_string(),
        ipv4: Some(Ipv4::new(1, 2, 3, 4)),
        ipv6: None,
        ip_changed: true,
        results,
        timestamp_text: "2024-05-01 12:00:00".to_string(),
        timestamp_unix: 1714536000,
    }
}

#[test]
fn test_webhook_url_encoding() {
    let event = event("家庭网络", vec![]);

    let url_tmpl = "https://push.example.com/send?title=#{taskName}&desp=#{details}";
    let rendered_url = CustomWebhookNotifier::replace_template(url_tmpl, &event, true);
    assert!(!rendered_url.contains(' '));
    assert!(!rendered_url.contains("家庭网络"));
    assert!(rendered_url.contains("%E5%AE%B6%E5%BA%AD%E7%BD%91%E7%BB%9C"));

    let body_tmpl = "{\"msg\": \"#{taskName}\"}";
    let rendered_body = CustomWebhookNotifier::replace_template(body_tmpl, &event, false);
    assert!(rendered_body.contains("家庭网络"));
}

#[test]
fn webhook_template_fills_every_placeholder() {
    let event = event("t", vec![]);
    let out = CustomWebhookNotifier::replace_template(
        "#{status}|#{ipv4Addr}|#{ipv6Addr}|#{timestamp}|#{timeUnix}|#{status}",
        &event,
        false,
    );
    assert_eq!(out, "同步成功|1.2.3.4||2024-05-01 12:00:00|1714536000|同步成功");
    let encoded = CustomWebhookNotifier::replace_template("#{timestamp}", &event, true);
    assert_eq!(encoded, "2024-05-01+12%3A00%3A00");
}

#[test]
fn test_telegram_html_escape() {
    let result = SyncRecordResult {
        domain: "my_domain.com".to_string(),
        record_type: DnsRecordType::A,
        target_ip: "1.1.1.1".to_string(),
        status: SyncStatus::Failed,
        message: "错误: <API Error> & [400]".to_string(),
    };
    let mut event = event("home_nas_task <v1>", vec![result]);
    event.overall_status = NotificationOverallStatus::Failed;
    event.ipv4 = None;

    let escaped_task = TelegramNotifier::escape_html(&event.task_name);
    assert_eq!(escaped_task, "home_nas_task &lt;v1&gt;");

    let escaped_details = TelegramNotifier::escape_html(&event.format_details_text());
    assert!(escaped_details.contains("&lt;API Error&gt; &amp; [400]"));
}

#[test]
fn telegram_escape_covers_quotes() {
    assert_eq!(TelegramNotifier::escape_html("a\"b'c&"), "a&quot;b&#x27;c&amp;");
    let n = TelegramNotifier::new(TelegramConfig {
        enabled: true,
        bot_token: "t".to_string(),
        chat_id: "c".to_string(),
        api_proxy: None,
    });
    assert_eq!(n.config.chat_id, "c");
    let w = CustomWebhookNotifier::new(WebhookConfig {
        enabled: true,
        url: "u".to_string(),
        method: "GET".to_string(),
        headers: None,
        body: None,
    });
    assert_eq!(w.config.url, "u");
}

fn wildcard_domain() -> ParsedDomain {
    ParsedDomain {
        raw: "*.测试.example.com".to_string(),
        root_domain: "example.com".to_string(),
        sub_domain: "*.测试".to_string(),
        custom_params: TextMap::new(),
    }
}

#[test]
fn test_callback_replace_variables_url_encode() {
    let domain = wildcard_domain();
    let ip = IpAddress::V4(Ipv4::new(1, 2, 3, 4));

    let url_tmpl = "https://api.example.com/update?sub=#{subDomain}&domain=#{domain}&ip=#{ip}";
    let rendered_url =
        CallbackProvider::replace_variables(url_tmpl, &domain, DnsRecordType::A, &ip, None, true);

    assert!(!rendered_url.contains("*.测试"));
    assert!(rendered_url.contains("*.%E6%B5%8B%E8%AF%95"));
    assert!(rendered_url.contains("1.2.3.4"));

    let body_tmpl = r##"{"sub": "#{subDomain}", "domain": "#{domain}", "ip": "#{ip}"}"##;
    let rendered_body =
        CallbackProvider::replace_variables(body_tmpl, &domain, DnsRecordType::A, &ip, None, false);
    assert!(rendered_body.contains("*.测试"));
}

#[test]
fn callback_defaults_and_outcome() {
    let domain = ParsedDomain {
        raw: "example.com".to_string(),
        root_domain: "example.com".to_string(),
        sub_domain: "@".to_string(),
        custom_params: TextMap::new(),
    };
    let ip = IpAddress::V4(Ipv4::new(5, 6, 7, 8));
    let out = CallbackProvider::replace_variables(
        "#{subDomain} #{domain} #{rootDomain} #{recordType} #{ttl} #{ipv4Addr}",
        &domain,
        DnsRecordType::AAAA,
        &ip,
        None,
        false,
    );
    assert_eq!(out, "@ example.com example.com AAAA 600 5.6.7.8");
    let with_ttl =
        CallbackProvider::replace_variables("#{ttl}", &domain, DnsRecordType::A, &ip, Some(60), false);
    assert_eq!(with_ttl, "60");

    let ok = CallbackProvider::callback_outcome(
        &domain,
        DnsRecordType::A,
        &ip,
        &HttpReply { success: true, status: "200 OK".to_string(), body: "done".to_string() },
    )
    .unwrap();
    assert_eq!(ok.status, SyncStatus::Updated);
    assert_eq!(ok.message, "Callback 执行成功: done");
    assert_eq!(ok.domain, "example.com");
    let err = CallbackProvider::callback_outcome(
        &domain,
        DnsRecordType::A,
        &ip,
        &HttpReply { success: false, status: "500 Internal Server Error".to_string(), body: "x".to_string() },
    )
    .unwrap_err();
    assert_eq!(
        err,
        DnsProviderError::ApiError { code: "500 Internal Server Error".to_string(), message: "x".to_string() }
    );
    assert_eq!(err.describe(), "服务商 API 错误 [500 Internal Server Error]: x");
}
