use rddns::channels::{check_errcode_response, feishu_outcome, BarkNotifier, DingTalkNotifier, NotifyError};
use rddns::config::{BarkConfig, DingTalkConfig, TelegramConfig};
use rddns::net::Ipv4;
use rddns::notify::{NotificationEvent, NotificationOverallStatus, TelegramNotifier};
use rddns::providers::{HttpMethod, HttpReply};
use rddns::push::{ILinkConfig, ILinkNotifier, PushPlusConfig, PushPlusNotifier};
use rddns::records::{DnsRecordType, SyncRecordResult, SyncStatus};

fn event() -> NotificationEvent {
    NotificationEvent {
        overall_status: NotificationOverallStatus::Success,
        task_name: "home <nas>".to_string(),
        ipv4: Some(Ipv4::new(1, 2, 3, 4)),
        ipv6: None,
        ip_changed: true,
        results: vec![SyncRecordResult {
            domain: "a.example.com".to_string(),
            record_type: DnsRecordType::A,
            target_ip: "1.2.3.4".to_string(),
            status: SyncStatus::Updated,
            message: "ok".to_string(),
        }],
        timestamp_text: "2024-05-01 12:00:00".to_string(),
        timestamp_unix: 1714536000,
    }
}

fn reply(success: bool, status: &str, body: &str) -> HttpReply {
    HttpReply { success, status: status.to_string(), body: body.to_string() }
}

#[test]
fn errcode_zero_or_missing_is_success() {
    assert_eq!(check_errcode_response("{\"errcode\":0,\"errmsg\":\"ok\"}", "钉钉接口"), Ok(()));
    assert_eq!(check_errcode_response("not json", "钉钉接口"), Ok(()));
    assert_eq!(check_errcode_response("{\"other\":1}", "钉钉接口"), Ok(()));
}

#[test]
fn errcode_non_zero_is_business_error() {
    let r = check_errcode_response("{\"errcode\":310000,\"errmsg\":\"sign not match\"}", "钉钉接口");
    assert_eq!(r, Err(NotifyError::Provider("钉钉接口业务错误 [code: 310000]: sign not match".to_string())));
    let r = check_errcode_response("{\"errcode\":-1}", "企业微信接口");
    assert_eq!(r, Err(NotifyError::Provider("企业微信接口业务错误 [code: -1]: 未知错误".to_string())));
}

#[test]
fn notify_error_describes_itself() {
    assert_eq!(NotifyError::Provider("x".to_string()).describe(), "通知服务商返回错误: x");
    assert_eq!(NotifyError::Http("timeout".to_string()).describe(), "HTTP 请求失败: timeout");
    assert_eq!(NotifyError::Email("bad".to_string()).describe(), "邮件发送错误: bad");
    assert_eq!(NotifyError::Json("eof".to_string()).describe(), "数据序列化错误: eof");
}

#[test]
fn telegram_url_uses_proxy_without_trailing_slash() {
    let mut n = TelegramNotifier::new(TelegramConfig {
        enabled: true,
        bot_token: " 123:abc ".to_string(),
        chat_id: "42".to_string(),
        api_proxy: Some("https://tg.example.com//".to_string()),
    });
    assert_eq!(n.send_url(), "https://tg.example.com/bot123:abc/sendMessage");
    n.config.api_proxy = Some("   ".to_string());
    assert_eq!(n.send_url(), "https://api.telegram.org/bot123:abc/sendMessage");
    n.config.api_proxy = None;
    assert_eq!(n.send_url(), "https://api.telegram.org/bot123:abc/sendMessage");
}

#[test]
fn telegram_message_escapes_task() {
    let text = TelegramNotifier::message_text(&event());
    assert!(text.starts_with("<b>rddns 域名解析通知</b> [同步成功]\n<b>任务</b>: home &lt;nas&gt;\n"));
    assert!(text.contains("<b>IPv4</b>: <code>1.2.3.4</code>\n<b>IPv6</b>: <code>无</code>"));
    assert!(text.contains("<b>域名</b>: a.example.com\n<b>时间</b>: 2024-05-01 12:00:00"));
    let n = TelegramNotifier::new(TelegramConfig {
        enabled: true,
        bot_token: "t".to_string(),
        chat_id: "42".to_string(),
        api_proxy: None,
    });
    let body = n.payload(&event()).to_text();
    assert!(body.starts_with("{\"chat_id\":\"42\",\"text\":\"<b>rddns"));
    assert!(body.ends_with("\"parse_mode\":\"HTML\"}"));
}

#[test]
fn telegram_outcome_reports_status_and_body() {
    assert_eq!(TelegramNotifier::outcome(&reply(true, "200 OK", "{}")), Ok(()));
    assert_eq!(
        TelegramNotifier::outcome(&reply(false, "401 Unauthorized", "bad token")),
        Err(NotifyError::Provider("Telegram 返回错误 [401 Unauthorized]: bad token".to_string()))
    );
}

#[test]
fn bark_url_and_payload() {
    let n = BarkNotifier::new(BarkConfig {
        enabled: true,
        server_url: " https://api.day.app/ ".to_string(),
        device_key: " KEY ".to_string(),
        group: Some("ddns".to_string()),
        sound: None,
    });
    assert_eq!(n.push_url(), "https://api.day.app/push");
    let body = n.payload(&event()).to_text();
    assert_eq!(
        body,
        "{\"device_key\":\"KEY\",\"title\":\"🔔 rddns 动态解析 [同步成功]\",\"body\":\"任务: home <nas>\\nIPv4: 1.2.3.4\\nIPv6: 无\\n域名: a.example.com\\n时间: 2024-05-01 12:00:00\",\"group\":\"ddns\"}"
    );
    assert_eq!(
        BarkNotifier::outcome(&reply(false, "500 Internal Server Error", "x")),
        Err(NotifyError::Provider("Bark 返回错误 [500 Internal Server Error]: x".to_string()))
    );
}

#[test]
fn dingtalk_url_with_and_without_signature() {
    let n = DingTalkNotifier::new(DingTalkConfig {
        enabled: true,
        access_token: " tok ".to_string(),
        secret: None,
    });
    assert_eq!(n.send_url(None), "https://oapi.dingtalk.com/robot/send?access_token=tok");
    assert_eq!(
        n.send_url(Some((1700000000000, "ab+c/d=".to_string()))),
        "https://oapi.dingtalk.com/robot/send?access_token=tok&timestamp=1700000000000&sign=ab%2Bc%2Fd%3D"
    );
}

#[test]
fn dingtalk_payload_is_markdown() {
    let body = DingTalkNotifier::payload(&event()).to_text();
    assert!(body.starts_with("{\"msgtype\":\"markdown\",\"markdown\":{\"title\":\"rddns 动态解析 [同步成功]\",\"text\":\"### 🔔 rddns 动态解析通知\\n- **状态**：同步成功\\n- **任务**：home <nas>"));
    assert!(body.ends_with("}}"));
}

#[test]
fn dingtalk_and_feishu_outcomes() {
    assert_eq!(DingTalkNotifier::outcome(&reply(true, "200 OK", "{\"errcode\":0}")), Ok(()));
    assert_eq!(
        DingTalkNotifier::outcome(&reply(true, "200 OK", "{\"errcode\":300001,\"errmsg\":\"token is not exist\"}")),
        Err(NotifyError::Provider("钉钉接口业务错误 [code: 300001]: token is not exist".to_string()))
    );
    assert_eq!(
        DingTalkNotifier::outcome(&reply(false, "404 Not Found", "")),
        Err(NotifyError::Provider("钉钉返回错误 [404 Not Found]: ".to_string()))
    );
    assert_eq!(feishu_outcome(&reply(true, "200 OK", "{\"code\":0,\"msg\":\"success\"}")), Ok(()));
    assert_eq!(
        feishu_outcome(&reply(true, "200 OK", "{\"code\":19021,\"msg\":\"sign match fail\"}")),
        Err(NotifyError::Provider("飞书接口业务错误 [code: 19021]: sign match fail".to_string()))
    );
    assert_eq!(
        feishu_outcome(&reply(false, "400 Bad Request", "oops")),
        Err(NotifyError::Provider("飞书返回错误 [400 Bad Request]: oops".to_string()))
    );
}

#[test]
fn pushplus_body_and_status() {
    let n = PushPlusNotifier::new(PushPlusConfig { token: "tk".to_string(), template: None, channel: Some("wechat".to_string()) });
    let req = n.request(&event());
    assert_eq!(req.method, HttpMethod::Post);
    assert_eq!(req.url, "https://www.pushplus.plus/send");
    let body = req.body.unwrap();
    assert!(body.starts_with("{\"channel\":\"wechat\",\"content\":\"### 🔔 rddns 动态解析通知\\n- **状态**：同步成功"));
    assert!(body.ends_with("\"template\":\"markdown\",\"title\":\"🔔 rddns 动态解析 [同步成功]\",\"token\":\"tk\"}"));
    assert_eq!(
        PushPlusNotifier::outcome(&reply(false, "500 Internal Server Error", "e")),
        Err(NotifyError::Provider("PushPlus 返回错误 [500 Internal Server Error]: e".to_string()))
    );
}

#[test]
fn ilink_request_headers_and_body() {
    let n = ILinkNotifier::new(ILinkConfig {
        bot_token: " bt ".to_string(),
        to_user_id: "u1".to_string(),
        endpoint: "https://ilink.example.com/send".to_string(),
    });
    let req = n.request(&event());
    assert_eq!(req.url, "https://ilink.example.com/send");
    assert_eq!(req.headers[0].1, "application/json; charset=utf-8");
    assert_eq!(req.headers[1], ("Authorization".to_string(), "Bearer bt".to_string()));
    let body = req.body.unwrap();
    assert!(body.starts_with("{\"msgtype\":\"text\",\"text\":{\"content\":\"【rddns 动态解析通知】同步成功\\n任务: home <nas>\\nIPv4: 1.2.3.4\\nIPv6: 未配置/无"));
    assert!(body.ends_with("\"to_user\":\"u1\"}"));
    assert_eq!(ILinkNotifier::outcome(&reply(true, "200 OK", "")), Ok(()));
}
