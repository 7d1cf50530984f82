use rddns::channels::NotifyError;
use rddns::config::WechatOfficialConfig;
use rddns::net::Ipv4;
use rddns::notify::{NotificationEvent, NotificationOverallStatus};
use rddns::records::{DnsRecordType, SyncRecordResult, SyncStatus};
use rddns::wechat::{cut_20_bytes, WechatOfficialNotifier, WechatSendResponse, WechatState, WechatTokenResponse};
use rddns::wecom::NotifyStep;

fn config(to_user: &str, template: Option<&str>) -> WechatOfficialConfig {
    WechatOfficialConfig {
        enabled: true,
        app_id: " app ".to_string(),
        app_secret: "sec".to_string(),
        template_id: " tpl ".to_string(),
        to_user: to_user.to_string(),
        url: Some(" https://x.y ".to_string()),
        template_data: template.map(|t| t.to_string()),
    }
}

fn event() -> NotificationEvent {
    NotificationEvent {
        overall_status: NotificationOverallStatus::Success,
        task_name: "nas".to_string(),
        ipv4: Some(Ipv4::new(1, 2, 3, 4)),
        ipv6: None,
        ip_changed: true,
        results: vec![SyncRecordResult {
            domain: "averyveryverylongname.example.com".to_string(),
            record_type: DnsRecordType::A,
            target_ip: "1.2.3.4".to_string(),
            status: SyncStatus::Updated,
            message: "ok".to_string(),
        }],
        timestamp_text: "2024-05-01 12:00:00".to_string(),
        timestamp_unix: 0,
    }
}

fn json(text: &str) -> serde_json::Value {
    serde_json::from_str(text).unwrap()
}

#[test]
fn wechat_cut_keeps_whole_characters() {
    let s: Vec<char> = "abcdefghijklmnopqrstuvwxyz".chars().collect();
    assert_eq!(cut_20_bytes(&s).len(), 20);
    let cjk: Vec<char> = "未探测到有效IP".chars().collect();
    assert_eq!(cut_20_bytes(&cjk), cjk);
}

#[test]
fn wechat_default_data_and_recipients() {
    let n = WechatOfficialNotifier::new(config(" a, b;;c ", None));
    assert_eq!(n.recipients(), vec!["a".to_string(), "b".to_string(), "c".to_string()]);
    let data = json(&n.build_template_data(&event()).to_text());
    assert_eq!(data["first"]["value"], "【rddns 动态解析通知】同步成功");
    assert_eq!(data["first"]["color"], "#173177");
    assert_eq!(data["keyword2"]["value"], "1.2.3.4");
    assert_eq!(data["ipv6"]["value"], "未配置/无");
    assert_eq!(data["thing2"]["value"], "averyveryverylongnam");
    assert_eq!(data["remark"]["value"].as_str().unwrap().starts_with("\n更新详情:\n"), true);
}

#[test]
fn wechat_custom_template_is_used_when_json() {
    let n = WechatOfficialNotifier::new(config("u", Some("{\"k\": {\"value\": \"#{status} #{ipv4Addr}\"}}")));
    assert_eq!(n.build_template_data(&event()).to_text(), "{\"k\":{\"value\":\"同步成功 1.2.3.4\"}}");
    let broken = WechatOfficialNotifier::new(config("u", Some("{not json #{status}")));
    let data = json(&broken.build_template_data(&event()).to_text());
    assert_eq!(data["status"]["value"], "同步成功");
}

#[test]
fn wechat_token_then_each_recipient() {
    let n = WechatOfficialNotifier::new(config("a,b", None));
    let (req, state) = n.start();
    assert_eq!(state, WechatState::Token);
    assert_eq!(req.url, "https://api.weixin.qq.com/cgi-bin/token?grant_type=client_credential&appid=app&secret=sec");
    let tok = WechatTokenResponse { access_token: Some("T".to_string()), errcode: None, errmsg: None };
    let (token, index) = match n.on_token(&event(), Ok(tok)) {
        NotifyStep::Send(req, WechatState::Posting { token, index }) => {
            assert_eq!(req.url, "https://api.weixin.qq.com/cgi-bin/message/template/send?access_token=T");
            let body = json(req.body.as_deref().unwrap());
            assert_eq!(body["touser"], "a");
            assert_eq!(body["template_id"], "tpl");
            assert_eq!(body["url"], "https://x.y");
            (token, index)
        }
        _ => panic!("expected the first post"),
    };
    let ok = WechatSendResponse { errcode: 0, errmsg: "ok".to_string() };
    match n.on_post(&event(), &token, index, Ok(ok.clone())) {
        NotifyStep::Send(req, WechatState::Posting { index: 1, .. }) => {
            assert_eq!(json(req.body.as_deref().unwrap())["touser"], "b")
        }
        _ => panic!("expected the second post"),
    }
    assert!(matches!(n.on_post(&event(), &token, 1, Ok(ok)), NotifyStep::Done(Ok(()))));
    let refused = WechatSendResponse { errcode: 43004, errmsg: "require subscribe".to_string() };
    match n.on_post(&event(), &token, 0, Ok(refused)) {
        NotifyStep::Done(Err(NotifyError::Provider(m))) => assert_eq!(m, "微信公众号推送失败 [43004]: require subscribe"),
        _ => panic!("expected a refusal"),
    }
    let empty = WechatTokenResponse { access_token: Some(String::new()), errcode: Some(40001), errmsg: None };
    match n.on_token(&event(), Ok(empty)) {
        NotifyStep::Done(Err(NotifyError::Provider(m))) => assert_eq!(m, "微信公众号获取 AccessToken 失败 [40001]: 未知凭证错误"),
        _ => panic!("expected a token failure"),
    }
    let nobody = WechatOfficialNotifier::new(config(" ; ", None));
    let tok = WechatTokenResponse { access_token: Some("T".to_string()), errcode: None, errmsg: None };
    match nobody.on_token(&event(), Ok(tok)) {
        NotifyStep::Done(Err(NotifyError::Provider(m))) => assert_eq!(m, "微信公众号未配置接收用户的 OpenID"),
        _ => panic!("expected no recipient"),
    }
}
