use rddns::channels::NotifyError;
use rddns::config::WeComConfig;
use rddns::net::Ipv4;
use rddns::notify::{NotificationEvent, NotificationOverallStatus};
use rddns::providers::{HttpMethod, HttpReply};
use rddns::token_cache::TokenCache;
use rddns::wecom::{NotifyStep, WeComNotifier, WeComState, WeComTokenResponse};

#[test]
fn test_wecom_token_cache_insertion_and_expiry() {
    let mut cache = TokenCache::new();
    let now: u64 = 1_000;
    let key = "test_corp:test_secret".to_string();
    let token = "token_abc_123".to_string();
    let expires_at = now + 3600;

    cache.insert(key.clone(), token.clone(), expires_at);

    let cached = cache.get_entry(&key).cloned();
    assert!(cached.is_some());
    let entry = cached.unwrap();
    assert_eq!(entry.access_token, token);
    assert!(entry.expires_at > now);
    assert_eq!(cache.get_valid(&key, now), Some(token));
}


fn wecom_event() -> NotificationEvent {
    NotificationEvent {
        overall_status: NotificationOverallStatus::Failed,
        task_name: "nas".to_string(),
        ipv4: Some(Ipv4::new(1, 2, 3, 4)),
        ipv6: None,
        ip_changed: false,
        results: vec![],
        timestamp_text: "2024-05-01 12:00:00".to_string(),
        timestamp_unix: 0,
    }
}

fn app_config() -> WeComConfig {
    WeComConfig {
        enabled: true,
        mode: "app".to_string(),
        webhook_url: None,
        corp_id: Some("corp".to_string()),
        corp_secret: Some("sec".to_string()),
        agent_id: Some(1000002),
        to_user: None,
    }
}

#[test]
fn wecom_bot_needs_webhook_and_posts_markdown() {
    let mut c = app_config();
    c.mode = "bot".to_string();
    let n = WeComNotifier::new(c.clone());
    match n.start(&wecom_event(), &TokenCache::new(), 0) {
        NotifyStep::Done(Err(NotifyError::Provider(m))) => assert_eq!(m, "企业微信群机器人模式未配置 webhook_url"),
        _ => panic!("expected a missing webhook"),
    }
    c.webhook_url = Some("https://qyapi.weixin.qq.com/cgi-bin/webhook/send?key=k".to_string());
    let n = WeComNotifier::new(c);
    match n.start(&wecom_event(), &TokenCache::new(), 0) {
        NotifyStep::Send(req, WeComState::BotPost) => {
            assert_eq!(req.method, HttpMethod::Post);
            let body = req.body.unwrap();
            assert!(body.starts_with("{\"markdown\":{\"content\":\"### rddns 域名动态解析通知 <font color=\\\"warning\\\">同步失败</font>"));
            assert!(body.ends_with("\"msgtype\":\"markdown\"}"));
        }
        _ => panic!("expected the bot post"),
    }
}

#[test]
fn wecom_app_fetches_then_reuses_token() {
    let n = WeComNotifier::new(app_config());
    let mut cache = TokenCache::new();
    match n.start(&wecom_event(), &cache, 100) {
        NotifyStep::Send(req, WeComState::TokenFetch) => {
            assert_eq!(req.url, "https://qyapi.weixin.qq.com/cgi-bin/gettoken?corpid=corp&corpsecret=sec")
        }
        _ => panic!("expected a token request"),
    }
    let answer = WeComTokenResponse { errcode: 0, errmsg: "ok".to_string(), access_token: Some("T1".to_string()), expires_in: Some(7200) };
    match n.on_token(&wecom_event(), Ok(answer), &mut cache, 100) {
        NotifyStep::Send(req, WeComState::AppPost) => {
            assert_eq!(req.url, "https://qyapi.weixin.qq.com/cgi-bin/message/send?access_token=T1");
            let body = req.body.unwrap();
            assert!(body.starts_with("{\"agentid\":1000002,\"msgtype\":\"textcard\",\"textcard\":{\"btntxt\":\"查看详情\""));
            assert!(body.ends_with("\"touser\":\"@all\"}"));
        }
        _ => panic!("expected the card"),
    }
    assert_eq!(cache.get_valid("corp:sec", 100 + 6899), Some("T1".to_string()));
    assert_eq!(cache.get_valid("corp:sec", 100 + 6900), None);
    match n.start(&wecom_event(), &cache, 200) {
        NotifyStep::Send(_, WeComState::AppPost) => {}
        _ => panic!("the cached token is reused"),
    }
    let refused = WeComTokenResponse { errcode: 40013, errmsg: "invalid corpid".to_string(), access_token: None, expires_in: None };
    match n.on_token(&wecom_event(), Ok(refused), &mut TokenCache::new(), 0) {
        NotifyStep::Done(Err(NotifyError::Provider(m))) => assert_eq!(m, "获取企业微信 access_token 失败 [40013]: invalid corpid"),
        _ => panic!("expected a refusal"),
    }
    let bad = HttpReply { success: false, status: "502 Bad Gateway".to_string(), body: "x".to_string() };
    assert_eq!(
        WeComNotifier::outcome(true, &bad),
        Err(NotifyError::Provider("企业微信应用消息返回错误 [502 Bad Gateway]: x".to_string()))
    );
    let good = HttpReply { success: true, status: "200 OK".to_string(), body: "{\"errcode\":0}".to_string() };
    assert_eq!(WeComNotifier::outcome(false, &good), Ok(()));
}
