pub mod text;
pub mod text_map;
pub mod urlencode;
pub mod domain;
pub mod records;
pub mod config;
pub mod net;
pub mod state;
pub mod engine;
pub mod notify;
pub mod dispatch;
pub mod ip_source;
pub mod stun;
pub mod token_cache;
pub mod net_interface;
pub mod json;
pub mod feishu;
pub mod providers;
pub mod porkbun;
pub mod gcore;
pub mod mail;
pub mod namesilo;
pub mod dynv6;
pub mod rainyun;
pub mod dnsla;
pub mod spaceship;
pub mod channels;
pub mod cloudflare;
pub mod godaddy;
pub mod dynadot;
pub mod namecom;
pub mod cloudns;
pub mod nsone;
pub mod vercel;
pub mod hipm;
pub mod wecom;
pub mod wechat;
pub mod tc3;
pub mod push;
pub mod crypto;
pub mod pop;
pub mod alidns;
pub mod aliesa;
pub mod nowcn;
pub mod dnspod;
pub mod tencent_eo;
pub mod huawei;
pub mod traffic_route;
pub mod baidu;
pub mod registry;
pub mod addr_text;
