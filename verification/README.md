# rddns

A dynamic DNS client: it finds the machine's public IPv4 and IPv6 addresses, keeps the
DNS records of its domains pointed at them through the provider's API, and reports each
round on the configured notification channels.

## Layout

- `src/` is the library, verified with Verus. Every step that talks to the outside world
  is a function from what came back (an `HttpReply`, the parsed body) to the next request
  or the outcome, so the whole decision logic is proved while the I/O stays outside.
  - `domain`, `text`, `text_map`, `json`, `urlencode`, `net`: domain parsing (with IDNA),
    text, JSON writing and address formatting.
  - `config`, `state`, `engine`: the configuration model, per-task runtime state and the
    decisions of a synchronisation round (when to compare with the provider, which
    records to touch, how the state moves on).
  - `providers` and one module per DNS provider (`cloudflare`, `gcore`, `porkbun`, ...):
    each provider's requests and its decision on every answer.
  - `crypto`, `pop`, `tc3`: SHA-256, SHA-1, HMAC and hexadecimal written and proved
    against their FIPS 180-4 / RFC 2104 definitions, and the request signing schemes built
    on them (Alibaba POP, Tencent TC3; Huawei, Volcengine and Baidu sign in their modules).
  - `ip_source`, `stun`, `net_interface`: how addresses are obtained, the STUN binding
    exchange and the Linux `/proc/net/if_inet6` table.
  - `notify`, `dispatch`, `channels`, `feishu`, `mail`, `wecom`, `wechat`: notification
    texts and payloads, the alert throttling, and each channel's answers.
- `app/` is the program around it: command line, YAML configuration, HTTP with reqwest,
  the scheduling loop with tokio.
- `tests/` exercises the library on concrete values.
