use qtss_worker::llm::{parse_llm_reply, reply_reasoning, ReplyError, Verdict};
use qtss_worker::nansen_requests::{
    leaderboard_body_from_env,
    screener_body_source, smart_money_chains_text, who_bought_body_source, ScreenerBody,
    WhoBoughtBody,
};

#[test]
fn llm_reply_verdicts() {
    let fenced = "```json\n{\"verdict\":\"pass\",\"confidence\":0.8,\"reasoning\":\"clean\"}\n```";
    assert_eq!(parse_llm_reply(fenced), Ok(Verdict::Pass));
    assert_eq!(reply_reasoning(fenced), "clean");
    assert_eq!(parse_llm_reply(" {\"verdict\": \"block\"} "), Ok(Verdict::Block));
    assert_eq!(parse_llm_reply("{\"verdict\": \"abstain\"}"), Ok(Verdict::Abstain));
}

#[test]
fn llm_reply_without_string_verdict_abstains() {
    assert_eq!(parse_llm_reply("{\"confidence\": 0.3}"), Ok(Verdict::Abstain));
    assert_eq!(parse_llm_reply("{\"verdict\": 3}"), Ok(Verdict::Abstain));
    assert_eq!(parse_llm_reply("[1, 2]"), Ok(Verdict::Abstain));
    assert_eq!(reply_reasoning("{\"verdict\": \"pass\"}"), "");
}

#[test]
fn llm_reply_refusals() {
    assert_eq!(parse_llm_reply("not json"), Err(ReplyError::NotJson));
    assert_eq!(parse_llm_reply("```\n{\"verdict\": \n```"), Err(ReplyError::NotJson));
    assert_eq!(parse_llm_reply("{\"verdict\": \"maybe\"}"), Err(ReplyError::InvalidVerdict));
    assert_eq!(parse_llm_reply("{\"verdict\": \"PASS\"}"), Err(ReplyError::InvalidVerdict));
}

#[test]
fn screener_body_order() {
    let stored = "{\"chains\":[\"ethereum\"],\"timeframe\":\"24h\"}";
    assert_eq!(screener_body_source(Some(stored), Some("{}")), ScreenerBody::Stored);
    assert_eq!(screener_body_source(Some("{\"chains\":[]}"), Some("{}")), ScreenerBody::Env);
    assert_eq!(screener_body_source(Some("{\"timeframe\":\"1h\"}"), Some(" [1] ")), ScreenerBody::Env);
    assert_eq!(screener_body_source(Some("{\"chains\":\"all\"}"), None), ScreenerBody::Default);
    assert_eq!(screener_body_source(None, Some("   ")), ScreenerBody::Default);
    assert_eq!(screener_body_source(None, Some("{oops")), ScreenerBody::Default);
    assert_eq!(screener_body_source(None, None), ScreenerBody::Default);
}

#[test]
fn nansen_config_key_and_chains() {
    assert_eq!(smart_money_chains_text(Some(" [\"ethereum\"] ")), Some("[\"ethereum\"]"));
    assert_eq!(smart_money_chains_text(Some("ethereum")), None);
    assert_eq!(smart_money_chains_text(None), None);
}

#[test]
fn who_bought_and_leaderboard_bodies() {
    assert_eq!(
        who_bought_body_source(Some(" {\"chain\":\"base\"} "), None),
        WhoBoughtBody::FromEnv
    );
    assert_eq!(
        who_bought_body_source(Some("[1]"), Some(" 0xabc ")),
        WhoBoughtBody::ChainAndToken
    );
    assert_eq!(who_bought_body_source(None, Some("  ")), WhoBoughtBody::Missing);
    assert!(leaderboard_body_from_env(Some(" {\"token_symbol\":\"ETH\"} ")));
    assert!(!leaderboard_body_from_env(Some("\"ETH\"")));
    assert!(!leaderboard_body_from_env(None));
}

