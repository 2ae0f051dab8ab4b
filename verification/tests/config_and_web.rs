use p2p_web_app::config::{
    default_config, new_default_config, read_yml_to_str, Config, ConfigError, ConfigSource, EconomyInfo,
};
use p2p_web_app::status::P2pStatus;
use p2p_web_app::web_server::{
    download_file, get_status, register_info, upload_file, HttpReply, RegisterExchange, ReplyBody,
    StatusExchange,
};

#[test]
fn default_config_has_the_documented_values() {
    let c = default_config("server1".to_string());
    assert_eq!(
        c,
        Config {
            ws_port: 20102,
            ws_keymode: "AES-128".to_string(),
            server_name: "server1".to_string(),
            http_port: 20103,
            boot_nodes: vec![],
            ipfs_api_port: "5001".to_string(),
        }
    );
}

#[test]
fn new_default_config_draws_a_16_char_name() {
    let c = new_default_config();
    assert_eq!(c.server_name.len(), 16);
    assert!(c.server_name.chars().all(|ch| ch.is_ascii_lowercase() || ch.is_ascii_digit()));
    assert_eq!(c.http_port, 20103);
    assert_eq!(c.ws_port, 20102);
}

#[test]
fn read_yml_to_str_passes_the_parsed_config_on() {
    let c = default_config("n".to_string());
    assert_eq!(read_yml_to_str(ConfigSource::<String>::Parsed(c.clone())), Ok(c));
}

#[test]
fn read_yml_to_str_reports_read_and_parse_errors() {
    assert_eq!(
        read_yml_to_str(ConfigSource::Unreadable("no such file".to_string())),
        Err(ConfigError::Io("no such file".to_string()))
    );
    assert_eq!(
        read_yml_to_str(ConfigSource::Malformed("missing field".to_string())),
        Err(ConfigError::Yaml("missing field".to_string()))
    );
}

#[test]
fn economy_info_holds_its_fields() {
    let e = EconomyInfo { economy_name: "e".to_string(), key: "k".to_string() };
    assert_eq!(e.clone(), e);
}

#[test]
fn status_reply_is_ok_with_the_status() {
    let mut s = P2pStatus::default();
    s.num_known_peers = 4;
    let r = get_status(StatusExchange::Received(s.clone()));
    assert_eq!(r, HttpReply { code: 200, body: ReplyBody::Status(s) });
}

#[test]
fn status_reply_errors() {
    assert_eq!(
        get_status(StatusExchange::SendFailed),
        HttpReply { code: 500, body: ReplyBody::Text("P2P actor communication error".to_string()) }
    );
    assert_eq!(
        get_status(StatusExchange::ReceiveFailed),
        HttpReply { code: 500, body: ReplyBody::Text("Failed to get status from P2P actor".to_string()) }
    );
}

#[test]
fn register_replies() {
    assert_eq!(register_info(RegisterExchange::HandedOff), HttpReply { code: 200, body: ReplyBody::Null });
    assert_eq!(
        register_info(RegisterExchange::SendFailed),
        HttpReply { code: 500, body: ReplyBody::Text("P2P actor communication error".to_string()) }
    );
    assert_eq!(
        register_info(RegisterExchange::HandOffFailed),
        HttpReply { code: 500, body: ReplyBody::Text("Failed to get status from P2P actor".to_string()) }
    );
}

#[test]
fn upload_and_download_answer_ok_and_empty() {
    assert_eq!(upload_file(), HttpReply { code: 200, body: ReplyBody::Empty });
    assert_eq!(download_file(), HttpReply { code: 200, body: ReplyBody::Empty });
}
