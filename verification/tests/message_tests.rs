use chatty::config::ServerConfig;
use chatty::error::NetCodeErr;
use chatty::message::Message;
use chatty::time::{now, Timestamp};

#[test]
fn system_message_fields() {
    let m = Message::new_system_message("hello".to_string());
    assert_eq!(m.sender, "[CLIENT]");
    assert_eq!(m.content, "hello");
    assert_eq!(m.color, [255, 247, 0]);
}

#[test]
fn server_message_fields() {
    let mut config = ServerConfig::default();
    config.name = "Hub".to_string();
    config.color = [1, 2, 3];
    let m = Message::new_server_message("welcome".to_string(), &config);
    assert_eq!(m.sender, "Hub");
    assert_eq!(m.content, "welcome");
    assert_eq!(m.color, [1, 2, 3]);
}

#[test]
fn message_renders_as_sender_arrow_content() {
    let m = Message {
        sender: "bob".to_string(),
        content: "hi there".to_string(),
        timestamp: Timestamp { secs: 0, nanos: 0 },
        color: [0, 0, 0],
    };
    assert_eq!(m.to_string(), "bob -> hi there");
}

#[test]
fn error_texts() {
    assert_eq!(NetCodeErr::CouldNotConnect.fmt(), "Could not connect to server");
    assert_eq!(NetCodeErr::MessageSendFailed.fmt(), "Could not send message");
    assert_eq!(NetCodeErr::CouldNotSetNonBlocking.fmt(), "Could not set socket to non-blocking mode");
    assert_eq!(NetCodeErr::UnknownError.fmt(), "Unknown error");
}

#[test]
fn now_reads_the_clock() {
    let t = now().expect("the clock reads after 1970");
    // Later than 2020-09-13, when this clock reading could not be made up.
    assert!(t.secs > 1_600_000_000);
    assert!(t.nanos < 1_000_000_000);
    let m = Message::new_system_message("x".to_string());
    assert!(m.timestamp.secs >= t.secs);
}

#[test]
fn stamped_constructors_keep_the_given_time() {
    // 2023-01-02 03:04:05 UTC
    let at = Timestamp { secs: 1_672_628_645, nanos: 0 };
    let m = Message::system_message_at("hello".to_string(), at);
    assert_eq!(m.sender, "[CLIENT]");
    assert_eq!(m.content, "hello");
    assert_eq!(m.timestamp, at);
    assert_eq!(m.color, [255, 247, 0]);

    let config = ServerConfig {
        name: "srv".to_string(),
        motd: "hi all".to_string(),
        color: [1, 2, 3],
        tickrate: 5,
        ip: "x".to_string(),
    };
    let s = Message::server_message_at(42.to_string(), &config, at);
    assert_eq!(s.sender, "srv");
    assert_eq!(s.content, "42");
    assert_eq!(s.color, [1, 2, 3]);
    assert_eq!(s.timestamp, at);
}

#[test]
fn stamp_falls_back_to_the_epoch() {
    let t = Timestamp { secs: 10, nanos: 20 };
    assert_eq!(chatty::time::stamp(Some(t)), t);
    assert_eq!(chatty::time::stamp(None), Timestamp { secs: 0, nanos: 0 });
}

#[test]
fn log_file_path_names_program_and_minute() {
    // 2023-01-02 03:04:05 UTC
    let at = Timestamp { secs: 1_672_628_645, nanos: 0 };
    assert_eq!(chatty::logs::log_file_path("Client", at), Some("logs/Client-02-01-2023-03-04.txt".to_string()));
    assert_eq!(chatty::logs::log_file_path("Server", Timestamp { secs: 0, nanos: 0 }), Some("logs/Server-01-01-1970-00-00.txt".to_string()));
    assert_eq!(chatty::logs::log_file_path("Client", Timestamp { secs: i64::MAX, nanos: 0 }), None);
}

#[test]
fn timestamp_since_epoch_bounds() {
    assert_eq!(chatty::time::timestamp_since_epoch(5, 6), Some(Timestamp { secs: 5, nanos: 6 }));
    assert_eq!(chatty::time::timestamp_since_epoch(8_210_266_876_799, 0), Some(Timestamp { secs: 8_210_266_876_799, nanos: 0 }));
    assert_eq!(chatty::time::timestamp_since_epoch(8_210_266_876_800, 0), None);
    assert_eq!(chatty::time::timestamp_since_epoch(u64::MAX, 0), None);
    assert_eq!(chatty::time::timestamp_since_epoch(59, 1_500_000_000), Some(Timestamp { secs: 59, nanos: 1_500_000_000 }));
    assert_eq!(chatty::time::timestamp_since_epoch(58, 1_500_000_000), None);
    assert_eq!(chatty::time::timestamp_since_epoch(59, 2_000_000_000), None);
}

#[test]
fn chrono_range_edges_match_log_paths() {
    assert!(chatty::logs::log_file_path("x", Timestamp { secs: -8_334_601_228_800, nanos: 0 }).is_some());
    assert!(chatty::logs::log_file_path("x", Timestamp { secs: -8_334_601_228_801, nanos: 0 }).is_none());
    assert!(chatty::logs::log_file_path("x", Timestamp { secs: 8_210_266_876_799, nanos: 999_999_999 }).is_some());
    assert!(chatty::logs::log_file_path("x", Timestamp { secs: 8_210_266_876_800, nanos: 0 }).is_none());
    assert!(chatty::logs::log_file_path("x", Timestamp { secs: -1, nanos: 1_999_999_999 }).is_some());
    assert!(chatty::logs::log_file_path("x", Timestamp { secs: -2, nanos: 1_000_000_000 }).is_none());
}
