use tdn_rpc::server::{RpcConfig, Startup, StartupAction};

type Config = RpcConfig<u16, &'static str, &'static str>;

fn actions(config: Config, fail_at: usize) -> Vec<String> {
    let mut state = Startup::new(config);
    let mut all = vec![];
    loop {
        let bound = all.len() != fail_at;
        let (next, action) = state.step(bound);
        all.push(format!("{:?}", action));
        if matches!(action, StartupAction::Ready | StartupAction::Fail(_)) {
            assert!(matches!(next, Startup::Done));
            return all;
        }
        state = next;
    }
}

#[test]
fn listeners_start_in_order() {
    let config = RpcConfig {
        http: Some(1),
        ws: Some(2),
        channel: Some("ends"),
        index: Some("page"),
    };
    assert_eq!(
        actions(config, 99),
        ["Http(1, Some(\"page\"))", "Ws(2)", "Channel(\"ends\")", "Ready"]
    );
}

#[test]
fn only_what_is_asked_for_starts() {
    let none = Config {
        http: None,
        ws: None,
        channel: None,
        index: Some("page"),
    };
    assert_eq!(actions(none, 99), ["Ready"]);
    let ws = Config {
        http: None,
        ws: Some(7),
        channel: None,
        index: None,
    };
    assert_eq!(actions(ws, 99), ["Ws(7)", "Ready"]);
}

#[test]
fn a_failed_bind_ends_the_start() {
    let config = RpcConfig {
        http: Some(1),
        ws: Some(2),
        channel: Some("ends"),
        index: None,
    };
    assert_eq!(
        actions(config.clone(), 1),
        ["Http(1, None)", "Fail(\"TCP Listen\")"]
    );
    assert_eq!(
        actions(config, 2),
        ["Http(1, None)", "Ws(2)", "Fail(\"TCP Listen\")"]
    );
}

#[test]
fn nothing_follows_the_end() {
    let done: Startup<u16, &str, &str> = Startup::Done;
    let (next, action) = done.step(true);
    assert!(matches!(next, Startup::Done));
    assert!(matches!(action, StartupAction::Ready));
}
