use web_scaffold::listener::{plan_listener, startup_outcome, ListenPlan, Startup};

#[test]
fn adopted_socket_wins_over_bind() {
    let plan = plan_listener(true, b"127.0.0.1:8088".to_vec());
    assert!(matches!(plan, ListenPlan::UseAdopted));
}

#[test]
fn without_adoption_the_configured_address_is_bound() {
    let plan = plan_listener(false, b"127.0.0.1:8088".to_vec());
    match plan {
        ListenPlan::BindFresh(addr) => assert_eq!(addr, b"127.0.0.1:8088".to_vec()),
        ListenPlan::UseAdopted => panic!("expected a fresh bind"),
    }
}

#[test]
fn ready_listener_serves() {
    assert!(matches!(startup_outcome(true), Startup::Serve));
}

#[test]
fn bind_failure_exits_nonzero() {
    match startup_outcome(false) {
        Startup::Exit(code) => assert_ne!(code, 0),
        Startup::Serve => panic!("expected a fatal startup"),
    }
}
