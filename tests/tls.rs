use linkerd2_proxy::tls::{compose, ClientConfig, Conditional, ConnectionConfig, Identity, ReasonForNoTls};

#[test]
fn identity_present_config_not_provisioned() {
    let id = Conditional::Present(Identity { id: 7 });
    let cfg = Conditional::Absent(ReasonForNoTls::NotProvisioned);
    assert_eq!(compose(&id, &cfg), Conditional::Absent(ReasonForNoTls::NotProvisioned));
}

#[test]
fn identity_absent_config_present() {
    let id = Conditional::Absent(ReasonForNoTls::NoIdentity);
    let cfg = Conditional::Present(ClientConfig { generation: 3 });
    assert_eq!(compose(&id, &cfg), Conditional::Absent(ReasonForNoTls::NoIdentity));
}

#[test]
fn both_absent_identity_reason_wins() {
    let id = Conditional::Absent(ReasonForNoTls::Loopback);
    let cfg = Conditional::Absent(ReasonForNoTls::Disabled);
    assert_eq!(compose(&id, &cfg), Conditional::Absent(ReasonForNoTls::Loopback));
}

#[test]
fn both_present_is_active() {
    let id = Conditional::Present(Identity { id: 7 });
    let cfg = Conditional::Present(ClientConfig { generation: 3 });
    assert_eq!(
        compose(&id, &cfg),
        Conditional::Present(ConnectionConfig {
            server_identity: Identity { id: 7 },
            config: ClientConfig { generation: 3 },
        })
    );
}
