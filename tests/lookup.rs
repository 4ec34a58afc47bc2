use linkerd2_proxy::lookup::{self, Error, InvalidTarget, Target};
use linkerd2_proxy::tls::{Conditional, ReasonForNoTls};
use linkerd2_proxy::transport::{self, DnsError, HostAndPort, IpAddr, SocketAddr};

fn target() -> Target {
    Target {
        host_and_port: HostAndPort { host: "example.com".to_string(), port: 443 },
        tls: Conditional::Absent(ReasonForNoTls::NotHttp),
    }
}

#[test]
fn connect_uses_resolved_address_and_port() {
    let connect = lookup::Stack::<Target>::new().make(&target()).unwrap();
    assert_eq!(connect.host_and_port().host, "example.com");
    assert_eq!(
        connect.resolved(Ok(IpAddr::V4(10, 0, 0, 5))),
        Ok(transport::Target {
            addr: SocketAddr { ip: IpAddr::V4(10, 0, 0, 5), port: 443 },
            tls: Conditional::Absent(ReasonForNoTls::NotHttp),
        })
    );
}

#[test]
fn connect_reports_dns_failure() {
    let connect = lookup::Stack::<Target>::new().make(&target()).unwrap();
    assert_eq!(connect.resolved(Err(DnsError::NoAddressesFound)), Err(Error::Resolve(DnsError::NoAddressesFound)));
}

#[test]
fn invalid_target_message() {
    assert_eq!(InvalidTarget.description(), "Invalid target");
}
