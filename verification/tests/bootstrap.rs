use docker::{
    Address, BootstrapError, Docker, Environment, Host, SchemeData, TlsSetup, Transport,
};

fn env(host: Option<&str>, cert_path: Option<&str>, tls_verify: Option<&str>) -> Environment {
    Environment {
        host: host.map(String::from),
        cert_path: cert_path.map(String::from),
        tls_verify: tls_verify.map(String::from),
    }
}

fn transport_of(host: &str) -> Transport {
    Docker::new(&env(Some(host), None, None)).unwrap().transport().clone()
}

#[test]
fn missing_host_is_refused() {
    assert_eq!(Docker::new(&env(None, None, None)), Err(BootstrapError::ExpectedHost));
    assert_eq!(
        Docker::new(&env(None, Some("/certs"), Some("1"))),
        Err(BootstrapError::ExpectedHost)
    );
}

#[test]
fn address_without_scheme_is_refused() {
    assert_eq!(
        Docker::new(&env(Some("/var/run/docker.sock"), None, None)),
        Err(BootstrapError::InvalidUrl)
    );
    assert_eq!(Docker::new(&env(Some(""), None, None)), Err(BootstrapError::InvalidUrl));
    assert_eq!(
        Docker::new(&env(Some("no scheme here"), None, None)),
        Err(BootstrapError::InvalidUrl)
    );
}

#[test]
fn address_with_bad_host_is_refused() {
    assert_eq!(
        Docker::new(&env(Some("https://[not-an-address]:2376"), None, None)),
        Err(BootstrapError::InvalidUrl)
    );
    assert_eq!(Docker::new(&env(Some("http://"), None, None)), Err(BootstrapError::InvalidUrl));
}

#[test]
fn unix_scheme_selects_the_socket() {
    assert_eq!(
        transport_of("unix:///var/run/docker.sock"),
        Transport::UnixSocket { path: "///var/run/docker.sock".to_string() }
    );
    assert_eq!(
        transport_of("unix:/tmp/engine.sock"),
        Transport::UnixSocket { path: "/tmp/engine.sock".to_string() }
    );
}

#[test]
fn unix_scheme_is_matched_in_lower_case() {
    assert_eq!(
        transport_of("UNIX:/tmp/engine.sock"),
        Transport::UnixSocket { path: "/tmp/engine.sock".to_string() }
    );
}

#[test]
fn unix_scheme_ignores_certificate_signals() {
    let docker = Docker::new(&env(Some("unix:/tmp/engine.sock"), Some("/certs"), Some("1")));
    assert_eq!(
        docker.unwrap().transport(),
        &Transport::UnixSocket { path: "/tmp/engine.sock".to_string() }
    );
}

#[test]
fn query_and_fragment_are_not_part_of_the_socket_path() {
    assert_eq!(
        transport_of("unix:/tmp/engine.sock?x=1#top"),
        Transport::UnixSocket { path: "/tmp/engine.sock".to_string() }
    );
}

#[test]
fn other_non_relative_scheme_selects_tls_with_the_text_after_the_colon() {
    assert_eq!(
        transport_of("tcp://192.168.59.103:2376"),
        Transport::TlsHttp {
            base_url: "https://192.168.59.103:2376".to_string(),
            tls: TlsSetup::Default,
        }
    );
}

#[test]
fn relative_scheme_selects_tls_with_the_host_alone() {
    assert_eq!(
        transport_of("https://Engine.Example.com:2376/v1"),
        Transport::TlsHttp { base_url: "https:engine.example.com".to_string(), tls: TlsSetup::Default }
    );
    assert_eq!(
        transport_of("http://10.0.0.7:2375"),
        Transport::TlsHttp { base_url: "https:10.0.0.7".to_string(), tls: TlsSetup::Default }
    );
}

#[test]
fn ipv6_host_is_written_in_its_textual_form() {
    assert_eq!(
        transport_of("https://[2001:db8:0:0:0:0:0:1]:2376"),
        Transport::TlsHttp { base_url: "https:2001:db8::1".to_string(), tls: TlsSetup::Default }
    );
    assert_eq!(
        transport_of("http://[::1]"),
        Transport::TlsHttp { base_url: "https:::1".to_string(), tls: TlsSetup::Default }
    );
}

#[test]
fn domain_of_each_kind_of_address() {
    let non_relative = Address {
        scheme: "tcp".to_string(),
        scheme_data: SchemeData::NonRelative("//host:1".to_string()),
    };
    assert_eq!(non_relative.domain(), "//host:1");
    let named = Address {
        scheme: "https".to_string(),
        scheme_data: SchemeData::Relative(Host::Domain("example.com".to_string())),
    };
    assert_eq!(named.domain(), "example.com");
    let numbered = Address {
        scheme: "https".to_string(),
        scheme_data: SchemeData::Relative(Host::Ipv6([0xfe80, 0, 0, 0, 0, 0, 0xa, 0x1f])),
    };
    assert_eq!(numbered.domain(), "fe80::a:1f");
    let unspecified = Address {
        scheme: "https".to_string(),
        scheme_data: SchemeData::Relative(Host::Ipv6([0; 8])),
    };
    assert_eq!(unspecified.domain(), "::");
}

#[test]
fn from_address_goes_by_the_scheme_alone() {
    let none = env(None, None, None);
    let socket = Address {
        scheme: "unix".to_string(),
        scheme_data: SchemeData::Relative(Host::Domain("/run/engine.sock".to_string())),
    };
    assert_eq!(
        Docker::from_address(&socket, &none).transport(),
        &Transport::UnixSocket { path: "/run/engine.sock".to_string() }
    );
    let almost = Address {
        scheme: "unixs".to_string(),
        scheme_data: SchemeData::NonRelative("/run/engine.sock".to_string()),
    };
    assert_eq!(
        Docker::from_address(&almost, &none).transport(),
        &Transport::TlsHttp { base_url: "https:/run/engine.sock".to_string(), tls: TlsSetup::Default }
    );
    let empty = Address { scheme: String::new(), scheme_data: SchemeData::NonRelative(String::new()) };
    assert_eq!(
        Docker::from_address(&empty, &none).transport(),
        &Transport::TlsHttp { base_url: "https:".to_string(), tls: TlsSetup::Default }
    );
}

#[test]
fn certificate_directory_alone_loads_certificate_and_key() {
    let docker = Docker::new(&env(Some("tcp://h:2376"), Some("/home/me/.docker"), None)).unwrap();
    assert_eq!(
        docker.transport(),
        &Transport::TlsHttp {
            base_url: "https://h:2376".to_string(),
            tls: TlsSetup::ClientAuth {
                certificate: "/home/me/.docker/cert.pem".to_string(),
                private_key: "/home/me/.docker/key.pem".to_string(),
            },
        }
    );
}

#[test]
fn both_signals_load_the_ca_file_too() {
    let docker = Docker::new(&env(Some("tcp://h:2376"), Some("/certs"), Some(""))).unwrap();
    assert_eq!(
        docker.transport(),
        &Transport::TlsHttp {
            base_url: "https://h:2376".to_string(),
            tls: TlsSetup::VerifiedClientAuth {
                certificate: "/certs/cert.pem".to_string(),
                private_key: "/certs/key.pem".to_string(),
                ca_file: "/certs/ca.pem".to_string(),
            },
        }
    );
}

#[test]
fn neither_signal_configures_nothing() {
    let docker = Docker::new(&env(Some("tcp://h:2376"), None, None)).unwrap();
    assert_eq!(
        docker.transport(),
        &Transport::TlsHttp { base_url: "https://h:2376".to_string(), tls: TlsSetup::Default }
    );
}

#[test]
fn verification_signal_alone_configures_nothing() {
    let docker = Docker::new(&env(Some("tcp://h:2376"), None, Some("1"))).unwrap();
    assert_eq!(
        docker.transport(),
        &Transport::TlsHttp { base_url: "https://h:2376".to_string(), tls: TlsSetup::Default }
    );
}

#[test]
fn names_of_the_variables() {
    assert_eq!(docker::HOST_VARIABLE, "DOCKER_HOST");
    assert_eq!(docker::CERT_PATH_VARIABLE, "DOCKER_CERT_PATH");
    assert_eq!(docker::TLS_VERIFY_VARIABLE, "DOCKER_TLS_VERIFY");
}
