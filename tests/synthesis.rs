use traffic_generator::command::{Command, CommandKind, Request, SocketAddress};
use traffic_generator::config::config_sources;
use traffic_generator::random::{random_id_of_7_chars, random_socket_address};
use traffic_generator::requests::{batch_for_cluster, generate_requests_for_a_random_cluster};

fn kinds(reqs: &[Request]) -> Vec<Option<CommandKind>> {
    reqs.iter().map(|r| r.request_type.as_ref().map(|c| c.kind())).collect()
}

fn cluster_of(r: &Request) -> Option<String> {
    match &r.request_type {
        Some(Command::AddCluster { cluster_id }) => Some(cluster_id.clone()),
        Some(Command::AddHttpFrontend { cluster_id, .. }) => Some(cluster_id.clone()),
        Some(Command::AddBackend { cluster_id, .. }) => Some(cluster_id.clone()),
        _ => None,
    }
}

fn backend_id(r: &Request) -> String {
    match &r.request_type {
        Some(Command::AddBackend { backend_id, .. }) => backend_id.clone(),
        other => panic!("not a backend: {:?}", other),
    }
}

#[test]
fn batch_has_five_commands_in_order() {
    for _ in 0..20 {
        let reqs = generate_requests_for_a_random_cluster().unwrap();
        assert_eq!(reqs.len(), 5);
        assert_eq!(
            kinds(&reqs),
            vec![
                Some(CommandKind::AddCluster),
                Some(CommandKind::AddHttpListener),
                Some(CommandKind::AddHttpFrontend),
                Some(CommandKind::AddBackend),
                Some(CommandKind::AddBackend),
            ]
        );
    }
}

#[test]
fn batch_refers_to_its_cluster() {
    let reqs = generate_requests_for_a_random_cluster().unwrap();
    let id = cluster_of(&reqs[0]).unwrap();
    assert_eq!(cluster_of(&reqs[2]), Some(id.clone()));
    assert_eq!(cluster_of(&reqs[3]), Some(id.clone()));
    assert_eq!(cluster_of(&reqs[4]), Some(id.clone()));
    assert_eq!(cluster_of(&reqs[1]), None);
}

#[test]
fn backend_ids_are_distinct_and_derived() {
    let reqs = generate_requests_for_a_random_cluster().unwrap();
    let id = cluster_of(&reqs[0]).unwrap();
    let b1 = backend_id(&reqs[3]);
    let b2 = backend_id(&reqs[4]);
    assert_ne!(b1, b2);
    assert_eq!(b1, format!("{}_backend_1", id));
    assert_eq!(b2, format!("{}_backend_2", id));
}

#[test]
fn cluster_ids_are_seven_alphanumerics() {
    for _ in 0..50 {
        let id = random_id_of_7_chars();
        assert_eq!(id.chars().count(), 7);
        assert!(id.chars().all(|c| c.is_ascii_alphanumeric()));
    }
}

#[test]
fn addresses_use_unprivileged_ports() {
    for _ in 0..200 {
        let a = random_socket_address();
        assert!(a.port >= 1025);
    }
}

#[test]
fn batch_for_known_cluster() {
    let l = SocketAddress { ip: [10, 0, 0, 1], port: 8080 };
    let b1 = SocketAddress { ip: [10, 0, 0, 2], port: 2000 };
    let b2 = SocketAddress { ip: [255, 255, 255, 255], port: 65535 };
    let reqs = batch_for_cluster(&"abc1234".to_string(), l, b1, b2);
    assert_eq!(
        reqs,
        vec![
            Request { request_type: Some(Command::AddCluster { cluster_id: "abc1234".to_string() }) },
            Request { request_type: Some(Command::AddHttpListener { address: l }) },
            Request {
                request_type: Some(Command::AddHttpFrontend {
                    cluster_id: "abc1234".to_string(),
                    address: l,
                    hostname: "abc1234.com".to_string(),
                }),
            },
            Request {
                request_type: Some(Command::AddBackend {
                    cluster_id: "abc1234".to_string(),
                    backend_id: "abc1234_backend_1".to_string(),
                    address: b1,
                }),
            },
            Request {
                request_type: Some(Command::AddBackend {
                    cluster_id: "abc1234".to_string(),
                    backend_id: "abc1234_backend_2".to_string(),
                    address: b2,
                }),
            },
        ]
    );
}

#[test]
fn frontend_hostname_is_cluster_dot_com() {
    let reqs = generate_requests_for_a_random_cluster().unwrap();
    let id = cluster_of(&reqs[0]).unwrap();
    match &reqs[2].request_type {
        Some(Command::AddHttpFrontend { hostname, .. }) => assert_eq!(hostname, &format!("{}.com", id)),
        other => panic!("not a frontend: {:?}", other),
    }
}

#[test]
fn config_sources_in_precedence_order() {
    assert_eq!(
        config_sources("/home/ada"),
        vec![
            "/usr/share/traffic-generator/config".to_string(),
            "/etc/traffic-generator/config".to_string(),
            "/home/ada/.config/traffic-generator/config".to_string(),
            "/home/ada/.local/share/traffic-generator/config".to_string(),
            "config".to_string(),
        ]
    );
}
