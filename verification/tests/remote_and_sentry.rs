use rbx_studio_mcp::remote::{build_fire_remote_code, FireRemotePlan};
use rbx_studio_mcp::sentry::{lines_str, parse_listener_pids, parse_netstat_pids};

#[test]
fn fire_to_server_is_refused() {
    let plan = build_fire_remote_code("ReplicatedStorage.R", "ToServer", &None, &None);
    match plan {
        FireRemotePlan::Unsupported(m) => {
            assert!(m.starts_with("ToServer direction not supported:"));
        }
        _ => panic!("ToServer must be refused"),
    }
}

#[test]
fn fire_unknown_direction_is_invalid() {
    let plan = build_fire_remote_code("R", "Sideways", &None, &None);
    match plan {
        FireRemotePlan::InvalidDirection(m) => {
            assert_eq!(m, "Invalid direction. Use 'ToServer', 'ToClient', or 'ToAllClients'");
        }
        _ => panic!("an unknown direction must be refused"),
    }
}

#[test]
fn fire_to_all_clients_without_args() {
    let plan = build_fire_remote_code("ReplicatedStorage.Remotes.Ping", "ToAllClients", &None, &None);
    match plan {
        FireRemotePlan::Code(c) => {
            assert!(c.starts_with("local path = \"ReplicatedStorage.Remotes.Ping\"\n"));
            assert!(c.ends_with("remote:FireAllClients()\nreturn 'Fired to all clients'"));
            assert!(c.contains("if not remote:IsA(\"RemoteEvent\") then"));
        }
        _ => panic!("ToAllClients must generate code"),
    }
}

#[test]
fn fire_to_client_escapes_quotes_in_args() {
    let args = Some("[\"it's\"]".to_string());
    let player = Some("Ada".to_string());
    let plan = build_fire_remote_code("R.E", "ToClient", &args, &player);
    match plan {
        FireRemotePlan::Code(c) => {
            assert!(c.contains("local player = Players:FindFirstChild('Ada')"));
            assert!(c.contains("local args = HttpService:JSONDecode('[\"it\\'s\"]')"));
            assert!(c.ends_with("return 'Fired to client: Ada'"));
        }
        _ => panic!("ToClient must generate code"),
    }
}

#[test]
fn fire_to_client_defaults_player_name() {
    let plan = build_fire_remote_code("R.E", "ToClient", &None, &None);
    match plan {
        FireRemotePlan::Code(c) => {
            assert!(c.contains("Players:FindFirstChild('Unknown')"));
            assert!(c.contains("remote:FireClient(player)\n"));
        }
        _ => panic!("ToClient must generate code"),
    }
}

#[test]
fn line_splitting() {
    assert_eq!(lines_str("a\nb\n"), vec!["a", "b"]);
    assert_eq!(lines_str("a\r\nb"), vec!["a", "b"]);
    assert_eq!(lines_str(""), Vec::<String>::new());
    assert_eq!(lines_str("\n"), vec![""]);
}

#[test]
fn listener_pids_skip_self_and_garbage() {
    let output = "1234\n5678\n  910 \nnot-a-pid\n";
    let pids = parse_listener_pids(output, 5678);
    assert_eq!(pids, vec![1234, 910]);
}

#[test]
fn listener_pids_empty_output() {
    assert_eq!(parse_listener_pids("", 1), Vec::<i32>::new());
}

#[test]
fn netstat_pids_filter_port_and_state() {
    let output = "  TCP    127.0.0.1:44755    0.0.0.0:0    LISTENING    4321\r\n  TCP    127.0.0.1:44755    0.0.0.0:0    LISTENING    999\r\n  TCP    127.0.0.1:80       0.0.0.0:0    LISTENING    777\r\n  TCP    127.0.0.1:44755    0.0.0.0:0    ESTABLISHED  888\r\n";
    let pids = parse_netstat_pids(output, 44755, 999);
    assert_eq!(pids, vec![4321]);
}
