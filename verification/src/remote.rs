//! Code generation for the remote-event tool: from the tool's arguments to
//! the exact source text handed to the server-code lane, or to the refusal
//! the caller gets back.

use vstd::prelude::*;

use crate::text::{escape_squotes, escaped_squotes, str_eq};

verus! {

/// What the remote-event tool decides for one call.
pub enum FireRemotePlan {
    /// The direction can never be served; the carried text explains why.
    Unsupported(String),
    /// The direction is not one of the three known ones.
    InvalidDirection(String),
    /// The source text to run on the server-code lane.
    Code(String),
}

/// Why firing towards the server is refused.
pub open spec fn spec_to_server_refusal() -> Seq<char> {
    "ToServer direction not supported: MCP runs on the server, and RemoteEvent.OnServerEvent cannot be manually triggered. To test server event handlers, use run_server_code to call the handler function directly, or use simulate_input/click_gui to trigger client actions that fire the remote."@
}

/// The refusal for an unknown direction.
pub open spec fn spec_invalid_direction() -> Seq<char> {
    "Invalid direction. Use 'ToServer', 'ToClient', or 'ToAllClients'"@
}

/// The player a client-directed fire goes to: the named one, or `Unknown`.
pub open spec fn player_or_unknown(p: Option<Seq<char>>) -> Seq<char> {
    match p {
        Some(name) => name,
        None => "Unknown"@,
    }
}

/// The firing snippet for a client-directed fire.
pub open spec fn spec_to_client_snippet(args: Option<Seq<char>>, p: Seq<char>) -> Seq<char> {
    match args {
        Some(a) =>
            "local HttpService = game:GetService('HttpService')\nlocal Players = game:GetService('Players')\nlocal player = Players:FindFirstChild('"@
            + p + "')\nif not player then error('Player not found: "@ + p
            + "') end\nlocal args = HttpService:JSONDecode('"@ + escaped_squotes(a)
            + "')\nremote:FireClient(player, table.unpack(args))\nreturn 'Fired to client: "@ + p
            + "'"@,
        None => "local Players = game:GetService('Players')\nlocal player = Players:FindFirstChild('"@
            + p + "')\nif not player then error('Player not found: "@ + p
            + "') end\nremote:FireClient(player)\nreturn 'Fired to client: "@ + p + "'"@,
    }
}

/// The firing snippet for a broadcast to all clients.
pub open spec fn spec_to_all_snippet(args: Option<Seq<char>>) -> Seq<char> {
    match args {
        Some(a) => "local HttpService = game:GetService('HttpService')\nlocal args = HttpService:JSONDecode('"@
            + escaped_squotes(a) + "')\nremote:FireAllClients(table.unpack(args))\nreturn 'Fired to all clients'"@,
        None => "remote:FireAllClients()\nreturn 'Fired to all clients'"@,
    }
}

/// The full generated source: resolve the remote by path, check its class,
/// then run the firing snippet.
pub open spec fn spec_remote_code(path: Seq<char>, fire: Seq<char>) -> Seq<char> {
    "local path = \""@ + path
        + "\"\nlocal parts = string.split(path, \".\")\nlocal current = game\nfor _, part in ipairs(parts) do\n    current = current:FindFirstChild(part)\n    if not current then\n        error(\"Remote not found: \" .. path .. \" (failed at: \" .. part .. \")\")\n    end\nend\nlocal remote = current\nif not remote:IsA(\"RemoteEvent\") then\n    error(\"Object at \" .. path .. \" is not a RemoteEvent, it's a \" .. remote.ClassName)\nend\n"@
        + fire
}

fn player_name_str(player_name: &Option<String>) -> (r: String)
    ensures
        r@ == player_or_unknown(player_name.deep_view()),
{
    match player_name {
        Some(p) => p.clone(),
        None => "Unknown".to_owned(),
    }
}

fn to_client_snippet(args: &Option<String>, player_name: &Option<String>) -> (r: String)
    ensures
        r@ == spec_to_client_snippet(args.deep_view(), player_or_unknown(player_name.deep_view())),
{
    let p = player_name_str(player_name);
    match args {
        Some(a) => {
            let esc = escape_squotes(a.as_str());
            let mut s =
                "local HttpService = game:GetService('HttpService')\nlocal Players = game:GetService('Players')\nlocal player = Players:FindFirstChild('".to_owned();
            s.append(p.as_str());
            s.append("')\nif not player then error('Player not found: ");
            s.append(p.as_str());
            s.append("') end\nlocal args = HttpService:JSONDecode('");
            s.append(esc.as_str());
            s.append("')\nremote:FireClient(player, table.unpack(args))\nreturn 'Fired to client: ");
            s.append(p.as_str());
            s.append("'");
            proof {
                assert(s@ =~= spec_to_client_snippet(
                    args.deep_view(),
                    player_or_unknown(player_name.deep_view()),
                ));
            }
            s
        },
        None => {
            let mut s =
                "local Players = game:GetService('Players')\nlocal player = Players:FindFirstChild('".to_owned();
            s.append(p.as_str());
            s.append("')\nif not player then error('Player not found: ");
            s.append(p.as_str());
            s.append("') end\nremote:FireClient(player)\nreturn 'Fired to client: ");
            s.append(p.as_str());
            s.append("'");
            proof {
                assert(s@ =~= spec_to_client_snippet(
                    args.deep_view(),
                    player_or_unknown(player_name.deep_view()),
                ));
            }
            s
        },
    }
}

fn to_all_snippet(args: &Option<String>) -> (r: String)
    ensures
        r@ == spec_to_all_snippet(args.deep_view()),
{
    match args {
        Some(a) => {
            let esc = escape_squotes(a.as_str());
            let mut s =
                "local HttpService = game:GetService('HttpService')\nlocal args = HttpService:JSONDecode('".to_owned();
            s.append(esc.as_str());
            s.append("')\nremote:FireAllClients(table.unpack(args))\nreturn 'Fired to all clients'");
            proof {
                assert(s@ =~= spec_to_all_snippet(args.deep_view()));
            }
            s
        },
        None => "remote:FireAllClients()\nreturn 'Fired to all clients'".to_owned(),
    }
}

fn wrap_remote_code(path: &str, fire: &str) -> (r: String)
    ensures
        r@ == spec_remote_code(path@, fire@),
{
    let mut s = "local path = \"".to_owned();
    s.append(path);
    s.append(
        "\"\nlocal parts = string.split(path, \".\")\nlocal current = game\nfor _, part in ipairs(parts) do\n    current = current:FindFirstChild(part)\n    if not current then\n        error(\"Remote not found: \" .. path .. \" (failed at: \" .. part .. \")\")\n    end\nend\nlocal remote = current\nif not remote:IsA(\"RemoteEvent\") then\n    error(\"Object at \" .. path .. \" is not a RemoteEvent, it's a \" .. remote.ClassName)\nend\n",
    );
    s.append(fire);
    proof {
        assert(s@ =~= spec_remote_code(path@, fire@));
    }
    s
}

/// Decides what the remote-event tool does: refuses `ToServer` (the server
/// cannot trigger its own event signals), refuses unknown directions, and
/// otherwise generates the exact source text for the server-code lane.
pub fn build_fire_remote_code(
    path: &str,
    direction: &str,
    args: &Option<String>,
    player_name: &Option<String>,
) -> (r: FireRemotePlan)
    ensures
        direction@ == "ToServer"@ ==> (r matches FireRemotePlan::Unsupported(m) && m@
            == spec_to_server_refusal()),
        direction@ == "ToClient"@ ==> (r matches FireRemotePlan::Code(c) && c@
            == spec_remote_code(
            path@,
            spec_to_client_snippet(args.deep_view(), player_or_unknown(player_name.deep_view())),
        )),
        direction@ == "ToAllClients"@ ==> (r matches FireRemotePlan::Code(c) && c@
            == spec_remote_code(path@, spec_to_all_snippet(args.deep_view()))),
        (direction@ != "ToServer"@ && direction@ != "ToClient"@ && direction@ != "ToAllClients"@)
            ==> (r matches FireRemotePlan::InvalidDirection(m) && m@ == spec_invalid_direction()),
{
    proof {
        reveal_strlit("ToServer");
        reveal_strlit("ToClient");
        reveal_strlit("ToAllClients");
        assert(("ToServer"@)[2] == 'S' && ("ToClient"@)[2] == 'C');
        assert("ToServer"@ != "ToClient"@);
        assert("ToServer"@.len() != "ToAllClients"@.len());
        assert("ToClient"@.len() != "ToAllClients"@.len());
    }
    if str_eq(direction, "ToServer") {
        FireRemotePlan::Unsupported(
            "ToServer direction not supported: MCP runs on the server, and RemoteEvent.OnServerEvent cannot be manually triggered. To test server event handlers, use run_server_code to call the handler function directly, or use simulate_input/click_gui to trigger client actions that fire the remote.".to_owned(),
        )
    } else if str_eq(direction, "ToClient") {
        let fire = to_client_snippet(args, player_name);
        FireRemotePlan::Code(wrap_remote_code(path, fire.as_str()))
    } else if str_eq(direction, "ToAllClients") {
        let fire = to_all_snippet(args);
        FireRemotePlan::Code(wrap_remote_code(path, fire.as_str()))
    } else {
        FireRemotePlan::InvalidDirection(
            "Invalid direction. Use 'ToServer', 'ToClient', or 'ToAllClients'".to_owned(),
        )
    }
}

} // verus!
