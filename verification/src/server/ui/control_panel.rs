//! The lines of the server's control panel: its details and its metrics.
use vstd::prelude::*;
use crate::server::server_v3::Server;
use crate::text::{decimal, decimal_text};

verus! {

/// The panel's heading for the server's details.
pub open spec fn server_heading() -> Seq<char> {
    "  ═════╡ Server ╞═════  "@
}

/// The panel's heading for the server's metrics.
pub open spec fn metrics_heading() -> Seq<char> {
    "  ═════╡ metrics ╞═════  "@
}

/// The lines the control panel shows for a server, in order.
pub open spec fn panel_text(s: Server) -> Seq<Seq<char>> {
    seq![
        server_heading(),
        "Server name: "@ + s.name@,
        "Server host: "@ + s.address@,
        "Server owner: "@ + s.owner@,
        metrics_heading(),
        "Server o2s_rqst: "@ + decimal(s.o2s_rqst as nat),
        "Server c2s_msgs: "@ + decimal(s.c2s_msgs as nat),
        "Server s2s_msgs: "@ + decimal(s.s2s_msgs as nat),
        "Server s2c_msgs: "@ + decimal(s.s2c_msgs as nat),
    ]
}

/// `label` followed by `value`.
fn labelled(label: &str, value: &str) -> (r: String)
    ensures
        r@ == label@ + value@,
{
    let mut line = String::from_str(label);
    line.append(value);
    line
}

/// The lines the control panel shows for `server`.
pub fn panel_lines(server: &Server) -> (r: Vec<String>)
    ensures
        r@.map_values(|l: String| l@) == panel_text(*server),
{
    let mut r: Vec<String> = Vec::new();
    r.push(String::from_str("  ═════╡ Server ╞═════  "));
    r.push(labelled("Server name: ", server.name.as_str()));
    r.push(labelled("Server host: ", server.address.as_str()));
    r.push(labelled("Server owner: ", server.owner.as_str()));
    r.push(String::from_str("  ═════╡ metrics ╞═════  "));
    r.push(labelled("Server o2s_rqst: ", decimal_text(server.o2s_rqst).as_str()));
    r.push(labelled("Server c2s_msgs: ", decimal_text(server.c2s_msgs).as_str()));
    r.push(labelled("Server s2s_msgs: ", decimal_text(server.s2s_msgs).as_str()));
    r.push(labelled("Server s2c_msgs: ", decimal_text(server.s2c_msgs).as_str()));
    assert(r@.map_values(|l: String| l@) =~= panel_text(*server));
    r
}

} // verus!
