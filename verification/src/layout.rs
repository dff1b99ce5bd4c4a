//! Where the installation keeps its files, how the client is invoked, and
//! the names under which accounts are known.

use vstd::prelude::*;
use vstd::string::*;
use crate::text::occurs_at;

verus! {

/// What was found at one candidate installation root.
#[derive(Clone, Copy, Debug, PartialEq, Eq, Structural)]
pub struct RootProbe {
    /// The directory of the client and the control utility exists.
    pub has_tools: bool,
    /// The directory of the endpoints' configuration files exists.
    pub has_configs: bool,
}

/// A root that can be used: both directories are there.
pub open spec fn usable(p: RootProbe) -> bool {
    p.has_tools && p.has_configs
}

/// Picks the installation root among candidates given in order of
/// preference: the first one that holds both directories, and the first
/// candidate of all where none does. `None` only where there is no candidate.
pub fn choose_root(candidates: &Vec<RootProbe>) -> (r: Option<usize>)
    ensures
        candidates@.len() == 0 <==> r is None,
        r is Some ==> r->0 < candidates@.len(),
        r is Some && usable(candidates@[r->0 as int]) ==> forall|k: int|
            0 <= k < r->0 ==> !usable(#[trigger] candidates@[k]),
        r is Some && !usable(candidates@[r->0 as int]) ==> r->0 == 0 && forall|k: int|
            0 <= k < candidates@.len() ==> !usable(#[trigger] candidates@[k]),
{
    let n: usize = candidates.len();
    if n == 0 {
        return None;
    }
    let mut i: usize = 0;
    while i < n
        invariant
            n == candidates@.len(),
            i <= n,
            forall|k: int| 0 <= k < i ==> !usable(#[trigger] candidates@[k]),
        decreases n - i,
    {
        if candidates[i].has_tools && candidates[i].has_configs {
            return Some(i);
        }
        i = i + 1;
    }
    Some(0)
}

/// The arguments with which the client is started for the configuration
/// file at `config`: no caching of credentials, no retry after a failed
/// authentication, one connection attempt, and a fixed choice of ciphers.
pub open spec fn client_flags(config: Seq<char>) -> Seq<Seq<char>> {
    seq![
        "--config"@,
        config,
        "--auth-nocache"@,
        "--auth-retry"@,
        "none"@,
        "--connect-retry"@,
        "1"@,
        "--data-ciphers"@,
        "AES-256-GCM:AES-128-GCM:AES-128-CBC"@,
        "--cipher"@,
        "AES-128-CBC"@,
    ]
}

/// The client's arguments, in order.
pub fn client_arguments(config: &str) -> (args: Vec<String>)
    ensures
        args@.len() == client_flags(config@).len(),
        forall|k: int| 0 <= k < args@.len() ==> (#[trigger] args@[k])@ == client_flags(config@)[k],
{
    let mut args: Vec<String> = Vec::new();
    args.push(String::from_str("--config"));
    args.push(String::from_str(config));
    args.push(String::from_str("--auth-nocache"));
    args.push(String::from_str("--auth-retry"));
    args.push(String::from_str("none"));
    args.push(String::from_str("--connect-retry"));
    args.push(String::from_str("1"));
    args.push(String::from_str("--data-ciphers"));
    args.push(String::from_str("AES-256-GCM:AES-128-GCM:AES-128-CBC"));
    args.push(String::from_str("--cipher"));
    args.push(String::from_str("AES-128-CBC"));
    args
}

/// The name of the client binary inside the tool directory.
pub fn client_binary_name() -> (r: &'static str)
    ensures
        r@ == "openvpn.exe"@,
{
    "openvpn.exe"
}

/// The name of the control utility inside the tool directory.
pub fn control_utility_name() -> (r: &'static str)
    ensures
        r@ == "tapctl.exe"@,
{
    "tapctl.exe"
}

/// The name of the configuration file inside an endpoint's directory.
pub fn config_file_name() -> (r: &'static str)
    ensures
        r@ == "gekko-vpn-server_openvpn_remote_access_l3.ovpn"@,
{
    "gekko-vpn-server_openvpn_remote_access_l3.ovpn"
}

/// The label under which the adapter is created.
pub fn adapter_label() -> (r: &'static str)
    ensures
        r@ == "GekkoVPN"@,
{
    "GekkoVPN"
}

/// The name that the client is given for the vault account `account`: the
/// account followed by the realm.
pub fn login_name(account: &str) -> (r: String)
    ensures
        r@ == account@ + "@GekkoVPN"@,
{
    String::from_str(account).concat("@GekkoVPN")
}

/// What a successful connection reports: the endpoint and the login name,
/// each in full.
pub fn connected_message(endpoint: &str, login: &str) -> (r: String)
    ensures
        r@ == "Connected to "@ + endpoint@ + " with user "@ + login@,
        occurs_at(r@, endpoint@, 13),
{
    let r = String::from_str("Connected to ").concat(endpoint).concat(" with user ").concat(login);
    proof {
        reveal_strlit("Connected to ");
        assert(r@.subrange(13, 13 + endpoint@.len() as int) =~= endpoint@);
    }
    r
}

} // verus!
