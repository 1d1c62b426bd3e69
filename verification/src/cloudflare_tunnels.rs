//! Cloudflare tunnels: how a tunnel's `cloudflared` container is started.
use vstd::prelude::*;
use crate::text::{owned, push_str, strings_view};

verus! {

/// How a tunnel is brought up.
pub enum TunnelStart {
    /// Start the tunnel's existing container again.
    Restart(String),
    /// Pull the `cloudflared` image and run a new container.
    Create,
}

/// How a tunnel is brought up: its existing container is started again
/// when it has one (a non-empty ID), else a new one is created.
pub fn tunnel_start_plan(container_id: &Option<String>) -> (r: TunnelStart)
    ensures
        match container_id {
            Some(c) if c@.len() > 0 => r == TunnelStart::Restart(*c),
            _ => r == TunnelStart::Create,
        },
{
    match container_id {
        Some(c) => if c.as_str().is_empty() {
            TunnelStart::Create
        } else {
            TunnelStart::Restart(c.clone())
        },
        None => TunnelStart::Create,
    }
}

/// The image a tunnel container runs.
pub fn tunnel_image() -> (r: String)
    ensures
        r@ == "cloudflare/cloudflared:latest"@,
{
    owned("cloudflare/cloudflared:latest")
}

/// The name of a tunnel's container (also its network alias).
pub fn tunnel_container_name(tunnel_id: &str) -> (r: String)
    ensures
        r@ == "rivetr-tunnel-"@ + tunnel_id@,
{
    let mut s = owned("rivetr-tunnel-");
    push_str(&mut s, tunnel_id);
    s
}

/// The command a tunnel container runs: the tunnel under its token,
/// without self-updates.
pub fn tunnel_command(token: &str) -> (r: Vec<String>)
    ensures
        strings_view(r@) == seq!["tunnel"@, "--no-autoupdate"@, "run"@, "--token"@, token@],
{
    let r = vec![owned("tunnel"), owned("--no-autoupdate"), owned("run"), owned("--token"), owned(token)];
    assert(strings_view(r@) =~= seq!["tunnel"@, "--no-autoupdate"@, "run"@, "--token"@, token@]);
    r
}

} // verus!
