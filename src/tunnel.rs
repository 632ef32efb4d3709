use vstd::prelude::*;
use vstd::string::*;
use crate::error::HtMcpError;
use crate::text::{decimal, with_port};

verus! {

/// tokio's child process handle, carried opaquely by a tunnel.
#[verifier::external_type_specification]
#[verifier::external_body]
pub struct ExChild(tokio::process::Child);

/// std's `SystemTime`, carried opaquely as a creation timestamp.
#[verifier::external_type_specification]
#[verifier::external_body]
pub struct ExSystemTime(std::time::SystemTime);

/// Relies on tokio::process::Child::try_wait: `Ok(None)` means the process has
/// not exited yet. Whether it has is up to the operating system.
#[verifier::external_body]
fn child_running(child: &mut tokio::process::Child) -> (r: bool)
    opens_invariants none
    no_unwind
{
    matches!(child.try_wait(), Ok(None))
}

/// Relies on tokio::process::Child::start_kill: asks the operating system to
/// kill the process without waiting for it; a failure to do so is dropped.
#[verifier::external_body]
fn kill_child(child: &mut tokio::process::Child)
    opens_invariants none
    no_unwind
{
    let _ = child.start_kill();
}

/// Relies on std::time::SystemTime::now: the current wall-clock time.
#[verifier::external_body]
pub(crate) fn now() -> (r: std::time::SystemTime) {
    std::time::SystemTime::now()
}

/// uuid's `Uuid`, carried opaquely as a session's internal id.
#[verifier::external_type_specification]
#[verifier::external_body]
pub struct ExUuid(uuid::Uuid);

/// Relies on uuid::Uuid::new_v4: a fresh random identifier.
#[verifier::external_body]
pub(crate) fn new_uuid() -> (r: uuid::Uuid) {
    uuid::Uuid::new_v4()
}

/// Relies on uuid::Uuid's Display: the hyphenated text form of `u`, which is
/// 36 characters long.
#[verifier::external_body]
pub(crate) fn uuid_text(u: &uuid::Uuid) -> (r: String)
    ensures
        r@.len() == 36,
{
    u.to_string()
}

pub open spec fn tunnel_target(port: u16) -> Seq<char> {
    "http://localhost:"@ + decimal(port as nat)
}

/// One running tunnel process and the public address it announced.
pub struct CloudflareTunnel {
    pub child: tokio::process::Child,
    pub url: String,
    pub local_port: u16,
}

impl CloudflareTunnel {
    /// The arguments of the tunnel binary that expose `port` on a public address.
    pub fn command_args(port: u16) -> (r: Vec<String>)
        ensures
            r@.len() == 3,
            r@[0]@ == "tunnel"@,
            r@[1]@ == "--url"@,
            r@[2]@ == tunnel_target(port),
    {
        let mut r: Vec<String> = Vec::new();
        r.push("tunnel".to_string());
        r.push("--url".to_string());
        r.push(with_port("http://localhost:", port));
        r
    }

    /// A tunnel whose process was started and whose address was found.
    pub fn started(child: tokio::process::Child, url: String, local_port: u16) -> (r: Self)
        ensures
            r.child == child,
            r.url == url,
            r.local_port == local_port,
    {
        CloudflareTunnel { child, url, local_port }
    }

    /// Whether the tunnel process has not exited yet.
    pub fn is_running(&mut self) -> (r: bool)
        ensures
            final(self).url == old(self).url,
            final(self).local_port == old(self).local_port,
        opens_invariants none
        no_unwind
    {
        child_running(&mut self.child)
    }

    pub fn url(&self) -> (r: &str)
        ensures
            r@ == self.url@,
    {
        self.url.as_str()
    }

    pub fn local_port(&self) -> (r: u16)
        ensures
            r == self.local_port,
    {
        self.local_port
    }
}

/// When a tunnel goes out of scope while its process still runs, the process
/// is killed as a last resort; `stop` is the orderly way.
impl Drop for CloudflareTunnel {
    fn drop(&mut self)
        opens_invariants none
        no_unwind
    {
        if self.is_running() {
            kill_child(&mut self.child);
        }
    }
}

/// Information about an active tunnel.
#[derive(Debug)]
pub struct TunnelInfo {
    pub id: String,
    pub url: String,
    pub local_port: u16,
    pub provider: String,
    pub created_at: std::time::SystemTime,
    pub is_active: bool,
}

/// A tunnel as plain values: its id, public address and local port.
pub type TunnelView = (Seq<char>, Seq<char>, u16);

impl TunnelInfo {
    pub open spec fn view(&self) -> TunnelView {
        (self.id@, self.url@, self.local_port)
    }

    /// The provider and liveness fields every report of a held tunnel carries.
    pub open spec fn is_report(&self) -> bool {
        &&& self.provider@ == "cloudflare"@
        &&& self.is_active
    }
}

struct TunnelEntry {
    id: String,
    tunnel: CloudflareTunnel,
    created_at: std::time::SystemTime,
}

impl TunnelEntry {
    spec fn view(&self) -> TunnelView {
        (self.id@, self.tunnel.url@, self.tunnel.local_port)
    }

    fn info(&self) -> (r: TunnelInfo)
        ensures
            r@ == self@,
            r.is_report(),
            r.created_at == self.created_at,
    {
        TunnelInfo {
            id: self.id.clone(),
            url: self.tunnel.url.clone(),
            local_port: self.tunnel.local_port,
            provider: "cloudflare".to_string(),
            created_at: self.created_at,
            is_active: true,
        }
    }
}

/// The entries of `s` whose flag in `alive` is set, in their order.
pub open spec fn keep<T>(s: Seq<T>, alive: Seq<bool>) -> Seq<T>
    decreases s.len(),
{
    if s.len() == 0 {
        Seq::empty()
    } else {
        let k = keep(s.drop_last(), alive.take(s.len() - 1));
        if alive[s.len() - 1] { k.push(s.last()) } else { k }
    }
}

spec fn in_prefix(v: TunnelView, s: Seq<TunnelView>, n: int) -> bool {
    exists|j: int| 0 <= j < n && s[j] == v
}

spec fn entry_views(s: Seq<TunnelEntry>) -> Seq<TunnelView> {
    s.map_values(|e: TunnelEntry| e@)
}

pub open spec fn unique_ids(s: Seq<TunnelView>) -> bool {
    forall|i: int, j: int| 0 <= i < j < s.len() ==> (#[trigger] s[i]).0 != (#[trigger] s[j]).0
}

pub open spec fn has_id(s: Seq<TunnelView>, id: Seq<char>) -> bool {
    exists|i: int| 0 <= i < s.len() && (#[trigger] s[i]).0 == id
}

pub open spec fn tunnel_not_found_msg(id: Seq<char>) -> Seq<char> {
    "Tunnel not found: "@ + id
}

/// The registry of running tunnels, keyed by a generated id.
pub struct TunnelManager {
    tunnels: Vec<TunnelEntry>,
}

impl TunnelManager {
    pub closed spec fn view(&self) -> Seq<TunnelView> {
        entry_views(self.tunnels@)
    }

    /// Each id names at most one tunnel.
    pub open spec fn wf(&self) -> bool {
        unique_ids(self@)
    }

    pub fn new() -> (r: Self)
        ensures
            r.wf(),
            r@ == Seq::<TunnelView>::empty(),
    {
        let r = TunnelManager { tunnels: Vec::new() };
        assert(r@ =~= Seq::<TunnelView>::empty());
        r
    }

    pub fn tunnel_count(&self) -> (r: usize)
        ensures
            r == self@.len(),
    {
        self.tunnels.len()
    }

    fn position(&self, id: &str) -> (r: Option<usize>)
        ensures
            match r {
                Some(i) => i < self@.len() && self@[i as int].0 == id@,
                None => !has_id(self@, id@),
            },
    {
        let key = String::from_str(id);
        let mut i: usize = 0;
        while i < self.tunnels.len()
            invariant
                i <= self.tunnels.len(),
                key@ == id@,
                forall|k: int| 0 <= k < i ==> (#[trigger] self@[k]).0 != id@,
            decreases self.tunnels.len() - i,
        {
            if self.tunnels[i].id == key {
                return Some(i);
            }
            i = i + 1;
        }
        None
    }

    /// Holds `tunnel` under `id`, in place of a tunnel held under that id before.
    pub fn insert_tunnel(&mut self, id: String, tunnel: CloudflareTunnel) -> (r: TunnelInfo)
        requires
            old(self).wf(),
        ensures
            final(self).wf(),
            r@ == (id@, tunnel.url@, tunnel.local_port),
            r.is_report(),
            has_id(old(self)@, id@) ==> exists|i: int| 0 <= i < old(self)@.len()
                && old(self)@[i].0 == id@ && final(self)@ == old(self)@.update(i, r@),
            !has_id(old(self)@, id@) ==> final(self)@ == old(self)@.push(r@),
    {
        let entry = TunnelEntry { id, tunnel, created_at: now() };
        let info = entry.info();
        match self.position(entry.id.as_str()) {
            Some(i) => {
                self.tunnels.set(i, entry);
                assert(self@ =~= old(self)@.update(i as int, info@));
            },
            None => {
                self.tunnels.push(entry);
                assert(self@ =~= old(self)@.push(info@));
            },
        }
        info
    }

    /// Holds a started tunnel under a freshly generated id.
    pub fn register_tunnel(&mut self, tunnel: CloudflareTunnel) -> (r: TunnelInfo)
        requires
            old(self).wf(),
        ensures
            final(self).wf(),
            r.url@ == tunnel.url@,
            r.local_port == tunnel.local_port,
            r.is_report(),
            r.id@.len() == 36,
            has_id(final(self)@, r.id@),
            has_id(old(self)@, r.id@) ==> exists|i: int| 0 <= i < old(self)@.len()
                && old(self)@[i].0 == r.id@ && final(self)@ == old(self)@.update(i, r@),
            !has_id(old(self)@, r.id@) ==> final(self)@ == old(self)@.push(r@),
    {
        let id = uuid_text(&new_uuid());
        let r = self.insert_tunnel(id, tunnel);
        proof {
            if has_id(old(self)@, r.id@) {
                let i = choose|i: int| 0 <= i < old(self)@.len() && old(self)@[i].0 == r.id@
                    && self@ == old(self)@.update(i, r@);
                assert(self@[i].0 == r.id@);
            } else {
                assert(self@[self@.len() - 1].0 == r.id@);
            }
        }
        r
    }

    pub fn get_tunnel(&self, tunnel_id: &str) -> (r: Option<TunnelInfo>)
        requires
            self.wf(),
        ensures
            r is None <==> !has_id(self@, tunnel_id@),
            r matches Some(info) ==> info.is_report() && exists|i: int|
                0 <= i < self@.len() && self@[i] == info@ && info@.0 == tunnel_id@,
    {
        match self.position(tunnel_id) {
            Some(i) => Some(self.tunnels[i].info()),
            None => None,
        }
    }

    pub fn list_tunnels(&self) -> (r: Vec<TunnelInfo>)
        ensures
            r@.len() == self@.len(),
            forall|i: int| 0 <= i < r@.len() ==> (#[trigger] r@[i])@ == self@[i] && r@[i].is_report(),
    {
        let mut r: Vec<TunnelInfo> = Vec::new();
        let mut i: usize = 0;
        while i < self.tunnels.len()
            invariant
                i <= self.tunnels.len(),
                r@.len() == i,
                forall|k: int| 0 <= k < i ==> (#[trigger] r@[k])@ == self@[k] && r@[k].is_report(),
            decreases self.tunnels.len() - i,
        {
            r.push(self.tunnels[i].info());
            i = i + 1;
        }
        r
    }

    /// The ids of the held tunnels, in the registry's order.
    pub fn tunnel_ids(&self) -> (r: Vec<String>)
        ensures
            r@.len() == self@.len(),
            forall|i: int| 0 <= i < r@.len() ==> (#[trigger] r@[i])@ == self@[i].0,
    {
        let mut r: Vec<String> = Vec::new();
        let mut i: usize = 0;
        while i < self.tunnels.len()
            invariant
                i <= self.tunnels.len(),
                r@.len() == i,
                forall|k: int| 0 <= k < i ==> (#[trigger] r@[k])@ == self@[k].0,
            decreases self.tunnels.len() - i,
        {
            r.push(self.tunnels[i].id.clone());
            i = i + 1;
        }
        r
    }

    /// Removes the tunnel held under `tunnel_id` and hands it over for stopping.
    pub fn take_tunnel(&mut self, tunnel_id: &str) -> (r: Result<CloudflareTunnel, HtMcpError>)
        requires
            old(self).wf(),
        ensures
            final(self).wf(),
            r is Ok <==> has_id(old(self)@, tunnel_id@),
            r matches Ok(t) ==> exists|i: int| 0 <= i < old(self)@.len()
                && old(self)@[i] == (tunnel_id@, t.url@, t.local_port)
                && final(self)@ == old(self)@.remove(i),
            r matches Err(e) ==> e == HtMcpError::Internal(e->Internal_0)
                && e->Internal_0@ == tunnel_not_found_msg(tunnel_id@)
                && final(self)@ == old(self)@,
    {
        match self.position(tunnel_id) {
            Some(i) => {
                let e = self.tunnels.remove(i);
                assert(self@ =~= old(self)@.remove(i as int));
                Ok(e.tunnel)
            },
            None => {
                let m = String::from_str("Tunnel not found: ");
                Err(HtMcpError::Internal(m.concat(tunnel_id)))
            },
        }
    }
    /// Keeps exactly the tunnels whose flag in `live` is set, in their order.
    /// `live[i]` speaks of the `i`-th tunnel of the registry.
    pub fn retain_live(&mut self, live: &Vec<bool>)
        requires
            old(self).wf(),
            live@.len() == old(self)@.len(),
        ensures
            final(self).wf(),
            final(self)@ == keep(old(self)@, live@),
    {
        let ghost orig = self@;
        let mut rest: Vec<TunnelEntry> = Vec::new();
        std::mem::swap(&mut rest, &mut self.tunnels);
        let ghost orig_entries = rest@;
        let mut kept: Vec<TunnelEntry> = Vec::new();
        let n = rest.len();
        let mut i: usize = 0;
        while i < n
            invariant
                n == orig.len(),
                live@.len() == n,
                i <= n,
                orig == entry_views(orig_entries),
                unique_ids(orig),
                rest@ == orig_entries.subrange(i as int, n as int),
                entry_views(kept@) == keep(orig.take(i as int), live@.take(i as int)),
                unique_ids(entry_views(kept@)),
                forall|k: int| 0 <= k < kept@.len() ==> in_prefix(#[trigger] kept@[k]@, orig, i as int),
            decreases n - i,
        {
            let e = rest.remove(0);
            assert(e == orig_entries[i as int]);
            assert(orig.take(i + 1).drop_last() =~= orig.take(i as int));
            assert(live@.take(i + 1).take(i as int) =~= live@.take(i as int));
            let ghost before = kept@;
            if live[i] {
                kept.push(e);
                assert(entry_views(kept@) =~= entry_views(before).push(e@));
                assert forall|k: int| 0 <= k < kept@.len() implies in_prefix(#[trigger] kept@[k]@, orig, i + 1) by {
                    if k == kept@.len() - 1 {
                        assert(kept@[k]@ == orig[i as int]);
                    } else {
                        assert(kept@[k] == before[k]);
                        let j = choose|j: int| 0 <= j < i && orig[j] == before[k]@;
                        assert(orig[j] == kept@[k]@);
                    }
                }
                assert forall|a: int, b: int| 0 <= a < b < kept@.len() implies
                    (#[trigger] entry_views(kept@)[a]).0
                        != (#[trigger] entry_views(kept@)[b]).0 by {
                    assert(entry_views(kept@)[a] == kept@[a]@);
                    assert(entry_views(kept@)[b] == kept@[b]@);
                    if b == kept@.len() - 1 {
                        assert(kept@[a] == before[a]);
                        let j = choose|j: int| 0 <= j < i && orig[j] == before[a]@;
                        assert(orig[j].0 != orig[i as int].0);
                    } else {
                        assert(kept@[a] == before[a]);
                        assert(kept@[b] == before[b]);
                        assert(entry_views(before)[a] == before[a]@);
                        assert(entry_views(before)[b] == before[b]@);
                    }
                }
            } else {
                assert forall|k: int| 0 <= k < kept@.len() implies in_prefix(#[trigger] kept@[k]@, orig, i + 1) by {
                    let j = choose|j: int| 0 <= j < i && orig[j] == kept@[k]@;
                    assert(orig[j] == kept@[k]@);
                }
            }
            i = i + 1;
        }
        assert(orig.take(n as int) =~= orig);
        assert(live@.take(n as int) =~= live@);
        self.tunnels = kept;
    }

    /// Probes every held tunnel and drops those whose process has exited,
    /// without trying to stop them.
    pub fn health_check(&mut self) -> (r: Result<(), HtMcpError>)
        requires
            old(self).wf(),
        ensures
            final(self).wf(),
            r is Ok,
            exists|live: Seq<bool>| live.len() == old(self)@.len() && final(self)@ == keep(old(self)@, live),
    {
        let mut live: Vec<bool> = Vec::new();
        let n = self.tunnels.len();
        let mut i: usize = 0;
        while i < n
            invariant
                n == self.tunnels.len(),
                i <= n,
                live@.len() == i,
                self@ == old(self)@,
            decreases n - i,
        {
            let ghost before = self.tunnels@;
            let running = self.tunnels[i].tunnel.is_running();
            assert(self.tunnels@[i as int]@ == before[i as int]@);
            assert(self@ =~= old(self)@);
            live.push(running);
            i = i + 1;
        }
        self.retain_live(&live);
        Ok(())
    }
}

proof fn lemma_keep_members<T>(s: Seq<T>, alive: Seq<bool>)
    requires
        alive.len() == s.len(),
    ensures
        forall|i: int| 0 <= i < s.len() && alive[i] ==> keep(s, alive).contains(#[trigger] s[i]),
        forall|x: T| keep(s, alive).contains(x) ==> exists|i: int| 0 <= i < s.len() && alive[i] && s[i] == x,
    decreases s.len(),
{
    if s.len() > 0 {
        let s0 = s.drop_last();
        let a0 = alive.take(s.len() - 1);
        lemma_keep_members(s0, a0);
        let k = keep(s0, a0);
        assert forall|i: int| 0 <= i < s.len() && alive[i] implies keep(s, alive).contains(#[trigger] s[i]) by {
            if i < s.len() - 1 {
                assert(s0[i] == s[i]);
                assert(a0[i] == alive[i]);
                assert(k.contains(s[i]));
                let j = choose|j: int| 0 <= j < k.len() && k[j] == s[i];
                if alive[s.len() - 1] {
                    assert(keep(s, alive)[j] == s[i]);
                }
            } else {
                assert(keep(s, alive)[k.len() as int] == s[i]);
            }
        }
        assert forall|x: T| keep(s, alive).contains(x) implies exists|i: int| 0 <= i < s.len() && alive[i] && s[i] == x by {
            let j = choose|j: int| 0 <= j < keep(s, alive).len() && keep(s, alive)[j] == x;
            if j < k.len() {
                assert(k[j] == x);
                assert(k.contains(x));
                let i = choose|i: int| 0 <= i < s0.len() && a0[i] && s0[i] == x;
                assert(s[i] == x && alive[i]);
            } else {
                assert(s[s.len() - 1] == x);
            }
        }
    }
}

/// A health check keeps each tunnel whose probe found it running and drops
/// only tunnels whose probe found them exited: with the probes' answers
/// `live`, every kept tunnel was held before and was found running, and every
/// tunnel found running is kept.
pub proof fn lemma_health_check_keeps_live(held: Seq<TunnelView>, live: Seq<bool>)
    requires
        live.len() == held.len(),
    ensures
        forall|i: int| 0 <= i < held.len() && live[i] ==> keep(held, live).contains(#[trigger] held[i]),
        forall|t: TunnelView| keep(held, live).contains(t) ==>
            exists|i: int| 0 <= i < held.len() && live[i] && held[i] == t,
{
    lemma_keep_members(held, live);
}

} // verus!
