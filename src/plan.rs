//! The ordered effects that set up one redirection, and the teardown that
//! undoes them. Effects name kernel resources at the granularity of one
//! resource each: a policy-routing rule, a local route, a group enrollment,
//! or a rule chain linked into a hook.
use vstd::prelude::*;

verus! {

/// Strategy that forwards the classified traffic to the proxy.
#[derive(Clone, Copy, Debug, PartialEq, Eq, Structural)]
pub enum Strategy {
    /// Rewrite the destination port for classified TCP and DNS traffic.
    Redirect,
    /// Mark classified traffic and intercept it transparently.
    TransparentProxy,
}

/// Firewall table a chain lives in.
#[derive(Clone, Copy, Debug, PartialEq, Eq, Structural)]
pub enum Table {
    Nat,
    Mangle,
}

/// Built-in hook a chain is linked from.
#[derive(Clone, Copy, Debug, PartialEq, Eq, Structural)]
pub enum Hook {
    Output,
    Prerouting,
}

/// The rules held by one chain.
#[derive(Clone, Copy, Debug, PartialEq, Eq, Structural)]
pub enum ChainRules {
    /// Classified TCP, and classified UDP to port 53, redirected to `port`.
    Redirect { class_id: u32, port: u32 },
    /// UDP and TCP marked `mark` delivered transparently to `port` on loopback.
    Intercept { mark: u32, port: u32 },
    /// Classified TCP and UDP marked with `mark`.
    MarkClassified { class_id: u32, mark: u32 },
}

/// One resource-level change to the host.
#[derive(Clone, Copy, Debug, PartialEq, Eq, Structural)]
pub enum Effect {
    /// Packets marked `mark` are looked up in routing table `mark`.
    AddRoutingRule { mark: u32 },
    /// A local catch-all route over loopback in table `mark`.
    AddLocalRoute { mark: u32 },
    /// Group of `pid` created, tagged with `class_id`, and `pid` enrolled.
    Enroll { pid: u32, class_id: u32 },
    /// Chain of `pid` for `hook` created in `table`, linked, and filled.
    InstallChain { pid: u32, table: Table, hook: Hook, rules: ChainRules },
    /// Chain of `pid` for `hook` unlinked, flushed and deleted.
    RemoveChain { pid: u32, table: Table, hook: Hook, rules: ChainRules },
    /// `pid` moved out of its group, and the group deleted.
    Unenroll { pid: u32, class_id: u32 },
    DeleteLocalRoute { mark: u32 },
    DeleteRoutingRule { mark: u32 },
}

/// What identifies one redirection session.
#[derive(Clone, Copy, Debug, PartialEq, Eq, Structural)]
pub struct RedirectionKey {
    pub pid: u32,
    pub class_id: u32,
    pub port: u32,
    pub strategy: Strategy,
}

/// The key of a redirection of `pid` to `port`: the class id is the port,
/// and in transparent mode the routing mark is the process id.
pub open spec fn key_for(pid: u32, port: u32, strategy: Strategy) -> RedirectionKey {
    RedirectionKey { pid, class_id: port, port, strategy }
}

impl RedirectionKey {
    pub fn new(pid: u32, port: u32, strategy: Strategy) -> (r: RedirectionKey)
        ensures
            r == key_for(pid, port, strategy),
    {
        RedirectionKey { pid, class_id: port, port, strategy }
    }

    /// Routing mark and routing table of a transparent redirection.
    pub fn mark(&self) -> (r: u32)
        ensures
            r == self.pid,
    {
        self.pid
    }
}

/// Whether `e` creates a resource (rather than removing one).
pub open spec fn is_creation(e: Effect) -> bool {
    match e {
        Effect::AddRoutingRule { .. } => true,
        Effect::AddLocalRoute { .. } => true,
        Effect::Enroll { .. } => true,
        Effect::InstallChain { .. } => true,
        _ => false,
    }
}

/// The effect that reverts `e`.
pub open spec fn undo(e: Effect) -> Effect {
    match e {
        Effect::AddRoutingRule { mark } => Effect::DeleteRoutingRule { mark },
        Effect::AddLocalRoute { mark } => Effect::DeleteLocalRoute { mark },
        Effect::Enroll { pid, class_id } => Effect::Unenroll { pid, class_id },
        Effect::InstallChain { pid, table, hook, rules } => Effect::RemoveChain {
            pid,
            table,
            hook,
            rules,
        },
        Effect::RemoveChain { pid, table, hook, rules } => Effect::InstallChain {
            pid,
            table,
            hook,
            rules,
        },
        Effect::Unenroll { pid, class_id } => Effect::Enroll { pid, class_id },
        Effect::DeleteLocalRoute { mark } => Effect::AddLocalRoute { mark },
        Effect::DeleteRoutingRule { mark } => Effect::AddRoutingRule { mark },
    }
}

/// The ordered setup of a redirection.
pub open spec fn setup_plan(k: RedirectionKey) -> Seq<Effect> {
    let enroll = Effect::Enroll { pid: k.pid, class_id: k.class_id };
    match k.strategy {
        Strategy::Redirect => seq![
            enroll,
            Effect::InstallChain {
                pid: k.pid,
                table: Table::Nat,
                hook: Hook::Output,
                rules: ChainRules::Redirect { class_id: k.class_id, port: k.port },
            },
        ],
        Strategy::TransparentProxy => seq![
            Effect::AddRoutingRule { mark: k.pid },
            Effect::AddLocalRoute { mark: k.pid },
            enroll,
            Effect::InstallChain {
                pid: k.pid,
                table: Table::Mangle,
                hook: Hook::Prerouting,
                rules: ChainRules::Intercept { mark: k.pid, port: k.port },
            },
            Effect::InstallChain {
                pid: k.pid,
                table: Table::Mangle,
                hook: Hook::Output,
                rules: ChainRules::MarkClassified { class_id: k.class_id, mark: k.pid },
            },
        ],
    }
}

/// The undo of each effect of `applied`, last applied first.
pub open spec fn teardown_plan(applied: Seq<Effect>) -> Seq<Effect> {
    Seq::new(applied.len(), |i: int| undo(applied[applied.len() - 1 - i]))
}

impl Effect {
    /// The effect that reverts this one.
    pub fn inverse(&self) -> (r: Effect)
        ensures
            r == undo(*self),
    {
        match *self {
            Effect::AddRoutingRule { mark } => Effect::DeleteRoutingRule { mark },
            Effect::AddLocalRoute { mark } => Effect::DeleteLocalRoute { mark },
            Effect::Enroll { pid, class_id } => Effect::Unenroll { pid, class_id },
            Effect::InstallChain { pid, table, hook, rules } => Effect::RemoveChain {
                pid,
                table,
                hook,
                rules,
            },
            Effect::RemoveChain { pid, table, hook, rules } => Effect::InstallChain {
                pid,
                table,
                hook,
                rules,
            },
            Effect::Unenroll { pid, class_id } => Effect::Enroll { pid, class_id },
            Effect::DeleteLocalRoute { mark } => Effect::AddLocalRoute { mark },
            Effect::DeleteRoutingRule { mark } => Effect::AddRoutingRule { mark },
        }
    }
}

/// The setup effects of `key`, in the order they are applied.
pub fn setup_effects(key: &RedirectionKey) -> (r: Vec<Effect>)
    ensures
        r@ == setup_plan(*key),
{
    let enroll = Effect::Enroll { pid: key.pid, class_id: key.class_id };
    let mut r: Vec<Effect> = Vec::new();
    match key.strategy {
        Strategy::Redirect => {
            r.push(enroll);
            r.push(
                Effect::InstallChain {
                    pid: key.pid,
                    table: Table::Nat,
                    hook: Hook::Output,
                    rules: ChainRules::Redirect { class_id: key.class_id, port: key.port },
                },
            );
        },
        Strategy::TransparentProxy => {
            r.push(Effect::AddRoutingRule { mark: key.pid });
            r.push(Effect::AddLocalRoute { mark: key.pid });
            r.push(enroll);
            r.push(
                Effect::InstallChain {
                    pid: key.pid,
                    table: Table::Mangle,
                    hook: Hook::Prerouting,
                    rules: ChainRules::Intercept { mark: key.pid, port: key.port },
                },
            );
            r.push(
                Effect::InstallChain {
                    pid: key.pid,
                    table: Table::Mangle,
                    hook: Hook::Output,
                    rules: ChainRules::MarkClassified { class_id: key.class_id, mark: key.pid },
                },
            );
        },
    }
    assert(r@ =~= setup_plan(*key));
    r
}

/// The effects that revert `applied`: the undo of each, in reverse order.
pub fn teardown_effects(applied: &Vec<Effect>) -> (r: Vec<Effect>)
    ensures
        r@ == teardown_plan(applied@),
{
    let n = applied.len();
    let mut r: Vec<Effect> = Vec::new();
    let mut k: usize = 0;
    while k < n
        invariant
            n == applied@.len(),
            k <= n,
            r@.len() == k,
            forall|i: int| 0 <= i < k ==> #[trigger] r@[i] == undo(applied@[n - 1 - i]),
        decreases n - k,
    {
        let e = applied[n - 1 - k].inverse();
        r.push(e);
        k = k + 1;
    }
    assert(r@ =~= teardown_plan(applied@));
    r
}

/// Undoing is an involution: the undo of an undo is the effect itself, and
/// it turns every creation into a removal.
pub proof fn lemma_undo_involutive(e: Effect)
    ensures
        undo(undo(e)) == e,
        is_creation(e) ==> !is_creation(undo(e)),
{
}

/// Teardown is the exact inverse of setup: as many effects, in reverse
/// order, each the structural inverse of its counterpart, and every setup
/// effect creates what its counterpart removes.
pub proof fn lemma_teardown_inverts_setup(key: RedirectionKey)
    ensures
        ({
            let s = setup_plan(key);
            let t = teardown_plan(s);
            &&& t.len() == s.len()
            &&& forall|i: int|
                0 <= i < t.len() ==> {
                    &&& #[trigger] t[i] == undo(s[s.len() - 1 - i])
                    &&& undo(t[i]) == s[s.len() - 1 - i]
                    &&& is_creation(s[s.len() - 1 - i])
                    &&& !is_creation(t[i])
                }
        }),
{
    let s = setup_plan(key);
    assert forall|i: int| 0 <= i < s.len() implies is_creation(#[trigger] s[i]) by {}
    assert forall|i: int| 0 <= i < s.len() implies undo(undo(#[trigger] s[i])) == s[i] by {
        lemma_undo_involutive(s[i]);
    }
}

/// Both strategies enroll the process into a group tagged with the class id
/// derived from the same port: each setup holds that one enrollment and no
/// other.
pub proof fn lemma_same_classification(pid: u32, port: u32)
    ensures
        ({
            let e = Effect::Enroll { pid, class_id: port };
            let a = setup_plan(key_for(pid, port, Strategy::Redirect));
            let b = setup_plan(key_for(pid, port, Strategy::TransparentProxy));
            &&& a.contains(e)
            &&& b.contains(e)
            &&& forall|i: int| 0 <= i < a.len() && (#[trigger] a[i] is Enroll) ==> a[i] == e
            &&& forall|i: int| 0 <= i < b.len() && (#[trigger] b[i] is Enroll) ==> b[i] == e
        }),
{
    let e = Effect::Enroll { pid, class_id: port };
    let a = setup_plan(key_for(pid, port, Strategy::Redirect));
    let b = setup_plan(key_for(pid, port, Strategy::TransparentProxy));
    assert(a[0] == e);
    assert(b[2] == e);
}

} // verus!
