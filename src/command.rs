//! The privileged commands that carry out each effect. Every command is an
//! argument vector, run with elevated rights, and optionally fed a line of
//! text on its standard input (for writes into the group hierarchy).
use vstd::prelude::*;
use crate::naming::{
    decimal, group_label, output_chain_label, prerouting_chain_label, decimal_text, group_name,
    output_chain_name, prerouting_chain_name,
};
use crate::plan::{ChainRules, Effect, Hook, Table};

verus! {

/// One privileged command.
pub struct Invocation {
    pub argv: Vec<String>,
    pub input: Option<String>,
}

pub open spec fn texts(v: Seq<String>) -> Seq<Seq<char>> {
    v.map_values(|s: String| s@)
}

/// A command as plain text: its arguments and what it is fed.
pub open spec fn line_of(c: Invocation) -> (Seq<Seq<char>>, Option<Seq<char>>) {
    (
        texts(c.argv@),
        match c.input {
            Some(s) => Some(s@),
            None => None,
        },
    )
}

pub open spec fn lines_of(v: Seq<Invocation>) -> Seq<(Seq<Seq<char>>, Option<Seq<char>>)> {
    v.map_values(|c: Invocation| line_of(c))
}

pub open spec fn plain(argv: Seq<Seq<char>>) -> (Seq<Seq<char>>, Option<Seq<char>>) {
    (argv, None)
}

pub open spec fn fed(argv: Seq<Seq<char>>, input: Seq<char>) -> (
    Seq<Seq<char>>,
    Option<Seq<char>>,
) {
    (argv, Some(input))
}

pub open spec fn table_text(t: Table) -> Seq<char> {
    match t {
        Table::Nat => "nat"@,
        Table::Mangle => "mangle"@,
    }
}

pub open spec fn hook_text(h: Hook) -> Seq<char> {
    match h {
        Hook::Output => "OUTPUT"@,
        Hook::Prerouting => "PREROUTING"@,
    }
}

/// Name of the chain of process `pid` that is linked from `h`.
pub open spec fn chain_label(pid: nat, h: Hook) -> Seq<char> {
    match h {
        Hook::Output => output_chain_label(pid),
        Hook::Prerouting => prerouting_chain_label(pid),
    }
}

/// Directory of the group of process `pid` in the group hierarchy.
pub open spec fn group_dir(pid: nat) -> Seq<char> {
    "/sys/fs/cgroup/net_cls/"@ + group_label(pid)
}

pub open spec fn chain_command(t: Table, op: Seq<char>, chain: Seq<char>) -> (
    Seq<Seq<char>>,
    Option<Seq<char>>,
) {
    plain(seq!["iptables"@, "-t"@, table_text(t), op, chain])
}

pub open spec fn hook_command(t: Table, op: Seq<char>, h: Hook, chain: Seq<char>) -> (
    Seq<Seq<char>>,
    Option<Seq<char>>,
) {
    plain(seq!["iptables"@, "-t"@, table_text(t), op, hook_text(h), "-j"@, chain])
}

/// The rules appended to chain `chain` of table `t`.
pub open spec fn rule_lines(t: Table, chain: Seq<char>, rules: ChainRules) -> Seq<
    (Seq<Seq<char>>, Option<Seq<char>>),
> {
    let head = seq!["iptables"@, "-t"@, table_text(t), "-A"@, chain, "-p"@];
    match rules {
        ChainRules::Redirect { class_id, port } => seq![
            plain(
                head + seq![
                    "tcp"@,
                    "-m"@,
                    "cgroup"@,
                    "--cgroup"@,
                    decimal(class_id as nat),
                    "-j"@,
                    "REDIRECT"@,
                    "--to-ports"@,
                    decimal(port as nat),
                ],
            ),
            plain(
                head + seq![
                    "udp"@,
                    "-m"@,
                    "cgroup"@,
                    "--cgroup"@,
                    decimal(class_id as nat),
                    "--dport"@,
                    "53"@,
                    "-j"@,
                    "REDIRECT"@,
                    "--to-ports"@,
                    decimal(port as nat),
                ],
            ),
        ],
        ChainRules::Intercept { mark, port } => seq![
            plain(head + intercept_tail("udp"@, mark, port)),
            plain(head + intercept_tail("tcp"@, mark, port)),
        ],
        ChainRules::MarkClassified { class_id, mark } => seq![
            plain(head + mark_tail("tcp"@, class_id, mark)),
            plain(head + mark_tail("udp"@, class_id, mark)),
        ],
    }
}

pub open spec fn intercept_tail(proto: Seq<char>, mark: u32, port: u32) -> Seq<Seq<char>> {
    seq![
        proto,
        "-m"@,
        "mark"@,
        "--mark"@,
        decimal(mark as nat),
        "-j"@,
        "TPROXY"@,
        "--on-ip"@,
        "127.0.0.1"@,
        "--on-port"@,
        decimal(port as nat),
    ]
}

pub open spec fn mark_tail(proto: Seq<char>, class_id: u32, mark: u32) -> Seq<Seq<char>> {
    seq![
        proto,
        "-m"@,
        "cgroup"@,
        "--cgroup"@,
        decimal(class_id as nat),
        "-j"@,
        "MARK"@,
        "--set-mark"@,
        decimal(mark as nat),
    ]
}

/// The commands that carry out effect `e`, in order.
pub open spec fn command_lines(e: Effect) -> Seq<(Seq<Seq<char>>, Option<Seq<char>>)> {
    match e {
        Effect::AddRoutingRule { mark } => seq![
            plain(
                seq![
                    "ip"@,
                    "rule"@,
                    "add"@,
                    "fwmark"@,
                    decimal(mark as nat),
                    "table"@,
                    decimal(mark as nat),
                ],
            ),
        ],
        Effect::DeleteRoutingRule { mark } => seq![
            plain(
                seq![
                    "ip"@,
                    "rule"@,
                    "delete"@,
                    "fwmark"@,
                    decimal(mark as nat),
                    "table"@,
                    decimal(mark as nat),
                ],
            ),
        ],
        Effect::AddLocalRoute { mark } => seq![
            plain(
                seq![
                    "ip"@,
                    "route"@,
                    "add"@,
                    "local"@,
                    "0.0.0.0/0"@,
                    "dev"@,
                    "lo"@,
                    "table"@,
                    decimal(mark as nat),
                ],
            ),
        ],
        Effect::DeleteLocalRoute { mark } => seq![
            plain(
                seq![
                    "ip"@,
                    "route"@,
                    "delete"@,
                    "local"@,
                    "0.0.0.0/0"@,
                    "dev"@,
                    "lo"@,
                    "table"@,
                    decimal(mark as nat),
                ],
            ),
        ],
        Effect::Enroll { pid, class_id } => seq![
            plain(seq!["mkdir"@, "-p"@, group_dir(pid as nat)]),
            fed(
                seq!["tee"@, group_dir(pid as nat) + "/net_cls.classid"@],
                decimal(class_id as nat),
            ),
            fed(seq!["tee"@, group_dir(pid as nat) + "/cgroup.procs"@], decimal(pid as nat)),
        ],
        Effect::Unenroll { pid, class_id } => seq![
            fed(seq!["tee"@, "/sys/fs/cgroup/net_cls/cgroup.procs"@], decimal(pid as nat)),
            plain(seq!["rmdir"@, group_dir(pid as nat)]),
        ],
        Effect::InstallChain { pid, table, hook, rules } => {
            let chain = chain_label(pid as nat, hook);
            seq![
                chain_command(table, "-N"@, chain),
                hook_command(table, "-A"@, hook, chain),
            ] + rule_lines(table, chain, rules)
        },
        Effect::RemoveChain { pid, table, hook, rules } => {
            let chain = chain_label(pid as nat, hook);
            seq![
                hook_command(table, "-D"@, hook, chain),
                chain_command(table, "-F"@, chain),
                chain_command(table, "-X"@, chain),
            ]
        },
    }
}

/// The commands of each effect of `effects`, one effect after another.
pub open spec fn script_of(effects: Seq<Effect>) -> Seq<(Seq<Seq<char>>, Option<Seq<char>>)>
    decreases effects.len(),
{
    if effects.len() == 0 {
        seq![]
    } else {
        script_of(effects.drop_last()) + command_lines(effects.last())
    }
}

fn word(v: &mut Vec<String>, s: &str)
    ensures
        texts(final(v)@) == texts(old(v)@).push(s@),
{
    v.push(String::from_str(s));
    assert(texts(v@) =~= texts(old(v)@).push(s@));
}

fn owned(v: &mut Vec<String>, s: String)
    ensures
        texts(final(v)@) == texts(old(v)@).push(s@),
{
    let ghost t = s@;
    v.push(s);
    assert(texts(v@) =~= texts(old(v)@).push(t));
}

fn number(v: &mut Vec<String>, n: u32)
    ensures
        texts(final(v)@) == texts(old(v)@).push(decimal(n as nat)),
{
    owned(v, decimal_text(n));
}

fn push_plain(out: &mut Vec<Invocation>, argv: Vec<String>)
    ensures
        lines_of(final(out)@) == lines_of(old(out)@).push(plain(texts(argv@))),
{
    let c = Invocation { argv, input: None };
    assert(line_of(c) == plain(texts(argv@)));
    out.push(c);
    assert(lines_of(out@) =~= lines_of(old(out)@).push(plain(texts(argv@))));
}

fn push_fed(out: &mut Vec<Invocation>, argv: Vec<String>, input: String)
    ensures
        lines_of(final(out)@) == lines_of(old(out)@).push(fed(texts(argv@), input@)),
{
    let c = Invocation { argv, input: Some(input) };
    assert(line_of(c) == fed(texts(argv@), input@));
    out.push(c);
    assert(lines_of(out@) =~= lines_of(old(out)@).push(fed(texts(argv@), input@)));
}

fn table_word(t: Table) -> (r: &'static str)
    ensures
        r@ == table_text(t),
{
    match t {
        Table::Nat => "nat",
        Table::Mangle => "mangle",
    }
}

fn hook_word(h: Hook) -> (r: &'static str)
    ensures
        r@ == hook_text(h),
{
    match h {
        Hook::Output => "OUTPUT",
        Hook::Prerouting => "PREROUTING",
    }
}

/// Name of the chain of process `pid` that is linked from `h`.
pub fn chain_name(pid: u32, h: Hook) -> (r: String)
    ensures
        r@ == chain_label(pid as nat, h),
{
    match h {
        Hook::Output => output_chain_name(pid),
        Hook::Prerouting => prerouting_chain_name(pid),
    }
}

fn group_dir_text(pid: u32) -> (r: String)
    ensures
        r@ == group_dir(pid as nat),
{
    let g = group_name(pid);
    String::from_str("/sys/fs/cgroup/net_cls/").concat(g.as_str())
}

fn iptables(t: Table, op: &str, chain: &String) -> (r: Vec<String>)
    ensures
        texts(r@) == seq!["iptables"@, "-t"@, table_text(t), op@, chain@],
{
    let mut r: Vec<String> = Vec::new();
    word(&mut r, "iptables");
    word(&mut r, "-t");
    word(&mut r, table_word(t));
    word(&mut r, op);
    word(&mut r, chain.as_str());
    r
}

fn push_chain_command(out: &mut Vec<Invocation>, t: Table, op: &str, chain: &String)
    ensures
        lines_of(final(out)@) == lines_of(old(out)@).push(chain_command(t, op@, chain@)),
{
    push_plain(out, iptables(t, op, chain));
}

fn push_hook_command(out: &mut Vec<Invocation>, t: Table, op: &str, h: Hook, chain: &String)
    ensures
        lines_of(final(out)@) == lines_of(old(out)@).push(hook_command(t, op@, h, chain@)),
{
    let mut r: Vec<String> = Vec::new();
    word(&mut r, "iptables");
    word(&mut r, "-t");
    word(&mut r, table_word(t));
    word(&mut r, op);
    word(&mut r, hook_word(h));
    word(&mut r, "-j");
    word(&mut r, chain.as_str());
    assert(texts(r@) =~= seq!["iptables"@, "-t"@, table_text(t), op@, hook_text(h), "-j"@, chain@]);
    push_plain(out, r);
}

fn push_rules(out: &mut Vec<Invocation>, t: Table, chain: &String, rules: ChainRules)
    ensures
        lines_of(final(out)@) == lines_of(old(out)@) + rule_lines(t, chain@, rules),
{
    let ghost head = seq!["iptables"@, "-t"@, table_text(t), "-A"@, chain@, "-p"@];
    match rules {
        ChainRules::Redirect { class_id, port } => {
            let mut a = iptables(t, "-A", chain);
            word(&mut a, "-p");
            word(&mut a, "tcp");
            word(&mut a, "-m");
            word(&mut a, "cgroup");
            word(&mut a, "--cgroup");
            number(&mut a, class_id);
            word(&mut a, "-j");
            word(&mut a, "REDIRECT");
            word(&mut a, "--to-ports");
            number(&mut a, port);
            let ghost la = texts(a@);
            push_plain(out, a);
            let mut b = iptables(t, "-A", chain);
            word(&mut b, "-p");
            word(&mut b, "udp");
            word(&mut b, "-m");
            word(&mut b, "cgroup");
            word(&mut b, "--cgroup");
            number(&mut b, class_id);
            word(&mut b, "--dport");
            word(&mut b, "53");
            word(&mut b, "-j");
            word(&mut b, "REDIRECT");
            word(&mut b, "--to-ports");
            number(&mut b, port);
            let ghost lb = texts(b@);
            push_plain(out, b);
            let ghost r = rule_lines(t, chain@, rules);
            assert(la =~= r[0].0);
            assert(lb =~= r[1].0);
        },
        ChainRules::Intercept { mark, port } => {
            let mut a = iptables(t, "-A", chain);
            word(&mut a, "-p");
            push_intercept_tail(&mut a, "udp", mark, port);
            let ghost la = texts(a@);
            push_plain(out, a);
            let mut b = iptables(t, "-A", chain);
            word(&mut b, "-p");
            push_intercept_tail(&mut b, "tcp", mark, port);
            let ghost lb = texts(b@);
            push_plain(out, b);
            let ghost r = rule_lines(t, chain@, rules);
            assert(la =~= r[0].0);
            assert(lb =~= r[1].0);
        },
        ChainRules::MarkClassified { class_id, mark } => {
            let mut a = iptables(t, "-A", chain);
            word(&mut a, "-p");
            push_mark_tail(&mut a, "tcp", class_id, mark);
            let ghost la = texts(a@);
            push_plain(out, a);
            let mut b = iptables(t, "-A", chain);
            word(&mut b, "-p");
            push_mark_tail(&mut b, "udp", class_id, mark);
            let ghost lb = texts(b@);
            push_plain(out, b);
            let ghost r = rule_lines(t, chain@, rules);
            assert(la =~= r[0].0);
            assert(lb =~= r[1].0);
        },
    }
    assert(lines_of(out@) =~= lines_of(old(out)@) + rule_lines(t, chain@, rules));
}

fn push_intercept_tail(v: &mut Vec<String>, proto: &str, mark: u32, port: u32)
    ensures
        texts(final(v)@) == texts(old(v)@) + intercept_tail(proto@, mark, port),
{
    word(v, proto);
    word(v, "-m");
    word(v, "mark");
    word(v, "--mark");
    number(v, mark);
    word(v, "-j");
    word(v, "TPROXY");
    word(v, "--on-ip");
    word(v, "127.0.0.1");
    word(v, "--on-port");
    number(v, port);
    assert(texts(v@) =~= texts(old(v)@) + intercept_tail(proto@, mark, port));
}

fn push_mark_tail(v: &mut Vec<String>, proto: &str, class_id: u32, mark: u32)
    ensures
        texts(final(v)@) == texts(old(v)@) + mark_tail(proto@, class_id, mark),
{
    word(v, proto);
    word(v, "-m");
    word(v, "cgroup");
    word(v, "--cgroup");
    number(v, class_id);
    word(v, "-j");
    word(v, "MARK");
    word(v, "--set-mark");
    number(v, mark);
    assert(texts(v@) =~= texts(old(v)@) + mark_tail(proto@, class_id, mark));
}

/// Appends a policy-routing command: on the rule for mark `mark` when
/// `rule` holds, else on the local route of table `mark`.
fn push_ip(out: &mut Vec<Invocation>, rule: bool, op: &str, mark: u32)
    ensures
        rule ==> lines_of(final(out)@) == lines_of(old(out)@).push(
            plain(seq!["ip"@, "rule"@, op@, "fwmark"@, decimal(mark as nat), "table"@, decimal(mark as nat)]),
        ),
        !rule ==> lines_of(final(out)@) == lines_of(old(out)@).push(
            plain(
                seq![
                    "ip"@,
                    "route"@,
                    op@,
                    "local"@,
                    "0.0.0.0/0"@,
                    "dev"@,
                    "lo"@,
                    "table"@,
                    decimal(mark as nat),
                ],
            ),
        ),
{
    let mut r: Vec<String> = Vec::new();
    word(&mut r, "ip");
    if rule {
        word(&mut r, "rule");
        word(&mut r, op);
        word(&mut r, "fwmark");
        number(&mut r, mark);
        word(&mut r, "table");
        number(&mut r, mark);
        assert(texts(r@) =~= seq![
            "ip"@, "rule"@, op@, "fwmark"@, decimal(mark as nat), "table"@, decimal(mark as nat),
        ]);
    } else {
        word(&mut r, "route");
        word(&mut r, op);
        word(&mut r, "local");
        word(&mut r, "0.0.0.0/0");
        word(&mut r, "dev");
        word(&mut r, "lo");
        word(&mut r, "table");
        number(&mut r, mark);
        assert(texts(r@) =~= seq![
            "ip"@, "route"@, op@, "local"@, "0.0.0.0/0"@, "dev"@, "lo"@, "table"@, decimal(mark as nat),
        ]);
    }
    push_plain(out, r);
}

/// Appends the commands of effect `e` to `out`.
pub fn push_commands(out: &mut Vec<Invocation>, e: &Effect)
    ensures
        lines_of(final(out)@) == lines_of(old(out)@) + command_lines(*e),
{
    match *e {
        Effect::AddRoutingRule { mark } => {
            push_ip(out, true, "add", mark);
            assert(lines_of(out@) =~= lines_of(old(out)@) + command_lines(*e));
        },
        Effect::DeleteRoutingRule { mark } => {
            push_ip(out, true, "delete", mark);
            assert(lines_of(out@) =~= lines_of(old(out)@) + command_lines(*e));
        },
        Effect::AddLocalRoute { mark } => {
            push_ip(out, false, "add", mark);
            assert(lines_of(out@) =~= lines_of(old(out)@) + command_lines(*e));
        },
        Effect::DeleteLocalRoute { mark } => {
            push_ip(out, false, "delete", mark);
            assert(lines_of(out@) =~= lines_of(old(out)@) + command_lines(*e));
        },
        Effect::Enroll { pid, class_id } => {
            let dir = group_dir_text(pid);
            let mut a: Vec<String> = Vec::new();
            word(&mut a, "mkdir");
            word(&mut a, "-p");
            word(&mut a, dir.as_str());
            assert(texts(a@) =~= seq!["mkdir"@, "-p"@, group_dir(pid as nat)]);
            push_plain(out, a);
            let classid_file = dir.clone().concat("/net_cls.classid");
            let mut b: Vec<String> = Vec::new();
            word(&mut b, "tee");
            owned(&mut b, classid_file);
            assert(texts(b@) =~= seq!["tee"@, group_dir(pid as nat) + "/net_cls.classid"@]);
            push_fed(out, b, decimal_text(class_id));
            let procs_file = dir.concat("/cgroup.procs");
            let mut c: Vec<String> = Vec::new();
            word(&mut c, "tee");
            owned(&mut c, procs_file);
            assert(texts(c@) =~= seq!["tee"@, group_dir(pid as nat) + "/cgroup.procs"@]);
            push_fed(out, c, decimal_text(pid));
            assert(lines_of(out@) =~= lines_of(old(out)@) + command_lines(*e));
        },
        Effect::Unenroll { pid, class_id } => {
            let mut a: Vec<String> = Vec::new();
            word(&mut a, "tee");
            word(&mut a, "/sys/fs/cgroup/net_cls/cgroup.procs");
            assert(texts(a@) =~= seq!["tee"@, "/sys/fs/cgroup/net_cls/cgroup.procs"@]);
            push_fed(out, a, decimal_text(pid));
            let mut b: Vec<String> = Vec::new();
            word(&mut b, "rmdir");
            owned(&mut b, group_dir_text(pid));
            assert(texts(b@) =~= seq!["rmdir"@, group_dir(pid as nat)]);
            push_plain(out, b);
            assert(lines_of(out@) =~= lines_of(old(out)@) + command_lines(*e));
        },
        Effect::InstallChain { pid, table, hook, rules } => {
            let chain = chain_name(pid, hook);
            push_chain_command(out, table, "-N", &chain);
            push_hook_command(out, table, "-A", hook, &chain);
            push_rules(out, table, &chain, rules);
            assert(lines_of(out@) =~= lines_of(old(out)@) + command_lines(*e));
        },
        Effect::RemoveChain { pid, table, hook, rules } => {
            let chain = chain_name(pid, hook);
            push_hook_command(out, table, "-D", hook, &chain);
            push_chain_command(out, table, "-F", &chain);
            push_chain_command(out, table, "-X", &chain);
            assert(lines_of(out@) =~= lines_of(old(out)@) + command_lines(*e));
        },
    }
}

/// The commands that carry out effect `e`, in order.
pub fn commands(e: &Effect) -> (r: Vec<Invocation>)
    ensures
        lines_of(r@) == command_lines(*e),
{
    let mut r: Vec<Invocation> = Vec::new();
    push_commands(&mut r, e);
    assert(lines_of(r@) =~= command_lines(*e));
    r
}

/// The commands of every effect of `effects`, in order.
pub fn script(effects: &Vec<Effect>) -> (r: Vec<Invocation>)
    ensures
        lines_of(r@) == script_of(effects@),
{
    let mut r: Vec<Invocation> = Vec::new();
    let mut k: usize = 0;
    assert(lines_of(r@) =~= script_of(effects@.subrange(0, 0)));
    while k < effects.len()
        invariant
            k <= effects@.len(),
            lines_of(r@) == script_of(effects@.subrange(0, k as int)),
        decreases effects@.len() - k,
    {
        push_commands(&mut r, &effects[k]);
        assert(effects@.subrange(0, k + 1).drop_last() =~= effects@.subrange(0, k as int));
        k = k + 1;
    }
    assert(effects@.subrange(0, k as int) =~= effects@);
    r
}

} // verus!
