//! Names of the host-global resources owned by one redirection. Each is a
//! fixed prefix followed by the decimal process id, so that distinct process
//! ids never share a resource.
use vstd::prelude::*;

verus! {

/// The character of one decimal digit.
pub open spec fn digit_char(d: nat) -> char {
    if d == 0 {
        '0'
    } else if d == 1 {
        '1'
    } else if d == 2 {
        '2'
    } else if d == 3 {
        '3'
    } else if d == 4 {
        '4'
    } else if d == 5 {
        '5'
    } else if d == 6 {
        '6'
    } else if d == 7 {
        '7'
    } else if d == 8 {
        '8'
    } else {
        '9'
    }
}

/// Decimal text of `n`, without leading zeros.
pub open spec fn decimal(n: nat) -> Seq<char>
    decreases n,
{
    if n < 10 {
        seq![digit_char(n)]
    } else {
        decimal(n / 10).push(digit_char(n % 10))
    }
}

pub open spec fn is_digit(c: char) -> bool {
    '0' <= c && c <= '9'
}

/// Name of the traffic-control group of process `pid`.
pub open spec fn group_label(pid: nat) -> Seq<char> {
    "nozomi_tproxy_"@ + decimal(pid)
}

/// Name of the outbound rule chain of process `pid`.
pub open spec fn output_chain_label(pid: nat) -> Seq<char> {
    "nozomi_tproxy_out_"@ + decimal(pid)
}

/// Name of the pre-routing rule chain of process `pid`.
pub open spec fn prerouting_chain_label(pid: nat) -> Seq<char> {
    "nozomi_tproxy_pre_"@ + decimal(pid)
}

/// Every resource name owned by process `pid`.
pub open spec fn labels_of(pid: nat) -> Seq<Seq<char>> {
    seq![group_label(pid), output_chain_label(pid), prerouting_chain_label(pid)]
}

proof fn lemma_digit_char(d: nat)
    requires
        d < 10,
    ensures
        is_digit(digit_char(d)),
        forall|e: nat| e < 10 && digit_char(e) == digit_char(d) ==> e == d,
{
}

proof fn lemma_decimal_digits(n: nat)
    ensures
        decimal(n).len() >= 1,
        forall|i: int| 0 <= i < decimal(n).len() ==> is_digit(#[trigger] decimal(n)[i]),
    decreases n,
{
    if n < 10 {
        lemma_digit_char(n);
    } else {
        lemma_decimal_digits(n / 10);
        lemma_digit_char(n % 10);
    }
}

proof fn lemma_decimal_injective(a: nat, b: nat)
    requires
        decimal(a) == decimal(b),
    ensures
        a == b,
    decreases a,
{
    lemma_decimal_digits(a / 10);
    lemma_decimal_digits(b / 10);
    let da = decimal(a);
    let db = decimal(b);
    if a < 10 && b < 10 {
        assert(da[0] == db[0]);
        lemma_digit_char(a);
    } else if a < 10 {
        assert(db.len() >= 2);
    } else if b < 10 {
        assert(da.len() >= 2);
    } else {
        assert(da.last() == db.last());
        lemma_digit_char(a % 10);
        assert(da.drop_last() == decimal(a / 10));
        assert(db.drop_last() == decimal(b / 10));
        lemma_decimal_injective(a / 10, b / 10);
        assert(a % 10 == b % 10);
        assert(a == 10 * (a / 10) + a % 10);
        assert(b == 10 * (b / 10) + b % 10);
    }
}

proof fn lemma_prefixed_injective(p: Seq<char>, a: nat, b: nat)
    requires
        p + decimal(a) == p + decimal(b),
    ensures
        a == b,
{
    assert(decimal(a) == (p + decimal(a)).subrange(p.len() as int, (p + decimal(a)).len() as int));
    assert(decimal(b) == (p + decimal(b)).subrange(p.len() as int, (p + decimal(b)).len() as int));
    lemma_decimal_injective(a, b);
}

/// The names of different kinds never coincide, whatever the two ids.
proof fn lemma_kinds_differ(a: nat, b: nat)
    ensures
        group_label(a) != output_chain_label(b),
        group_label(a) != prerouting_chain_label(b),
        output_chain_label(a) != prerouting_chain_label(b),
{
    reveal_strlit("nozomi_tproxy_");
    reveal_strlit("nozomi_tproxy_out_");
    reveal_strlit("nozomi_tproxy_pre_");
    lemma_decimal_digits(a);
    lemma_decimal_digits(b);
    assert(group_label(a)[14] != output_chain_label(b)[14]);
    assert(group_label(a)[14] != prerouting_chain_label(b)[14]);
    assert(output_chain_label(a)[14] != prerouting_chain_label(b)[14]);
}

/// Resource names are exclusive per process: the three names of one process
/// are pairwise distinct, and no name of `p1` is a name of a different `p2`.
pub proof fn lemma_names_disjoint(p1: nat, p2: nat)
    requires
        p1 != p2,
    ensures
        forall|i: int, j: int|
            0 <= i < 3 && 0 <= j < 3 ==> #[trigger] labels_of(p1)[i] != #[trigger] labels_of(p2)[j],
        forall|i: int, j: int|
            0 <= i < j < 3 ==> #[trigger] labels_of(p1)[i] != #[trigger] labels_of(p1)[j],
{
    lemma_kinds_differ(p1, p2);
    lemma_kinds_differ(p2, p1);
    lemma_kinds_differ(p1, p1);
    if group_label(p1) == group_label(p2) {
        lemma_prefixed_injective("nozomi_tproxy_"@, p1, p2);
    }
    if output_chain_label(p1) == output_chain_label(p2) {
        lemma_prefixed_injective("nozomi_tproxy_out_"@, p1, p2);
    }
    if prerouting_chain_label(p1) == prerouting_chain_label(p2) {
        lemma_prefixed_injective("nozomi_tproxy_pre_"@, p1, p2);
    }
}

fn digit_text(d: u32) -> (r: &'static str)
    requires
        d < 10,
    ensures
        r@ == seq![digit_char(d as nat)],
{
    proof {
        reveal_strlit("0");
        reveal_strlit("1");
        reveal_strlit("2");
        reveal_strlit("3");
        reveal_strlit("4");
        reveal_strlit("5");
        reveal_strlit("6");
        reveal_strlit("7");
        reveal_strlit("8");
        reveal_strlit("9");
    }
    if d == 0 {
        "0"
    } else if d == 1 {
        "1"
    } else if d == 2 {
        "2"
    } else if d == 3 {
        "3"
    } else if d == 4 {
        "4"
    } else if d == 5 {
        "5"
    } else if d == 6 {
        "6"
    } else if d == 7 {
        "7"
    } else if d == 8 {
        "8"
    } else {
        "9"
    }
}

/// Appends the decimal text of `n` to `s`.
pub fn push_decimal(s: &mut String, n: u32)
    ensures
        final(s)@ == old(s)@ + decimal(n as nat),
    decreases n,
{
    if n >= 10 {
        push_decimal(s, n / 10);
    }
    s.append(digit_text(n % 10));
    proof {
        if n >= 10 {
            assert(decimal(n as nat) == decimal((n / 10) as nat).push(digit_char((n % 10) as nat)));
        }
    }
    assert(final(s)@ =~= old(s)@ + decimal(n as nat));
}

/// Decimal text of `n`.
pub fn decimal_text(n: u32) -> (r: String)
    ensures
        r@ == decimal(n as nat),
{
    let mut s = String::new();
    push_decimal(&mut s, n);
    assert(s@ =~= decimal(n as nat));
    s
}

fn prefixed(prefix: &str, pid: u32) -> (r: String)
    ensures
        r@ == prefix@ + decimal(pid as nat),
{
    let mut s = String::from_str(prefix);
    push_decimal(&mut s, pid);
    s
}

/// Name of the traffic-control group of process `pid`.
pub fn group_name(pid: u32) -> (r: String)
    ensures
        r@ == group_label(pid as nat),
{
    prefixed("nozomi_tproxy_", pid)
}

/// Name of the outbound rule chain of process `pid`.
pub fn output_chain_name(pid: u32) -> (r: String)
    ensures
        r@ == output_chain_label(pid as nat),
{
    prefixed("nozomi_tproxy_out_", pid)
}

/// Name of the pre-routing rule chain of process `pid`.
pub fn prerouting_chain_name(pid: u32) -> (r: String)
    ensures
        r@ == prerouting_chain_label(pid as nat),
{
    prefixed("nozomi_tproxy_pre_", pid)
}

} // verus!
