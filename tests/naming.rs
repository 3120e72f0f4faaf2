use nozomi_tproxy::naming::{decimal_text, group_name, output_chain_name, prerouting_chain_name};

#[test]
fn decimal_text_exact_values() {
    assert_eq!(decimal_text(0), "0");
    assert_eq!(decimal_text(7), "7");
    assert_eq!(decimal_text(10), "10");
    assert_eq!(decimal_text(1081), "1081");
    assert_eq!(decimal_text(u32::MAX), "4294967295");
}

#[test]
fn names_follow_prefix_and_pid() {
    assert_eq!(group_name(4242), "nozomi_tproxy_4242");
    assert_eq!(output_chain_name(4242), "nozomi_tproxy_out_4242");
    assert_eq!(prerouting_chain_name(4242), "nozomi_tproxy_pre_4242");
}

#[test]
fn names_of_distinct_pids_are_disjoint() {
    let pids = [1u32, 12, 121, 4242, 42420];
    for (i, a) in pids.iter().enumerate() {
        for (j, b) in pids.iter().enumerate() {
            let na = [group_name(*a), output_chain_name(*a), prerouting_chain_name(*a)];
            let nb = [group_name(*b), output_chain_name(*b), prerouting_chain_name(*b)];
            for x in na.iter() {
                for y in nb.iter() {
                    if i != j {
                        assert_ne!(x, y);
                    }
                }
            }
        }
    }
}
