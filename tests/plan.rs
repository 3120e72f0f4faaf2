use nozomi_tproxy::plan::{
    setup_effects, teardown_effects, ChainRules, Effect, Hook, RedirectionKey, Strategy, Table,
};

#[test]
fn redirect_setup_is_enroll_then_nat_chain() {
    let key = RedirectionKey::new(4242, 1081, Strategy::Redirect);
    assert_eq!(key.class_id, 1081);
    assert_eq!(key.port, 1081);
    let s = setup_effects(&key);
    assert_eq!(
        s,
        vec![
            Effect::Enroll { pid: 4242, class_id: 1081 },
            Effect::InstallChain {
                pid: 4242,
                table: Table::Nat,
                hook: Hook::Output,
                rules: ChainRules::Redirect { class_id: 1081, port: 1081 },
            },
        ]
    );
}

#[test]
fn transparent_setup_has_five_effects_in_order() {
    let key = RedirectionKey::new(4242, 1081, Strategy::TransparentProxy);
    assert_eq!(key.mark(), 4242);
    let s = setup_effects(&key);
    assert_eq!(
        s,
        vec![
            Effect::AddRoutingRule { mark: 4242 },
            Effect::AddLocalRoute { mark: 4242 },
            Effect::Enroll { pid: 4242, class_id: 1081 },
            Effect::InstallChain {
                pid: 4242,
                table: Table::Mangle,
                hook: Hook::Prerouting,
                rules: ChainRules::Intercept { mark: 4242, port: 1081 },
            },
            Effect::InstallChain {
                pid: 4242,
                table: Table::Mangle,
                hook: Hook::Output,
                rules: ChainRules::MarkClassified { class_id: 1081, mark: 4242 },
            },
        ]
    );
}

#[test]
fn teardown_reverses_and_inverts_setup() {
    for strategy in [Strategy::Redirect, Strategy::TransparentProxy] {
        let key = RedirectionKey::new(77, 9000, strategy);
        let s = setup_effects(&key);
        let t = teardown_effects(&s);
        assert_eq!(s.len(), t.len());
        let n = s.len();
        for i in 0..n {
            assert_eq!(t[i], s[n - 1 - i].inverse());
            assert_eq!(t[i].inverse(), s[n - 1 - i]);
        }
    }
}

#[test]
fn transparent_teardown_exact_order() {
    let key = RedirectionKey::new(4242, 1081, Strategy::TransparentProxy);
    let t = teardown_effects(&setup_effects(&key));
    assert_eq!(
        t,
        vec![
            Effect::RemoveChain {
                pid: 4242,
                table: Table::Mangle,
                hook: Hook::Output,
                rules: ChainRules::MarkClassified { class_id: 1081, mark: 4242 },
            },
            Effect::RemoveChain {
                pid: 4242,
                table: Table::Mangle,
                hook: Hook::Prerouting,
                rules: ChainRules::Intercept { mark: 4242, port: 1081 },
            },
            Effect::Unenroll { pid: 4242, class_id: 1081 },
            Effect::DeleteLocalRoute { mark: 4242 },
            Effect::DeleteRoutingRule { mark: 4242 },
        ]
    );
}

#[test]
fn teardown_of_nothing_is_nothing() {
    assert!(teardown_effects(&Vec::new()).is_empty());
}

#[test]
fn both_strategies_enroll_with_same_class() {
    let a = setup_effects(&RedirectionKey::new(500, 1081, Strategy::Redirect));
    let b = setup_effects(&RedirectionKey::new(500, 1081, Strategy::TransparentProxy));
    let ea: Vec<&Effect> = a.iter().filter(|e| matches!(e, Effect::Enroll { .. })).collect();
    let eb: Vec<&Effect> = b.iter().filter(|e| matches!(e, Effect::Enroll { .. })).collect();
    assert_eq!(ea, vec![&Effect::Enroll { pid: 500, class_id: 1081 }]);
    assert_eq!(ea, eb);
}
