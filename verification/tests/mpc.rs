use confidential_core::mpc::{queue_for, same_bytes, Argument, Circuit};

#[test]
fn circuits_are_registered_under_their_names() {
    let all = [
        (Circuit::ShuffleAndDealCards, "shuffle_and_deal_cards", 1726828593u32),
        (Circuit::PlayerHit, "player_hit", 882389548),
        (Circuit::PlayerDoubleDown, "player_double_down", 2978878074),
        (Circuit::PlayerStand, "player_stand", 3509782065),
        (Circuit::DealerPlay, "dealer_play", 4180862374),
        (Circuit::ResolveGame, "resolve_game", 1848837325),
        (Circuit::CalculatePositionValue, "calculate_position_value", 1950278283),
        (Circuit::OpenPosition, "open_position", 3935201159),
        (Circuit::ClosePosition, "close_position", 2629646092),
        (Circuit::AddCollateral, "add_collateral", 1274553762),
        (Circuit::RemoveCollateral, "remove_collateral", 666907134),
        (Circuit::Liquidate, "liquidate", 1959581372),
    ];
    for (circuit, name, offset) in all {
        assert_eq!(circuit.name(), name);
        assert_eq!(circuit.offset(), offset);
        assert_eq!(circuit.offset(), arcium_anchor::comp_def_offset(name));
    }
}

#[test]
fn a_queued_computation_writes_back_to_its_account() {
    let q = queue_for(Circuit::Liquidate, 5, vec![Argument::PlaintextU8(1)], [3; 32]);
    assert_eq!(q.comp_def_offset, 1959581372);
    assert_eq!(q.computation_offset, 5);
    assert_eq!(format!("{:?}", q.args), format!("{:?}", [Argument::PlaintextU8(1)]));
    assert_eq!(q.callback_accounts.len(), 1);
    assert_eq!(q.callback_accounts[0].pubkey, [3; 32]);
    assert!(q.callback_accounts[0].is_writable);
}

#[test]
fn bytes_are_compared_one_by_one() {
    let a = [5u8; 32];
    let mut b = a;
    assert!(same_bytes(&a, &b));
    b[31] = 6;
    assert!(!same_bytes(&a, &b));
    b[31] = 5;
    b[0] = 6;
    assert!(!same_bytes(&a, &b));
}
