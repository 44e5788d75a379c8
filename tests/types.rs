use ads::types::{AdsState, AdsTransMode, PlcTypes, StateFlags, Var};

#[test]
fn plc_type_sizes() {
    assert_eq!(PlcTypes::Bool.size(), 1);
    assert_eq!(PlcTypes::Int.size(), 2);
    assert_eq!(PlcTypes::DInt.size(), 4);
    assert_eq!(PlcTypes::LReal.size(), 8);
    assert_eq!(PlcTypes::DateAndTime.size(), 4);
}

#[test]
fn ads_state_values() {
    assert_eq!(AdsState::get_value(AdsState::AdsStateRun), 5);
    assert_eq!(AdsState::get_value(AdsState::AdsStateReconfig), 16);
    assert_eq!(AdsState::from_u16(6), Some(AdsState::AdsStateStop));
    assert_eq!(AdsState::from_u16(17), None);
}

#[test]
fn trans_mode_values() {
    assert_eq!(AdsTransMode::Cyclic.as_u32(), 3);
    assert_eq!(AdsTransMode::from(4), AdsTransMode::OnChange);
    assert_eq!(AdsTransMode::from(99), AdsTransMode::NoTransmission);
}

#[test]
fn state_flags_and_vars() {
    assert_eq!(StateFlags::req_default().value(), 4);
    assert!(StateFlags::resp_default().is_response());
    assert!(!StateFlags::req_default().is_response());
    let v = Var::new("Main.counter".to_string(), PlcTypes::DInt, None);
    assert!(v.data.is_empty());
    let v = Var::new("Main.counter".to_string(), PlcTypes::DInt, Some(vec![1, 2]));
    assert_eq!(v.data, vec![1, 2]);
}
