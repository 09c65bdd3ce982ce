use axum::http::StatusCode;
use neco_stake::model::NECOStakedInfo;
use neco_stake::network::NetworkType;
use neco_stake::response::NecoResponse;
use neco_stake::response::STATUS_BAD_REQUEST;
use neco_stake::response::STATUS_OK;
use neco_stake::uint256::Uint256;

#[test]
fn selectors_zero_and_one_name_the_two_networks() {
    assert_eq!(NetworkType::from_selector(0), Some(NetworkType::BSCMainNetwork));
    assert_eq!(NetworkType::from_selector(1), Some(NetworkType::BSCTestNetwork));
}

#[test]
fn no_other_selector_names_a_network() {
    for selector in [-2, -1, 2, 3, 7, 10, 256, i64::MAX, i64::MIN] {
        assert_eq!(NetworkType::from_selector(selector), None);
    }
}

#[test]
fn status_constants_are_the_http_codes() {
    assert_eq!(STATUS_OK, 200);
    assert_eq!(STATUS_BAD_REQUEST, 400);
    assert_eq!(STATUS_OK, StatusCode::OK.as_u16());
    assert_eq!(STATUS_BAD_REQUEST, StatusCode::BAD_REQUEST.as_u16());
    assert!(StatusCode::from_u16(STATUS_BAD_REQUEST).unwrap().is_client_error());
}

#[test]
fn ok_wraps_the_payload() {
    let response = NecoResponse::ok(Uint256 { limbs: [1, 2, 3, 4] });
    assert!(response.success);
    assert_eq!(response.status, 200);
    assert_eq!(response.message, None);
    assert_eq!(response.data, Some(Uint256 { limbs: [1, 2, 3, 4] }));
}

#[test]
fn err_carries_status_and_message_and_no_payload() {
    let response: NecoResponse<NECOStakedInfo> = NecoResponse::err(400, "network type error");
    assert!(!response.success);
    assert_eq!(response.status, 400);
    assert_eq!(response.message, Some("network type error".to_string()));
    assert_eq!(response.data, None);
}

#[test]
fn err_keeps_any_status_and_message() {
    let response: NecoResponse<NECOStakedInfo> = NecoResponse::err(503, "");
    assert!(!response.success);
    assert_eq!(response.status, 503);
    assert_eq!(response.message, Some(String::new()));
    assert_eq!(response.data, None);
}

#[test]
fn position_is_written_in_decimal() {
    let address = "0xABC".to_string();
    let info = NECOStakedInfo::new(
        &address,
        &Uint256 { limbs: [0, 1, 0, 0] },
        &Uint256 { limbs: [1700000000, 0, 0, 0] },
    );
    assert_eq!(info.public_address, "0xABC");
    assert_eq!(info.staked_amount, "18446744073709551616");
    assert_eq!(info.staked_time, "1700000000");
}
