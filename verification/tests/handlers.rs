use asset_service::handlers::{
    create_asset, create_asset_response, create_asset_with_id, delete_asset,
    delete_asset_response, get_asset, get_asset_response, list_assets, list_assets_response,
    update_asset, update_asset_response, Confirmation, Step,
};
use asset_service::model::{AddressRequest, Asset, AssetRequest, AssetUpdateRequest};
use asset_service::pagination::{Page, Pagination};
use asset_service::response::{ApiResponse, ErrorBody, StatusCode};
use asset_service::service::{self, Query, StoredAsset};
use asset_service::validation::Field;
use uuid::Uuid;

fn address() -> AddressRequest {
    AddressRequest {
        street: "123 Elm St".to_string(),
        city: "Metropolis".to_string(),
        state: "NY".to_string(),
        zip: "10001".to_string(),
    }
}

fn warehouse() -> AssetRequest {
    AssetRequest {
        name: "Warehouse A".to_string(),
        description: "Main storage".to_string(),
        address: address(),
    }
}

fn replacement() -> AssetUpdateRequest {
    AssetUpdateRequest {
        name: "Warehouse B".to_string(),
        description: "Overflow storage".to_string(),
        address: address(),
    }
}

fn asset(n: u128, name: &str) -> Asset {
    Asset {
        id: Uuid::from_u128(n),
        name: name.to_string(),
        description: "Main storage".to_string(),
        address: address(),
    }
}

fn message<T>(text: &str) -> ApiResponse<T, ErrorBody> {
    ApiResponse::Error { error: ErrorBody::Message(text.to_string()) }
}

#[test]
fn create_scenario_echoes_the_payload_under_a_new_id() {
    let id = Uuid::from_u128(0x1234_5678_9abc_4def_8123_4567_89ab_cdef);
    let step = create_asset_with_id(id, Some(warehouse()));
    let inserted = match step {
        Step::Execute(Query::Insert { asset }) => asset,
        other => panic!("{:?}", other),
    };
    assert_eq!(inserted.id, id);
    assert_eq!(inserted.name, "Warehouse A");
    assert_eq!(inserted.description, "Main storage");
    assert_eq!(inserted.address, address());

    let stored = StoredAsset {
        id: inserted.id,
        name: inserted.name.clone(),
        description: inserted.description.clone(),
        address: Some(inserted.address.clone()),
    };
    let reply = create_asset_response(Ok(service::create_asset(stored)));
    assert_eq!(reply.status, StatusCode::CREATED);
    assert_eq!(reply.status.as_u16(), 201);
    assert_eq!(reply.body, ApiResponse::Success { data: inserted });
}

#[test]
fn create_then_get_yields_the_input() {
    let step = create_asset(Some(warehouse()));
    let inserted = match step {
        Step::Execute(Query::Insert { asset }) => asset,
        other => panic!("{:?}", other),
    };
    let row = StoredAsset {
        id: inserted.id,
        name: inserted.name.clone(),
        description: inserted.description.clone(),
        address: Some(inserted.address.clone()),
    };
    assert_eq!(get_asset(inserted.id), Query::Get { id: inserted.id });
    let reply = get_asset_response(Ok(service::get_asset(Some(row))));
    assert_eq!(reply.status, StatusCode::OK);
    match reply.body {
        ApiResponse::Success { data } => {
            assert_eq!(data.id, inserted.id);
            assert_eq!(data.name, warehouse().name);
            assert_eq!(data.description, warehouse().description);
            assert_eq!(data.address, warehouse().address);
        }
        other => panic!("{:?}", other),
    }
}

#[test]
fn create_draws_a_random_version_4_id_each_time() {
    let mut ids = Vec::new();
    for _ in 0..8 {
        match create_asset(Some(warehouse())) {
            Step::Execute(Query::Insert { asset }) => {
                assert_eq!(asset.id.get_version_num(), 4);
                assert_eq!(asset.name, "Warehouse A");
                ids.push(asset.id);
            }
            other => panic!("{:?}", other),
        }
    }
    for i in 0..ids.len() {
        for j in 0..i {
            assert_ne!(ids[i], ids[j]);
        }
    }
}

#[test]
fn create_with_a_broken_rule_is_400_naming_the_field() {
    let cases: Vec<(Field, Box<dyn Fn(&mut AssetRequest)>)> = vec![
        (Field::Name, Box::new(|p| p.name = String::new())),
        (Field::Description, Box::new(|p| p.description = "abcd".to_string())),
        (Field::Street, Box::new(|p| p.address.street = "ab".to_string())),
        (Field::City, Box::new(|p| p.address.city = "a".to_string())),
        (Field::State, Box::new(|p| p.address.state = "NYC".to_string())),
        (Field::Zip, Box::new(|p| p.address.zip = "1000".to_string())),
    ];
    for (field, spoil) in cases {
        let mut payload = warehouse();
        spoil(&mut payload);
        let expected = payload.validate().unwrap_err();
        match create_asset_with_id(Uuid::from_u128(1), Some(payload.clone())) {
            Step::Respond(reply) => {
                assert_eq!(reply.status, StatusCode::BAD_REQUEST);
                assert_eq!(reply.status.as_u16(), 400);
                match reply.body {
                    ApiResponse::Error { error: ErrorBody::Validation(errors) } => {
                        assert!(errors.has_error(field));
                        assert_eq!(errors.errors.len(), 1);
                        assert_eq!(errors, expected);
                    }
                    other => panic!("{:?}", other),
                }
            }
            other => panic!("{:?}", other),
        }
        match create_asset(Some(payload)) {
            Step::Respond(reply) => assert_eq!(reply.status, StatusCode::BAD_REQUEST),
            other => panic!("{:?}", other),
        }
    }
}

#[test]
fn create_without_a_readable_body_is_400() {
    for step in [create_asset(None), create_asset_with_id(Uuid::from_u128(2), None)] {
        match step {
            Step::Respond(reply) => {
                assert_eq!(reply.status, StatusCode::BAD_REQUEST);
                assert_eq!(reply.body, message("Malformed request body"));
            }
            other => panic!("{:?}", other),
        }
    }
}

#[test]
fn create_storage_failure_is_500_with_the_description() {
    let reply = create_asset_response(Err("duplicate key value".to_string()));
    assert_eq!(reply.status, StatusCode::INTERNAL_SERVER_ERROR);
    assert_eq!(reply.body, message("duplicate key value"));
}

#[test]
fn get_unknown_id_scenario_is_404() {
    let id = Uuid::from_u128(77);
    assert_eq!(get_asset(id), Query::Get { id });
    let reply = get_asset_response(Ok(service::get_asset(None)));
    assert_eq!(reply.status, StatusCode::NOT_FOUND);
    assert_eq!(reply.status.as_u16(), 404);
    assert_eq!(reply.body, message("Asset not found"));
}

#[test]
fn get_found_is_200_with_the_asset() {
    let reply = get_asset_response(Ok(Some(asset(3, "Depot"))));
    assert_eq!(reply.status, StatusCode::OK);
    assert_eq!(reply.body, ApiResponse::Success { data: asset(3, "Depot") });
}

#[test]
fn get_storage_failure_is_500() {
    let reply = get_asset_response(Err("connection refused".to_string()));
    assert_eq!(reply.status, StatusCode::INTERNAL_SERVER_ERROR);
    assert_eq!(reply.body, message("connection refused"));
}

#[test]
fn update_takes_the_id_from_the_path_and_never_inserts() {
    let id = Uuid::from_u128(42);
    match update_asset(id, Some(replacement())) {
        Step::Execute(Query::Update { id: target, asset }) => {
            assert_eq!(target, id);
            assert_eq!(asset.id, id);
            assert_eq!(asset.name, "Warehouse B");
            assert_eq!(asset.description, "Overflow storage");
            assert_eq!(asset.address, address());
        }
        other => panic!("{:?}", other),
    }
}

#[test]
fn update_of_unknown_id_is_404() {
    let reply = update_asset_response(Ok(service::update_asset(None)));
    assert_eq!(reply.status, StatusCode::NOT_FOUND);
    assert_eq!(reply.body, message("Asset not found"));
}

#[test]
fn update_found_is_200_with_the_stored_asset() {
    let reply = update_asset_response(Ok(Some(asset(42, "Warehouse B"))));
    assert_eq!(reply.status, StatusCode::OK);
    assert_eq!(reply.body, ApiResponse::Success { data: asset(42, "Warehouse B") });
}

#[test]
fn update_with_a_broken_rule_is_400() {
    let mut payload = replacement();
    payload.address.zip = "123456".to_string();
    payload.name = String::new();
    let expected = payload.validate().unwrap_err();
    match update_asset(Uuid::from_u128(42), Some(payload)) {
        Step::Respond(reply) => {
            assert_eq!(reply.status, StatusCode::BAD_REQUEST);
            match reply.body {
                ApiResponse::Error { error: ErrorBody::Validation(errors) } => {
                    assert!(errors.has_error(Field::Name));
                    assert!(errors.has_error(Field::Zip));
                    assert!(!errors.has_error(Field::City));
                    assert_eq!(errors.errors[0].message, None);
                    assert_eq!(errors, expected);
                }
                other => panic!("{:?}", other),
            }
        }
        other => panic!("{:?}", other),
    }
}

#[test]
fn update_without_a_readable_body_is_400() {
    match update_asset(Uuid::from_u128(42), None) {
        Step::Respond(reply) => {
            assert_eq!(reply.status, StatusCode::BAD_REQUEST);
            assert_eq!(reply.body, message("Malformed request body"));
        }
        other => panic!("{:?}", other),
    }
}

#[test]
fn update_storage_failure_is_500() {
    let reply = update_asset_response(Err("deadlock detected".to_string()));
    assert_eq!(reply.status, StatusCode::INTERNAL_SERVER_ERROR);
    assert_eq!(reply.body, message("deadlock detected"));
}

#[test]
fn delete_then_delete_again_is_200_then_404() {
    let id = Uuid::from_u128(8);
    assert_eq!(delete_asset(id), Query::Delete { id });
    let first = delete_asset_response(Ok(service::delete_asset(1)));
    assert_eq!(first.status, StatusCode::OK);
    assert_eq!(
        first.body,
        ApiResponse::Success {
            data: Confirmation { message: "Asset deleted successfully".to_string() }
        }
    );
    let second = delete_asset_response(Ok(service::delete_asset(0)));
    assert_eq!(second.status, StatusCode::NOT_FOUND);
    assert_eq!(second.body, message("Asset not found"));
}

#[test]
fn delete_storage_failure_is_500() {
    let reply = delete_asset_response(Err("connection reset".to_string()));
    assert_eq!(reply.status, StatusCode::INTERNAL_SERVER_ERROR);
    assert_eq!(reply.body, message("connection reset"));
}

#[test]
fn list_second_page_of_two_scenario() {
    let (pagination, step) = list_assets(Some("2"), Some("1"));
    assert_eq!(pagination, Pagination { page: 2, per_page: 1 });
    assert_eq!(step, Step::Execute(Query::List { limit: 1, offset: 1 }));

    let by_name = vec![asset(20, "Annex"), asset(10, "Barn")];
    let window: Vec<Asset> = by_name.into_iter().skip(1).take(1).collect();
    let reply = list_assets_response(pagination, Ok((window, 2)));
    assert_eq!(reply.status, StatusCode::OK);
    assert_eq!(
        reply.body,
        ApiResponse::Success {
            data: Page {
                items: vec![asset(10, "Barn")],
                total: 2,
                total_pages: 2,
                current_page: 2,
            }
        }
    );
}

#[test]
fn list_without_parameters_is_the_first_ten() {
    let (pagination, step) = list_assets(None, None);
    assert_eq!(pagination, Pagination { page: 1, per_page: 10 });
    assert_eq!(step, Step::Execute(Query::List { limit: 10, offset: 0 }));
    let (pagination, step) = list_assets(Some("x"), Some("y"));
    assert_eq!(pagination, Pagination { page: 1, per_page: 10 });
    assert_eq!(step, Step::Execute(Query::List { limit: 10, offset: 0 }));
}

#[test]
fn list_passes_zero_and_negative_numbers_on() {
    let (_, step) = list_assets(Some("0"), Some("10"));
    assert_eq!(step, Step::Execute(Query::List { limit: 10, offset: -10 }));
    let (_, step) = list_assets(Some("3"), Some("-2"));
    assert_eq!(step, Step::Execute(Query::List { limit: -2, offset: -4 }));
    let (_, step) = list_assets(Some("3"), Some("0"));
    assert_eq!(step, Step::Execute(Query::List { limit: 0, offset: 0 }));
}

#[test]
fn list_page_beyond_the_last_is_200_and_empty() {
    let (pagination, step) = list_assets(Some("5"), Some("10"));
    assert_eq!(step, Step::Execute(Query::List { limit: 10, offset: 40 }));
    let reply = list_assets_response(pagination, Ok((Vec::new(), 12)));
    assert_eq!(reply.status, StatusCode::OK);
    assert_eq!(
        reply.body,
        ApiResponse::Success {
            data: Page { items: Vec::new(), total: 12, total_pages: 2, current_page: 5 }
        }
    );
}

#[test]
fn list_window_outside_64_bits_is_500() {
    let (pagination, step) = list_assets(Some("9223372036854775807"), Some("3"));
    assert_eq!(pagination, Pagination { page: i64::MAX, per_page: 3 });
    match step {
        Step::Respond(reply) => {
            assert_eq!(reply.status, StatusCode::INTERNAL_SERVER_ERROR);
            assert_eq!(reply.body, message("Page out of range"));
        }
        other => panic!("{:?}", other),
    }
}

#[test]
fn list_storage_failure_is_500() {
    let reply = list_assets_response(
        Pagination { page: 1, per_page: 10 },
        Err("OFFSET must not be negative".to_string()),
    );
    assert_eq!(reply.status, StatusCode::INTERNAL_SERVER_ERROR);
    assert_eq!(reply.body, message("OFFSET must not be negative"));
}
