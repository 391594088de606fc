//! Tests of the models endpoint's parameters and request construction.

use portkey_sdk::model::{ListModelsParams, ModelSortField, SortOrder};
use portkey_sdk::service::models::list_models_request;

#[test]
fn test_list_models_params() {
    let params = ListModelsParams {
        provider: Some("openai".to_string()),
        limit: Some(10),
        ..Default::default()
    };

    assert_eq!(params.provider, Some("openai".to_string()));
    assert_eq!(params.limit, Some(10));
}

#[test]
fn models_test_list_models_params() {
    let params = ListModelsParams {
        provider: Some("openai".to_string()),
        limit: Some(10),
        ..Default::default()
    };

    assert_eq!(params.provider, Some("openai".to_string()));
    assert_eq!(params.limit, Some(10));
}

#[test]
fn test_sort_wire_values() {
    assert_eq!(ModelSortField::Name.query_value(), "name");
    assert_eq!(ModelSortField::Provider.query_value(), "provider");
    assert_eq!(ModelSortField::AiService.query_value(), "ai_service");
    assert_eq!(SortOrder::Asc.query_value(), "asc");
    assert_eq!(SortOrder::Desc.query_value(), "desc");
}

#[test]
fn test_list_models_query_order() {
    let params = ListModelsParams {
        ai_service: Some("openai".to_string()),
        provider: Some("openai".to_string()),
        limit: Some(10),
        offset: Some(0),
        sort: Some(ModelSortField::Name),
        order: Some(SortOrder::Asc),
    };
    assert_eq!(
        params.to_query_params(),
        vec![
            ("ai_service".to_string(), "openai".to_string()),
            ("provider".to_string(), "openai".to_string()),
            ("limit".to_string(), "10".to_string()),
            ("offset".to_string(), "0".to_string()),
            ("sort".to_string(), "name".to_string()),
            ("order".to_string(), "asc".to_string()),
        ]
    );
}

#[test]
fn test_list_models_request_descriptor() {
    let params = ListModelsParams {
        limit: Some(5),
        ..Default::default()
    };
    let desc = list_models_request(&Some(params));
    assert_eq!(desc.path, "/models");
    assert_eq!(desc.query, vec![("limit".to_string(), "5".to_string())]);

    let desc = list_models_request(&None);
    assert!(desc.query.is_empty());
}
