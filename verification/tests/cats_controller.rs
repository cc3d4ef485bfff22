//! The controller scenarios: creation, creation failure, the fast no-op, the
//! update path, and the finalizer, driven through programmable stand-ins.

use operator::apis::{Error, ResponseContent};
use operator::cats::{handle_create, reconcile, ContextData};
use operator::cats_api::MockApiClient;
use operator::cluster::MockCluster;
use operator::converters;
use operator::models::CatDto;
use operator::types::{Cat, CatSpec, CatStatus, Metadata};
use operator::{KubeApi, KubeApiClient};
use uuid::Uuid;

fn setup_cat() -> Cat {
    Cat {
        metadata: Metadata {
            name: Some("whiskers".to_string()),
            generation: None,
            finalizers: None,
            deletion_timestamp: None,
        },
        spec: CatSpec {
            name: "Whiskers".to_string(),
            breed: "Siamese".to_string(),
            age: 3,
        },
        status: None,
    }
}

fn kube_client_at(now: i64) -> KubeApiClient<MockCluster> {
    let mut cluster = MockCluster::new();
    cluster.now = now;
    KubeApiClient::new(cluster)
}

#[test]
fn integration_cats_controller_test_handle_create_success() {
    let mut kube_client = kube_client_at(1_700_000_000);
    let mut mock_cats_api = MockApiClient::new();
    let mut cat = setup_cat();

    let remote_uuid = Uuid::new_v4().to_string();
    let remote_cat = CatDto {
        uuid: Some(remote_uuid.clone()),
        name: cat.spec.name.clone(),
        breed: cat.spec.breed.clone(),
        age: cat.spec.age,
    };
    mock_cats_api.expect_create_cat(Ok(remote_cat));

    let result = handle_create(&mut kube_client, &mut mock_cats_api, &mut cat);

    assert!(result.is_ok());
    assert!(cat.status.is_some());

    // exactly one create was asked of the remote service, with the spec's attributes
    assert_eq!(mock_cats_api.create_args.len(), 1);
    assert_eq!(mock_cats_api.create_args[0].name, "Whiskers");
    assert_eq!(mock_cats_api.create_args[0].breed, "Siamese");
    assert_eq!(mock_cats_api.create_args[0].age, 3);
    assert!(mock_cats_api.create_args[0].uuid.is_none());

    let status = cat.status.as_ref().unwrap();
    assert_eq!(status.uuid, converters::uuid_to_string(Some(remote_uuid)));
    assert_eq!(status.conditions.len(), 1);

    let condition = &status.conditions[0];
    assert_eq!(condition.type_, "AvailableCreated");
    assert_eq!(condition.status, "True");
    assert_eq!(condition.reason, "CatCreated");
    assert_eq!(condition.message, "The cat has been created successfully");
    assert!(condition.last_transition_time > 0);
}

#[test]
fn test_cats_controller_test_handle_create_success() {
    let mut kube_client = kube_client_at(1_700_000_000);
    let mut mock_cats_api = MockApiClient::new();
    let mut cat = setup_cat();

    let remote_uuid = Uuid::new_v4().to_string();
    mock_cats_api.expect_create_cat(Ok(CatDto {
        uuid: Some(remote_uuid.clone()),
        name: cat.spec.name.clone(),
        breed: cat.spec.breed.clone(),
        age: cat.spec.age,
    }));

    let result = handle_create(&mut kube_client, &mut mock_cats_api, &mut cat);

    assert!(result.is_ok());
    assert!(cat.status.is_some());

    // one finalizer patch and one status patch reached the cluster
    assert_eq!(kube_client.client.patches.len(), 1);
    assert_eq!(kube_client.client.status_patches.len(), 1);

    let status = cat.status.as_ref().unwrap();
    assert_eq!(status.uuid, converters::uuid_to_string(Some(remote_uuid)));
    assert_eq!(status.conditions.len(), 1);

    let condition = &status.conditions[0];
    assert_eq!(condition.type_, "AvailableCreated");
    assert_eq!(condition.status, "True");
    assert_eq!(condition.reason, "CatCreated");
    assert_eq!(condition.message, "The cat has been created successfully");
    assert!(condition.last_transition_time > 0);
}

fn bad_request_create() -> Error<operator::cats_api::CreateCatError> {
    Error::ResponseError(ResponseContent {
        status: 400,
        content: "Internal Server Error".to_string(),
        entity: None,
    })
}

#[test]
fn integration_cats_controller_test_handle_create_failed() {
    let mut kube_client = kube_client_at(1_700_000_000);
    let mut mock_cats_api = MockApiClient::new();
    let mut cat = setup_cat();

    mock_cats_api.expect_create_cat(Err(bad_request_create()));

    let result = handle_create(&mut kube_client, &mut mock_cats_api, &mut cat);

    assert!(result.is_err());
    assert!(cat.status.is_some());
    let status = cat.status.as_ref().unwrap();
    assert!(status.uuid.is_none());
    assert_eq!(status.conditions.len(), 1);
}

#[test]
fn test_cats_controller_test_handle_create_failed() {
    let mut kube_client = kube_client_at(1_700_000_000);
    let mut mock_cats_api = MockApiClient::new();
    let mut cat = setup_cat();

    mock_cats_api.expect_create_cat(Err(bad_request_create()));

    let result = handle_create(&mut kube_client, &mut mock_cats_api, &mut cat);

    assert!(result.is_err());
    assert!(cat.status.is_some());
    let status = cat.status.as_ref().unwrap();
    assert!(status.uuid.is_none());
    assert_eq!(status.conditions.len(), 1);
    assert_eq!(status.conditions[0].status, "False");
    assert_eq!(status.conditions[0].type_, "AvailableNotCreated");
    assert_eq!(status.conditions[0].reason, "CatNotCreated");
    assert_eq!(status.conditions[0].message, "Failed to create the cat");
}

#[test]
fn test_reconcile_new_resource() {
    let mut cat = setup_cat();
    let remote_uuid = Uuid::new_v4().to_string();
    let mut mock_cats_api = MockApiClient::new();
    mock_cats_api.expect_create_cat(Ok(CatDto {
        uuid: Some(remote_uuid),
        name: cat.spec.name.clone(),
        breed: cat.spec.breed.clone(),
        age: cat.spec.age,
    }));

    let mut context = ContextData {
        kube_client: kube_client_at(1_700_000_000),
        cats_client: mock_cats_api,
    };
    let result = reconcile(&mut cat, &mut context);

    assert!(result.is_ok());
    assert!(cat.status.is_some());
    // the create path ran: one remote create, one finalizer patch, one status patch
    assert_eq!(context.cats_client.create_args.len(), 1);
    assert_eq!(context.kube_client.client.patches.len(), 1);
    assert_eq!(context.kube_client.client.status_patches.len(), 1);
}

#[test]
fn test_reconcile_failed_to_create_resource_because_of_internal_server_error() {
    let mut cat = setup_cat();
    let mut mock_cats_api = MockApiClient::new();
    mock_cats_api.expect_create_cat(Err(bad_request_create()));

    let mut context = ContextData {
        kube_client: kube_client_at(1_700_000_000),
        cats_client: mock_cats_api,
    };
    let result = reconcile(&mut cat, &mut context);

    assert!(result.is_err());
    assert_eq!(context.cats_client.get_args.len(), 0);
}

#[test]
fn test_reconcile_not_executing_creation_nor_update_if_observation_generation_and_meta_observation_equal(
) {
    let uuid = Uuid::new_v4();
    let mut cat = Cat {
        metadata: Metadata {
            name: Some("whiskers".to_string()),
            generation: Some(1),
            finalizers: None,
            deletion_timestamp: None,
        },
        spec: CatSpec {
            name: "Whiskers".to_string(),
            breed: "Siamese".to_string(),
            age: 3,
        },
        status: Some(CatStatus {
            uuid: Some(uuid.to_string()),
            observed_generation: Some(1),
            conditions: vec![],
        }),
    };

    let mut context = ContextData {
        kube_client: kube_client_at(1_700_000_000),
        cats_client: MockApiClient::new(),
    };
    let result = reconcile(&mut cat, &mut context);

    assert!(result.is_ok());
    // the fast no-op path: zero remote calls and zero cluster writes
    assert_eq!(context.cats_client.get_args.len(), 0);
    assert_eq!(context.cats_client.create_args.len(), 0);
    assert_eq!(context.cats_client.update_args.len(), 0);
    assert_eq!(context.kube_client.client.patches.len(), 0);
    assert_eq!(context.kube_client.client.status_patches.len(), 0);
}

#[test]
fn test_reconcile_executing_update_if_observation_generation_and_meta_observation_not_equal() {
    let uuid = Uuid::new_v4();
    let mut cat = Cat {
        metadata: Metadata {
            name: Some("whiskers".to_string()),
            generation: Some(1),
            finalizers: None,
            deletion_timestamp: None,
        },
        spec: CatSpec {
            name: "Whiskers".to_string(),
            breed: "Siamese".to_string(),
            age: 3,
        },
        status: Some(CatStatus {
            uuid: Some(uuid.to_string()),
            observed_generation: Some(0),
            conditions: vec![],
        }),
    };

    let remote_cat = CatDto {
        uuid: Some(uuid.to_string()),
        name: cat.spec.name.clone(),
        breed: cat.spec.breed.clone(),
        age: cat.spec.age,
    };

    let mut mock_cats_api = MockApiClient::new();
    mock_cats_api.expect_get_cat_by_id(Ok(remote_cat));

    let mut context = ContextData {
        kube_client: kube_client_at(1_700_000_000),
        cats_client: mock_cats_api,
    };
    let result = reconcile(&mut cat, &mut context);

    assert!(result.is_ok());
    // the remote entity already matched the spec, so the repair path ran:
    // the remote state was fetched once and the observed generation advanced
    assert_eq!(context.cats_client.get_args.len(), 1);
    assert_eq!(context.cats_client.get_args[0], uuid.to_string());
    assert_eq!(cat.status.as_ref().unwrap().observed_generation, Some(1));
    assert_eq!(context.kube_client.client.status_patches.len(), 1);
}

#[test]
fn test_add_finalizer() {
    let mut kube_client = kube_client_at(1_700_000_000);
    let mut resource = Cat {
        metadata: Metadata {
            name: Some("test-cat".to_string()),
            generation: None,
            finalizers: None,
            deletion_timestamp: None,
        },
        spec: CatSpec {
            name: "test-cat".to_string(),
            breed: "test".to_string(),
            age: 1,
        },
        status: None,
    };

    let result = kube_client.add_finalizer(&mut resource);

    assert!(result.is_ok());
    assert_eq!(
        resource.metadata.finalizers,
        Some(vec!["finalizers.example.com".to_string()])
    );
}
