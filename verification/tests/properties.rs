//! Scenario tests for the library's stated behaviours: create-then-no-op,
//! the update path, the status-conflict retry bound, finalizer idempotence,
//! the deletion ordering, and the concrete creation scenario.

use operator::cats::{reconcile, ContextData};
use operator::cats_api::{CatsApi, MockApiClient};
use operator::cluster::{ClusterError, MockCluster};
use operator::errors::OperatorError;
use operator::models::CatDto;
use operator::types::{Cat, CatSpec, CatStatus, Metadata};
use operator::{KubeApi, KubeApiClient};
use uuid::Uuid;

fn kube_client_at(now: i64) -> KubeApiClient<MockCluster> {
    let mut cluster = MockCluster::new();
    cluster.now = now;
    KubeApiClient::new(cluster)
}

fn whiskers(generation: Option<i64>, status: Option<CatStatus>) -> Cat {
    Cat {
        metadata: Metadata {
            name: Some("whiskers".to_string()),
            generation,
            finalizers: None,
            deletion_timestamp: None,
        },
        spec: CatSpec {
            name: "Whiskers".to_string(),
            breed: "Siamese".to_string(),
            age: 3,
        },
        status,
    }
}

#[test]
fn create_then_reconcile_again_is_a_noop() {
    let mut cat = whiskers(Some(4), None);
    let mut mock_cats_api = MockApiClient::new();
    mock_cats_api.expect_create_cat(Ok(CatDto {
        uuid: Some(Uuid::new_v4().to_string()),
        name: "Whiskers".to_string(),
        breed: "Siamese".to_string(),
        age: 3,
    }));
    let mut context = ContextData {
        kube_client: kube_client_at(1_700_000_000),
        cats_client: mock_cats_api,
    };

    assert!(reconcile(&mut cat, &mut context).is_ok());
    let status = cat.status.as_ref().unwrap();
    assert!(status.uuid.is_some());
    assert_eq!(status.observed_generation, Some(4));
    assert_eq!(status.conditions.len(), 1);
    assert_eq!(status.conditions[0].type_, "AvailableCreated");
    assert_eq!(status.conditions[0].status, "True");
    assert_eq!(status.conditions[0].observed_generation, Some(4));

    let patches_before = context.kube_client.client.patches.len();
    let status_patches_before = context.kube_client.client.status_patches.len();

    // the generation is unchanged, so the second reconciliation is a no-op
    let again = reconcile(&mut cat, &mut context);
    assert!(again.is_ok());
    assert_eq!(context.cats_client.create_args.len(), 1);
    assert_eq!(context.cats_client.get_args.len(), 0);
    assert_eq!(context.kube_client.client.patches.len(), patches_before);
    assert_eq!(
        context.kube_client.client.status_patches.len(),
        status_patches_before
    );
}

#[test]
fn update_path_runs_once_on_generation_mismatch() {
    let uuid = Uuid::new_v4().to_string();
    let mut cat = whiskers(
        Some(2),
        Some(CatStatus {
            uuid: Some(uuid.clone()),
            observed_generation: Some(1),
            conditions: vec![],
        }),
    );

    // the remote entity differs from the spec, so it must be updated
    let mut mock_cats_api = MockApiClient::new();
    mock_cats_api.expect_get_cat_by_id(Ok(CatDto {
        uuid: Some(uuid.clone()),
        name: "Whiskers".to_string(),
        breed: "Tabby".to_string(),
        age: 3,
    }));
    mock_cats_api.expect_update_cat_by_id(Ok(CatDto {
        uuid: Some(uuid.clone()),
        name: "Whiskers".to_string(),
        breed: "Siamese".to_string(),
        age: 3,
    }));

    let mut kube_client = kube_client_at(1_700_000_000);
    kube_client.client.script_replace(Ok(cat.clone()));

    let mut context = ContextData {
        kube_client,
        cats_client: mock_cats_api,
    };
    let result = reconcile(&mut cat, &mut context);

    assert!(result.is_ok());
    // exactly one remote update, carrying the spec's attributes
    assert_eq!(context.cats_client.update_args.len(), 1);
    assert_eq!(context.cats_client.update_args[0].0, uuid);
    assert_eq!(context.cats_client.update_args[0].1.breed, "Siamese");
    assert!(context.cats_client.update_args[0].1.uuid.is_none());
    // exactly one cluster replace
    assert_eq!(context.kube_client.client.replace_calls, 1);
    // the observed generation advanced and one Updated condition was appended
    let status = cat.status.as_ref().unwrap();
    assert_eq!(status.observed_generation, Some(2));
    assert_eq!(status.conditions.len(), 1);
    assert_eq!(status.conditions[0].type_, "AvailableUpdated");
    assert_eq!(status.conditions[0].status, "True");
    assert_eq!(status.conditions[0].reason, "Updated the resource");
    assert_eq!(status.conditions[0].message, "Resource has been updated");
    assert_eq!(status.conditions[0].observed_generation, Some(2));
}

#[test]
fn update_status_persistent_conflict_is_attempted_exactly_three_times() {
    let mut kube_client = kube_client_at(1_700_000_000);
    kube_client.client.script_patch_status(Err(ClusterError::Conflict));
    kube_client.client.script_patch_status(Err(ClusterError::Conflict));
    kube_client.client.script_patch_status(Err(ClusterError::Conflict));

    let cat = whiskers(Some(1), None);
    let result = kube_client.update_status(&cat);

    assert!(matches!(
        result,
        Err(OperatorError::FailedToUpdateStatus(ClusterError::Conflict))
    ));
    assert_eq!(kube_client.client.status_patches.len(), 3);
    // the backoff sits between attempts only: two seconds in total
    assert_eq!(kube_client.client.slept_seconds, 2);
}

#[test]
fn update_status_conflict_resolving_on_second_attempt_succeeds() {
    let mut kube_client = kube_client_at(1_700_000_000);
    kube_client.client.script_patch_status(Err(ClusterError::Conflict));
    kube_client.client.script_patch_status(Ok(()));

    let cat = whiskers(Some(1), None);
    let result = kube_client.update_status(&cat);

    assert!(result.is_ok());
    assert_eq!(kube_client.client.status_patches.len(), 2);
    assert_eq!(kube_client.client.slept_seconds, 1);
}

#[test]
fn update_status_non_conflict_failure_aborts_immediately() {
    let mut kube_client = kube_client_at(1_700_000_000);
    kube_client
        .client
        .script_patch_status(Err(ClusterError::Other("boom".to_string())));

    let cat = whiskers(Some(1), None);
    let result = kube_client.update_status(&cat);

    assert!(matches!(
        result,
        Err(OperatorError::FailedToUpdateStatus(ClusterError::Other(_)))
    ));
    assert_eq!(kube_client.client.status_patches.len(), 1);
    assert_eq!(kube_client.client.slept_seconds, 0);
}

#[test]
fn add_finalizer_twice_patches_once_and_keeps_one_token() {
    let mut kube_client = kube_client_at(1_700_000_000);
    let mut cat = whiskers(Some(1), None);

    assert!(kube_client.add_finalizer(&mut cat).is_ok());
    assert!(kube_client.add_finalizer(&mut cat).is_ok());

    assert_eq!(kube_client.client.patches.len(), 1);
    let finalizers = cat.metadata.finalizers.as_ref().unwrap();
    assert_eq!(
        finalizers
            .iter()
            .filter(|f| f.as_str() == "finalizers.example.com")
            .count(),
        1
    );
    assert_eq!(finalizers.len(), 1);
}

#[test]
fn remove_finalizer_without_token_issues_no_patch() {
    let mut kube_client = kube_client_at(1_700_000_000);
    let mut cat = whiskers(Some(1), None);
    cat.metadata.finalizers = Some(vec!["other.example.org".to_string()]);

    assert!(kube_client.remove_finalizer(&mut cat).is_ok());
    assert_eq!(kube_client.client.patches.len(), 0);
    assert_eq!(
        cat.metadata.finalizers,
        Some(vec!["other.example.org".to_string()])
    );
}

#[test]
fn deletion_removes_remote_entity_before_finalizer() {
    let uuid = Uuid::new_v4().to_string();
    let mut cat = whiskers(
        Some(1),
        Some(CatStatus {
            uuid: Some(uuid.clone()),
            observed_generation: Some(1),
            conditions: vec![],
        }),
    );
    cat.metadata.deletion_timestamp = Some(1_700_000_500);
    cat.metadata.finalizers = Some(vec!["finalizers.example.com".to_string()]);

    let mut mock_cats_api = MockApiClient::new();
    mock_cats_api.expect_delete_cat_by_id(Ok(()));

    let mut context = ContextData {
        kube_client: kube_client_at(1_700_000_000),
        cats_client: mock_cats_api,
    };
    let result = reconcile(&mut cat, &mut context);

    assert!(result.is_ok());
    assert_eq!(context.cats_client.delete_args, vec![uuid]);
    assert_eq!(cat.metadata.finalizers, Some(vec![]));
    assert_eq!(context.kube_client.client.patches.len(), 1);
}

#[test]
fn failed_remote_delete_keeps_the_finalizer() {
    let uuid = Uuid::new_v4().to_string();
    let mut cat = whiskers(
        Some(1),
        Some(CatStatus {
            uuid: Some(uuid),
            observed_generation: Some(1),
            conditions: vec![],
        }),
    );
    cat.metadata.deletion_timestamp = Some(1_700_000_500);
    cat.metadata.finalizers = Some(vec!["finalizers.example.com".to_string()]);

    let mut mock_cats_api = MockApiClient::new();
    mock_cats_api.expect_delete_cat_by_id(Err(operator::apis::Error::Reqwest(
        "connection reset".to_string(),
    )));

    let mut context = ContextData {
        kube_client: kube_client_at(1_700_000_000),
        cats_client: mock_cats_api,
    };
    let result = reconcile(&mut cat, &mut context);

    assert!(matches!(result, Err(OperatorError::RemoteApiError(_))));
    // the finalizer must stay while the remote entity may still be live
    assert_eq!(
        cat.metadata.finalizers,
        Some(vec!["finalizers.example.com".to_string()])
    );
    assert_eq!(context.kube_client.client.patches.len(), 0);
}

#[test]
fn fresh_whiskers_creation_scenario() {
    let mut cat = whiskers(None, None);
    let fresh_id = Uuid::new_v4();

    let mut mock_cats_api = MockApiClient::new();
    mock_cats_api.expect_create_cat(Ok(CatDto {
        uuid: Some(fresh_id.to_string()),
        name: "Whiskers".to_string(),
        breed: "Siamese".to_string(),
        age: 3,
    }));

    let mut context = ContextData {
        kube_client: kube_client_at(1_700_000_000),
        cats_client: mock_cats_api,
    };
    let result = reconcile(&mut cat, &mut context);

    assert!(result.is_ok());
    let status = cat.status.as_ref().unwrap();
    assert_eq!(status.uuid, Some(fresh_id.to_string()));
    assert_eq!(status.observed_generation, None);
    assert_eq!(status.conditions.len(), 1);
    assert_eq!(status.conditions[0].type_, "AvailableCreated");
    assert_eq!(status.conditions[0].status, "True");
    assert_eq!(status.conditions[0].reason, "CatCreated");
}

#[test]
fn failed_remote_update_records_failure_condition_and_propagates() {
    let uuid = Uuid::new_v4().to_string();
    let mut cat = whiskers(
        Some(2),
        Some(CatStatus {
            uuid: Some(uuid.clone()),
            observed_generation: Some(1),
            conditions: vec![],
        }),
    );

    let mut mock_cats_api = MockApiClient::new();
    mock_cats_api.expect_get_cat_by_id(Ok(CatDto {
        uuid: Some(uuid),
        name: "Whiskers".to_string(),
        breed: "Tabby".to_string(),
        age: 3,
    }));
    mock_cats_api.expect_update_cat_by_id(Err(operator::apis::Error::ResponseError(
        operator::apis::ResponseContent {
            status: 422,
            content: "validation rejected".to_string(),
            entity: None,
        },
    )));

    let mut context = ContextData {
        kube_client: kube_client_at(1_700_000_000),
        cats_client: mock_cats_api,
    };
    let result = reconcile(&mut cat, &mut context);

    assert!(matches!(result, Err(OperatorError::RemoteApiError(_))));
    let status = cat.status.as_ref().unwrap();
    // the failure is recorded, the generation baseline does not advance
    assert_eq!(status.observed_generation, Some(1));
    assert_eq!(status.conditions.len(), 1);
    assert_eq!(status.conditions[0].type_, "AvailableNotUpdated");
    assert_eq!(status.conditions[0].status, "False");
    assert_eq!(status.conditions[0].reason, "CatNotUpdated");
    // the failure condition was still persisted, best-effort
    assert_eq!(context.kube_client.client.status_patches.len(), 1);
}

#[test]
fn listing_hands_back_every_remote_entity() {
    let mut mock_cats_api = MockApiClient::new();
    mock_cats_api.expect_get_cats(Ok(vec![
        CatDto {
            uuid: Some("id-1".to_string()),
            name: "Whiskers".to_string(),
            breed: "Siamese".to_string(),
            age: 3,
        },
        CatDto {
            uuid: Some("id-2".to_string()),
            name: "Tom".to_string(),
            breed: "Tabby".to_string(),
            age: 5,
        },
    ]));

    let cats = mock_cats_api.get_cats().unwrap();
    assert_eq!(cats.len(), 2);
    assert_eq!(cats[0].uuid, Some("id-1".to_string()));
    assert_eq!(cats[1].name, "Tom");
}

#[test]
fn replace_failure_is_propagated() {
    let uuid = Uuid::new_v4().to_string();
    let mut cat = whiskers(
        Some(2),
        Some(CatStatus {
            uuid: Some(uuid.clone()),
            observed_generation: Some(1),
            conditions: vec![],
        }),
    );

    let mut mock_cats_api = MockApiClient::new();
    mock_cats_api.expect_get_cat_by_id(Ok(CatDto {
        uuid: Some(uuid),
        name: "Whiskers".to_string(),
        breed: "Tabby".to_string(),
        age: 3,
    }));
    mock_cats_api.expect_update_cat_by_id(Ok(CatDto {
        uuid: None,
        name: "Whiskers".to_string(),
        breed: "Siamese".to_string(),
        age: 3,
    }));

    let mut kube_client = kube_client_at(1_700_000_000);
    kube_client
        .client
        .script_replace(Err(ClusterError::Other("server unavailable".to_string())));

    let mut context = ContextData {
        kube_client,
        cats_client: mock_cats_api,
    };
    let result = reconcile(&mut cat, &mut context);

    assert!(matches!(
        result,
        Err(OperatorError::FailedToUpdateResource(_))
    ));
}

#[test]
fn missing_name_is_an_invalid_resource_state() {
    let mut kube_client = kube_client_at(1_700_000_000);
    let mut cat = whiskers(Some(1), None);
    cat.metadata.name = None;

    let result = kube_client.add_finalizer(&mut cat);
    assert!(matches!(
        result,
        Err(OperatorError::InvalidResourceState(_))
    ));
    assert_eq!(kube_client.client.patches.len(), 0);
}

#[test]
fn finalizer_patch_failure_is_reported() {
    let mut kube_client = kube_client_at(1_700_000_000);
    kube_client
        .client
        .script_patch(Err(ClusterError::Other("forbidden".to_string())));
    let mut cat = whiskers(Some(1), None);

    let result = kube_client.add_finalizer(&mut cat);
    assert!(matches!(
        result,
        Err(OperatorError::FailedToPatchResource(_))
    ));
}
