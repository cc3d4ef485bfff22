//! The cats controller: the reconciliation state machine.
//!
//! `reconcile` decides, for one managed resource and the current remote state,
//! whether to create, update, delete or leave the remote entity alone, and
//! performs the needed cluster and remote writes through the `KubeApi` and
//! `CatsApi` interfaces. Every path's observable behaviour — the final
//! resource, the exact sequence of network calls, and the returned result —
//! is pinned by the `*_post` predicates below.
//!
//! The external trigger that invokes `reconcile` must serialize invocations
//! per resource; it owns retry scheduling for the reconciliation as a whole.

use crate::cats_api::{CatsApi, RemoteEvent};
use crate::cluster::ClusterEvent;
use crate::converters;
use crate::converters::{remote_entity_of, same_attributes};
use crate::errors::OperatorError;
use crate::models::CatDtoView;
use crate::types::{Cat, CatStatus, CatStatusView, CatView, Condition, ConditionView};
use crate::{
    fin_delta, has_finalizer, lemma_status_retry_bound, norm_finalizers, patch_count,
    patch_status_count, remove_finalizer_post, replace_count, status_write_attempted,
    status_write_tail, with_finalizer, KubeApi,
};
use vstd::prelude::*;

verus! {

/// The last known spec has already been reconciled: `status.observedGeneration`
/// is present and equals `metadata.generation`.
pub open spec fn is_fast_noop(c: CatView) -> bool {
    c.status matches Some(s) && s.observed_generation is Some && s.observed_generation
        == c.metadata.generation
}

/// No remote entity is known to exist for this resource yet.
pub open spec fn needs_create(c: CatView) -> bool {
    c.status is None || c.status->Some_0.uuid is None
}

/// The status record the reconciler builds on: the current one, or an empty
/// one for a fresh resource.
pub open spec fn base_status(c: CatView) -> CatStatusView {
    match c.status {
        Some(s) => s,
        None => CatStatusView { uuid: None, observed_generation: None, conditions: Seq::empty() },
    }
}

/// The condition's fields, with the transition time left open (it is stamped
/// from the clock).
pub open spec fn condition_is(
    cond: ConditionView,
    status: Seq<char>,
    type_: Seq<char>,
    reason: Seq<char>,
    message: Seq<char>,
    og: Option<i64>,
) -> bool {
    &&& cond.status == status
    &&& cond.type_ == type_
    &&& cond.reason == reason
    &&& cond.message == message
    &&& cond.observed_generation == og
    &&& cond.last_transition_time >= 0
}

/// `post_conds` is `pre_conds` with exactly one condition of the given shape
/// appended — the condition list is append-only.
pub open spec fn appended_condition(
    pre_conds: Seq<ConditionView>,
    post_conds: Seq<ConditionView>,
    status: Seq<char>,
    type_: Seq<char>,
    reason: Seq<char>,
    message: Seq<char>,
    og: Option<i64>,
) -> bool {
    &&& post_conds.len() == pre_conds.len() + 1
    &&& post_conds.take(pre_conds.len() as int) == pre_conds
    &&& condition_is(post_conds.last(), status, type_, reason, message, og)
}

/// Name, generation, deletion timestamp and spec are untouched.
pub open spec fn core_preserved(pre: CatView, post: CatView) -> bool {
    &&& post.metadata.name == pre.metadata.name
    &&& post.metadata.generation == pre.metadata.generation
    &&& post.metadata.deletion_timestamp == pre.metadata.deletion_timestamp
    &&& post.spec == pre.spec
}

/// After a successful remote creation: the returned identity is stored, the
/// observed generation advances to the current one, and one
/// "AvailableCreated"/"True" condition stamped with that generation is
/// appended.
pub open spec fn created_status_post(pre: CatView, created: CatDtoView, post: CatView) -> bool {
    &&& post.status matches Some(st)
    &&& st.uuid == created.uuid
    &&& st.observed_generation == pre.metadata.generation
    &&& appended_condition(
        base_status(pre).conditions,
        st.conditions,
        "True"@,
        "AvailableCreated"@,
        "CatCreated"@,
        "The cat has been created successfully"@,
        pre.metadata.generation,
    )
}

/// After a failed remote creation: the identity stays absent, the observed
/// generation does not advance, and one "AvailableNotCreated"/"False"
/// condition with no generation baseline is appended.
pub open spec fn create_failed_status_post(pre: CatView, post: CatView) -> bool {
    &&& post.status matches Some(st)
    &&& st.uuid == base_status(pre).uuid
    &&& st.observed_generation == base_status(pre).observed_generation
    &&& appended_condition(
        base_status(pre).conditions,
        st.conditions,
        "False"@,
        "AvailableNotCreated"@,
        "CatNotCreated"@,
        "Failed to create the cat"@,
        None,
    )
}

/// Everything `handle_create` can do, as a relation between the resource
/// before and after, the two journals before and after, and the result.
///
/// Either the resource has no name (nothing happens, `InvalidResourceState`);
/// or the finalizer merge-patch failed (no remote call is made and the patch
/// failure is returned); or the remote create was attempted with exactly the
/// entity described by the spec, the outcome is recorded in the status with
/// one appended condition, the status is persisted, and the result reports
/// the creation failure or, after a successful creation, the status write.
pub open spec fn handle_create_post(
    pre: CatView,
    post: CatView,
    k0: Seq<ClusterEvent>,
    kf: Seq<ClusterEvent>,
    c0: Seq<RemoteEvent>,
    cf: Seq<RemoteEvent>,
    r: Result<(), OperatorError>,
) -> bool {
    if pre.metadata.name is None {
        &&& post == pre
        &&& kf == k0
        &&& cf == c0
        &&& r matches Err(OperatorError::InvalidResourceState(_))
    } else {
        let nm = pre.metadata.name->Some_0;
        let l0 = norm_finalizers(pre.metadata.finalizers);
        &&& core_preserved(pre, post)
        &&& post.metadata.finalizers == Some(with_finalizer(l0))
        &&& ({
            ||| {
                &&& !has_finalizer(l0)
                &&& kf == k0 + fin_delta(pre, false)
                &&& cf == c0
                &&& post.status == pre.status
                &&& r matches Err(OperatorError::FailedToPatchResource(_))
            }
            ||| {
                &&& cf.len() == c0.len() + 1
                &&& cf.take(c0.len() as int) == c0
                &&& cf.last() matches RemoteEvent::Create { cat: c, result } && {
                    &&& c == remote_entity_of(pre.spec)
                    &&& match result {
                        Ok(created) => {
                            &&& created_status_post(pre, created, post)
                            &&& status_write_tail(
                                k0 + fin_delta(pre, true),
                                kf,
                                nm,
                                post.status,
                                r,
                            )
                        },
                        Err(info) => {
                            &&& create_failed_status_post(pre, post)
                            &&& (r matches Err(OperatorError::RemoteApiError(i)) && i@ == info)
                            &&& status_write_attempted(
                                k0 + fin_delta(pre, true),
                                kf,
                                nm,
                                post.status,
                            )
                        },
                    }
                }
            }
        })
    }
}

/// The create path: attach the finalizer, create the remote entity from the
/// spec, record the outcome in the status, persist it, and report the
/// original cause on failure.
pub fn handle_create<K: KubeApi, C: CatsApi>(
    kube_client: &mut K,
    cats_api: &mut C,
    cat: &mut Cat,
) -> (r: Result<(), OperatorError>)
    ensures
        handle_create_post(
            old(cat)@,
            final(cat)@,
            old(kube_client).events(),
            final(kube_client).events(),
            old(cats_api).events(),
            final(cats_api).events(),
            r,
        ),
{
    let ghost pre = cat@;
    let ghost k0 = kube_client.events();
    let ghost c0 = cats_api.events();
    let dto = converters::to_remote_entity(&cat.spec);
    match kube_client.add_finalizer(cat) {
        Ok(_) => {},
        Err(e) => {
            proof {
                if pre.metadata.name is Some {
                    assert(kube_client.events() =~= k0 + fin_delta(pre, false));
                }
            }
            return Err(e);
        },
    }
    let ghost kmid = kube_client.events();
    proof {
        assert(kmid =~= k0 + fin_delta(pre, true));
    }
    match cats_api.create_cat(dto) {
        Ok(created) => {
            let ghost createdv = created@;
            proof {
                assert(cats_api.events().take(c0.len() as int) =~= c0);
            }
            let uuid = converters::uuid_to_string(created.uuid);
            let cond = kube_client.create_condition(
                "True",
                "AvailableCreated",
                "CatCreated",
                "The cat has been created successfully",
                cat.metadata.generation,
            );
            let mut conds: Vec<Condition> = match cat.status.take() {
                Some(st) => st.conditions,
                None => Vec::new(),
            };
            let ghost conds0 = conds.deep_view();
            conds.push(cond);
            proof {
                assert(conds0 =~= base_status(pre).conditions);
                assert(conds.deep_view().take(conds0.len() as int) =~= conds0);
            }
            cat.status = Some(
                CatStatus { uuid, observed_generation: cat.metadata.generation, conditions: conds },
            );
            proof {
                assert(created_status_post(pre, createdv, cat@));
            }
            kube_client.update_status(cat)
        },
        Err(e) => {
            proof {
                assert(cats_api.events().take(c0.len() as int) =~= c0);
            }
            let cond = kube_client.create_condition(
                "False",
                "AvailableNotCreated",
                "CatNotCreated",
                "Failed to create the cat",
                None,
            );
            let (uuid0, og0, mut conds): (
                Option<String>,
                Option<i64>,
                Vec<Condition>,
            ) = match cat.status.take() {
                Some(st) => (st.uuid, st.observed_generation, st.conditions),
                None => (None, None, Vec::new()),
            };
            let ghost conds0 = conds.deep_view();
            conds.push(cond);
            proof {
                assert(conds0 =~= base_status(pre).conditions);
                assert(conds.deep_view().take(conds0.len() as int) =~= conds0);
            }
            cat.status = Some(
                CatStatus { uuid: uuid0, observed_generation: og0, conditions: conds },
            );
            proof {
                assert(create_failed_status_post(pre, cat@));
            }
            let best_effort = kube_client.update_status(cat);
            proof {
                crate::lemma_tail_implies_attempted(
                    kmid,
                    kube_client.events(),
                    pre.metadata.name->Some_0,
                    cat@.status,
                    best_effort,
                );
            }
            Err(OperatorError::RemoteApiError(e.into_info()))
        },
    }
}

/// After the repair path: the remote entity already agreed with the spec, so
/// only the observed generation advances to the current one.
pub open spec fn repaired_status_post(pre: CatView, post: CatView) -> bool {
    &&& post.metadata == pre.metadata
    &&& post.spec == pre.spec
    &&& post.status matches Some(st)
    &&& st.uuid == base_status(pre).uuid
    &&& st.observed_generation == pre.metadata.generation
    &&& st.conditions == base_status(pre).conditions
}

/// After a failed remote update: identity and observed generation stay, and
/// one "AvailableNotUpdated"/"False" condition is appended.
pub open spec fn update_failed_status_post(pre: CatView, post: CatView) -> bool {
    &&& post.metadata == pre.metadata
    &&& post.spec == pre.spec
    &&& post.status matches Some(st)
    &&& st.uuid == base_status(pre).uuid
    &&& st.observed_generation == base_status(pre).observed_generation
    &&& appended_condition(
        base_status(pre).conditions,
        st.conditions,
        "False"@,
        "AvailableNotUpdated"@,
        "CatNotUpdated"@,
        "Failed to update the cat"@,
        None,
    )
}

/// After a successful remote update: the resource is the server's fresh
/// snapshot from the replace, the known identity stays, the observed
/// generation advances to the reconciled one, and one
/// "AvailableUpdated"/"True" condition stamped with it is appended to the
/// snapshot's conditions.
pub open spec fn updated_status_post(pre: CatView, fresh: CatView, post: CatView) -> bool {
    &&& post.metadata == fresh.metadata
    &&& post.spec == fresh.spec
    &&& post.status matches Some(st)
    &&& st.uuid == base_status(pre).uuid
    &&& st.observed_generation == pre.metadata.generation
    &&& appended_condition(
        base_status(fresh).conditions,
        st.conditions,
        "True"@,
        "AvailableUpdated"@,
        "Updated the resource"@,
        "Resource has been updated"@,
        pre.metadata.generation,
    )
}

/// Everything `handle_update` can do. The remote entity is fetched by the
/// stored identity; if it already matches the spec only the observed
/// generation is repaired; otherwise exactly one remote update with the
/// entity described by the spec, then one cluster replace, then the status
/// write happen, and every failure is propagated as the result.
pub open spec fn handle_update_post(
    pre: CatView,
    post: CatView,
    k0: Seq<ClusterEvent>,
    kf: Seq<ClusterEvent>,
    c0: Seq<RemoteEvent>,
    cf: Seq<RemoteEvent>,
    r: Result<(), OperatorError>,
) -> bool {
    if pre.metadata.name is None {
        &&& post == pre
        &&& kf == k0
        &&& cf == c0
        &&& r matches Err(OperatorError::InvalidResourceState(_))
    } else {
        let nm = pre.metadata.name->Some_0;
        let u = base_status(pre).uuid->Some_0;
        &&& cf.len() > c0.len()
        &&& cf.take(c0.len() as int) == c0
        &&& cf[c0.len() as int] matches RemoteEvent::GetById { id, result } && {
            &&& id == u
            &&& match result {
                Err(info) => {
                    &&& cf.len() == c0.len() + 1
                    &&& kf == k0
                    &&& post == pre
                    &&& (r matches Err(OperatorError::RemoteApiError(i)) && i@ == info)
                },
                Ok(remote) => {
                    if same_attributes(remote, pre.spec) {
                        &&& cf.len() == c0.len() + 1
                        &&& repaired_status_post(pre, post)
                        &&& status_write_tail(k0, kf, nm, post.status, r)
                    } else {
                        &&& cf.len() == c0.len() + 2
                        &&& cf.last() matches RemoteEvent::UpdateById {
                            id: id2,
                            cat: c2,
                            result: r2,
                        } && {
                            &&& id2 == u
                            &&& c2 == remote_entity_of(pre.spec)
                            &&& match r2 {
                                Err(info2) => {
                                    &&& update_failed_status_post(pre, post)
                                    &&& (r matches Err(OperatorError::RemoteApiError(i)) && i@
                                        == info2)
                                    &&& status_write_attempted(k0, kf, nm, post.status)
                                },
                                Ok(_) => {
                                    ||| {
                                        // the cluster replace failed; no status write happened
                                        &&& kf == k0.push(
                                            ClusterEvent::Replace {
                                                name: nm,
                                                resource: pre,
                                                result: None,
                                            },
                                        )
                                        &&& post == pre
                                        &&& r matches Err(OperatorError::FailedToUpdateResource(_))
                                    }
                                    ||| exists|fresh: CatView|
                                        {
                                            &&& #[trigger] updated_status_post(pre, fresh, post)
                                            &&& (fresh.metadata.name matches Some(fnm)
                                                ==> status_write_tail(
                                                k0.push(
                                                    ClusterEvent::Replace {
                                                        name: nm,
                                                        resource: pre,
                                                        result: Some(fresh),
                                                    },
                                                ),
                                                kf,
                                                fnm,
                                                post.status,
                                                r,
                                            ))
                                            &&& (fresh.metadata.name is None ==> {
                                                &&& kf == k0.push(
                                                    ClusterEvent::Replace {
                                                        name: nm,
                                                        resource: pre,
                                                        result: Some(fresh),
                                                    },
                                                )
                                                &&& r matches Err(
                                                    OperatorError::InvalidResourceState(_),
                                                )
                                            })
                                        }
                                },
                            }
                        }
                    }
                },
            }
        }
    }
}

/// The reconcile-existing path: fetch the remote entity, repair the observed
/// generation if it already matches the spec, otherwise push the spec to the
/// remote service, replace the cluster object for a fresh snapshot, append an
/// "AvailableUpdated" condition and persist the status.
pub fn handle_update<K: KubeApi, C: CatsApi>(
    kube_client: &mut K,
    cats_api: &mut C,
    cat: &mut Cat,
) -> (r: Result<(), OperatorError>)
    requires
        old(cat)@.status matches Some(st) && st.uuid is Some,
    ensures
        handle_update_post(
            old(cat)@,
            final(cat)@,
            old(kube_client).events(),
            final(kube_client).events(),
            old(cats_api).events(),
            final(cats_api).events(),
            r,
        ),
{
    let ghost pre = cat@;
    let ghost k0 = kube_client.events();
    let ghost c0 = cats_api.events();
    let name = match &cat.metadata.name {
        Some(n) => n.clone(),
        None => {
            return Err(
                OperatorError::InvalidResourceState(String::from_str("Resource name is missing.")),
            );
        },
    };
    let uuid = match &cat.status {
        Some(st) => match &st.uuid {
            Some(u) => u.clone(),
            None => unreached(),
        },
        None => unreached(),
    };
    let remote = match cats_api.get_cat_by_id(&uuid) {
        Ok(remote) => remote,
        Err(e) => {
            proof {
                assert(cats_api.events().take(c0.len() as int) =~= c0);
            }
            return Err(OperatorError::RemoteApiError(e.into_info()));
        },
    };
    proof {
        assert(cats_api.events().take(c0.len() as int) =~= c0);
    }
    if converters::matches_spec(&remote, &cat.spec) {
        let st = match cat.status.take() {
            Some(st) => st,
            None => unreached(),
        };
        cat.status = Some(
            CatStatus {
                uuid: st.uuid,
                observed_generation: cat.metadata.generation,
                conditions: st.conditions,
            },
        );
        proof {
            assert(repaired_status_post(pre, cat@));
        }
        kube_client.update_status(cat)
    } else {
        let dto = converters::to_remote_entity(&cat.spec);
        let ghost cmid = cats_api.events();
        match cats_api.update_cat_by_id(&uuid, dto) {
            Ok(_updated) => {},
            Err(e) => {
                proof {
                    assert(cats_api.events().take(c0.len() as int) =~= c0);
                    assert(cats_api.events()[c0.len() as int] == cmid.last());
                }
                let cond = kube_client.create_condition(
                    "False",
                    "AvailableNotUpdated",
                    "CatNotUpdated",
                    "Failed to update the cat",
                    None,
                );
                let (uuid0, og0, mut conds): (
                    Option<String>,
                    Option<i64>,
                    Vec<Condition>,
                ) = match cat.status.take() {
                    Some(st) => (st.uuid, st.observed_generation, st.conditions),
                    None => unreached(),
                };
                let ghost conds0 = conds.deep_view();
                conds.push(cond);
                proof {
                    assert(conds0 =~= base_status(pre).conditions);
                    assert(conds.deep_view().take(conds0.len() as int) =~= conds0);
                }
                cat.status = Some(
                    CatStatus { uuid: uuid0, observed_generation: og0, conditions: conds },
                );
                proof {
                    assert(update_failed_status_post(pre, cat@));
                }
                let best_effort = kube_client.update_status(cat);
                proof {
                    crate::lemma_tail_implies_attempted(
                        k0,
                        kube_client.events(),
                        pre.metadata.name->Some_0,
                        cat@.status,
                        best_effort,
                    );
                }
                return Err(OperatorError::RemoteApiError(e.into_info()));
            },
        }
        proof {
            assert(cats_api.events().take(c0.len() as int) =~= c0);
            assert(cats_api.events()[c0.len() as int] == cmid.last());
        }
        let gen0 = cat.metadata.generation;
        let fresh = match kube_client.replace(&name, cat) {
            Ok(fresh) => fresh,
            Err(e) => {
                proof {
                    assert(kube_client.events().take(k0.len() as int) =~= k0);
                }
                return Err(e);
            },
        };
        let ghost freshv = fresh@;
        let ghost kmid = kube_client.events();
        *cat = fresh;
        let cond = kube_client.create_condition(
            "True",
            "AvailableUpdated",
            "Updated the resource",
            "Resource has been updated",
            gen0,
        );
        let mut conds: Vec<Condition> = match cat.status.take() {
            Some(st) => st.conditions,
            None => Vec::new(),
        };
        let ghost conds0 = conds.deep_view();
        conds.push(cond);
        proof {
            assert(conds0 =~= base_status(freshv).conditions);
            assert(conds.deep_view().take(conds0.len() as int) =~= conds0);
        }
        cat.status = Some(
            CatStatus { uuid: Some(uuid), observed_generation: gen0, conditions: conds },
        );
        proof {
            assert(updated_status_post(pre, freshv, cat@));
        }
        kube_client.update_status(cat)
    }
}

/// Everything `handle_delete` can do: the remote entity is deleted first,
/// using the stored identity; only after a confirmed deletion (or with no
/// identity outstanding) is the finalizer removed, so the cluster can never
/// garbage-collect the resource while the remote entity may still be live.
pub open spec fn handle_delete_post(
    pre: CatView,
    post: CatView,
    k0: Seq<ClusterEvent>,
    kf: Seq<ClusterEvent>,
    c0: Seq<RemoteEvent>,
    cf: Seq<RemoteEvent>,
    r: Result<(), OperatorError>,
) -> bool {
    &&& (base_status(pre).uuid matches Some(u) ==> {
        &&& cf.len() == c0.len() + 1
        &&& cf.take(c0.len() as int) == c0
        &&& cf.last() matches RemoteEvent::DeleteById { id, result } && {
            &&& id == u
            &&& match result {
                Err(info) => {
                    &&& kf == k0
                    &&& post == pre
                    &&& (r matches Err(OperatorError::RemoteApiError(i)) && i@ == info)
                },
                Ok(_) => remove_finalizer_post(pre, post, k0, kf, r),
            }
        }
    })
    &&& (base_status(pre).uuid is None ==> {
        &&& cf == c0
        &&& remove_finalizer_post(pre, post, k0, kf, r)
    })
}

/// The deletion path: delete the remote entity by its stored identity, then
/// remove the finalizer; if the remote delete fails the finalizer stays and
/// the error is propagated, so the resource is kept until cleanup succeeds.
pub fn handle_delete<K: KubeApi, C: CatsApi>(
    kube_client: &mut K,
    cats_api: &mut C,
    cat: &mut Cat,
) -> (r: Result<(), OperatorError>)
    ensures
        handle_delete_post(
            old(cat)@,
            final(cat)@,
            old(kube_client).events(),
            final(kube_client).events(),
            old(cats_api).events(),
            final(cats_api).events(),
            r,
        ),
{
    let ghost c0 = cats_api.events();
    let uuid: Option<String> = match &cat.status {
        Some(st) => match &st.uuid {
            Some(u) => Some(u.clone()),
            None => None,
        },
        None => None,
    };
    if let Some(u) = uuid {
        match cats_api.delete_cat_by_id(&u) {
            Ok(_) => {},
            Err(e) => {
                proof {
                    assert(cats_api.events().take(c0.len() as int) =~= c0);
                }
                return Err(OperatorError::RemoteApiError(e.into_info()));
            },
        }
        proof {
            assert(cats_api.events().take(c0.len() as int) =~= c0);
        }
    }
    kube_client.remove_finalizer(cat)
}

/// The handles a reconciliation needs: the cluster resource gateway and the
/// remote service client for the resource's kind.
pub struct ContextData<K: KubeApi, C: CatsApi> {
    pub kube_client: K,
    pub cats_client: C,
}

/// Everything one `reconcile` call can do, by the state of the resource:
/// pending deletion is handled first; a resource whose observed generation is
/// present and current is a no-op with zero cluster and remote calls; a
/// resource with no known remote entity takes the create path; everything
/// else takes the reconcile-existing path.
pub open spec fn reconcile_post(
    pre: CatView,
    post: CatView,
    k0: Seq<ClusterEvent>,
    kf: Seq<ClusterEvent>,
    c0: Seq<RemoteEvent>,
    cf: Seq<RemoteEvent>,
    r: Result<(), OperatorError>,
) -> bool {
    if pre.metadata.deletion_timestamp is Some {
        handle_delete_post(pre, post, k0, kf, c0, cf, r)
    } else if is_fast_noop(pre) {
        &&& post == pre
        &&& kf == k0
        &&& cf == c0
        &&& r is Ok
    } else if needs_create(pre) {
        handle_create_post(pre, post, k0, kf, c0, cf, r)
    } else {
        handle_update_post(pre, post, k0, kf, c0, cf, r)
    }
}

/// Create-then-no-op: a successful creation on a fresh resource stores the
/// returned identity, appends exactly one "AvailableCreated"/"True" condition,
/// and advances the observed generation to the current one; the resulting
/// resource satisfies the fast no-op guard, so reconciling it again with an
/// unchanged generation performs zero cluster and remote calls and succeeds.
pub proof fn lemma_create_then_noop(pre: CatView, created: CatDtoView, post: CatView)
    requires
        pre.metadata.generation is Some,
        pre.metadata.deletion_timestamp is None,
        pre.status is None,
        created.uuid is Some,
        created_status_post(pre, created, post),
        core_preserved(pre, post),
    ensures
        post.status matches Some(st) && {
            &&& st.uuid == created.uuid
            &&& st.uuid is Some
            &&& st.observed_generation == pre.metadata.generation
            &&& st.conditions.len() == 1
            &&& condition_is(
                st.conditions.last(),
                "True"@,
                "AvailableCreated"@,
                "CatCreated"@,
                "The cat has been created successfully"@,
                pre.metadata.generation,
            )
        },
        is_fast_noop(post),
        forall|
            post2: CatView,
            k0: Seq<ClusterEvent>,
            kf: Seq<ClusterEvent>,
            c0: Seq<RemoteEvent>,
            cf: Seq<RemoteEvent>,
            r: Result<(), OperatorError>,
        |
            #[trigger] reconcile_post(post, post2, k0, kf, c0, cf, r) ==> (post2 == post && kf
                == k0 && cf == c0 && r is Ok),
{
}

/// Create-failure: when the remote create was attempted on a fresh, named
/// resource and the service answered with an error, the reconciliation
/// returns an error, the status still holds no remote identity, and exactly
/// one condition — of status "False" — was appended.
pub proof fn lemma_create_failure(
    pre: CatView,
    post: CatView,
    k0: Seq<ClusterEvent>,
    kf: Seq<ClusterEvent>,
    c0: Seq<RemoteEvent>,
    cf: Seq<RemoteEvent>,
    r: Result<(), OperatorError>,
)
    requires
        handle_create_post(pre, post, k0, kf, c0, cf, r),
        pre.metadata.name is Some,
        pre.status is None,
        cf.len() > c0.len(),
        cf.last() matches RemoteEvent::Create { cat: _, result: Err(_) },
    ensures
        r is Err,
        post.status matches Some(st) && {
            &&& st.uuid is None
            &&& st.conditions.len() == 1
            &&& st.conditions.last().status == "False"@
        },
{
}

/// Update only on generation mismatch: on the reconcile-existing path, when
/// the fetched remote entity differs from the spec and the reconciliation
/// succeeds, exactly one remote update carrying the entity described by the
/// spec and exactly one cluster replace happen, between one and three status
/// patches follow, one "AvailableUpdated"/"True" condition is appended, and
/// the observed generation advances to the reconciled generation.
pub proof fn lemma_update_path(
    pre: CatView,
    post: CatView,
    k0: Seq<ClusterEvent>,
    kf: Seq<ClusterEvent>,
    c0: Seq<RemoteEvent>,
    cf: Seq<RemoteEvent>,
    r: Result<(), OperatorError>,
)
    requires
        handle_update_post(pre, post, k0, kf, c0, cf, r),
        pre.metadata.name is Some,
        base_status(pre).uuid is Some,
        cf.len() > c0.len(),
        cf[c0.len() as int] matches RemoteEvent::GetById { id: _, result: Ok(remote) }
            && !same_attributes(remote, pre.spec),
        r is Ok,
    ensures
        cf.len() == c0.len() + 2,
        cf.last() matches RemoteEvent::UpdateById { id, cat, result } && {
            &&& id == base_status(pre).uuid->Some_0
            &&& cat == remote_entity_of(pre.spec)
            &&& result is Ok
        },
        replace_count(kf.skip(k0.len() as int)) == 1,
        1 <= patch_status_count(kf.skip(k0.len() as int)) <= 3,
        patch_count(kf.skip(k0.len() as int)) == 0,
        post.status matches Some(st) && st.observed_generation == pre.metadata.generation,
        exists|fresh: CatView| #[trigger] updated_status_post(pre, fresh, post),
{
    let nm = pre.metadata.name->Some_0;
    let fresh = choose|fresh: CatView|
        {
            &&& #[trigger] updated_status_post(pre, fresh, post)
            &&& (fresh.metadata.name matches Some(fnm) ==> status_write_tail(
                k0.push(
                    ClusterEvent::Replace { name: nm, resource: pre, result: Some(fresh) },
                ),
                kf,
                fnm,
                post.status,
                r,
            ))
            &&& (fresh.metadata.name is None ==> {
                &&& kf == k0.push(
                    ClusterEvent::Replace { name: nm, resource: pre, result: Some(fresh) },
                )
                &&& r matches Err(OperatorError::InvalidResourceState(_))
            })
        };
    assert(fresh.metadata.name is Some);
    let rep = ClusterEvent::Replace { name: nm, resource: pre, result: Some(fresh) };
    let kmid = k0.push(rep);
    lemma_status_retry_bound(kmid, kf, fresh.metadata.name->Some_0, post.status, r);
    assert(kf.skip(k0.len() as int) =~= seq![rep] + kf.skip(kmid.len() as int)) by {
        assert(kf.take(kmid.len() as int) == kmid);
        assert(kf[k0.len() as int] == kmid[k0.len() as int]);
    }
    crate::lemma_single_event_counts(rep);
    crate::lemma_counts_add(seq![rep], kf.skip(kmid.len() as int));
}

/// A failed remote delete keeps the finalizer: when the deletion path could
/// not confirm the remote entity's deletion, the resource — its finalizer
/// list included — is untouched and no cluster write happens, so the cluster
/// cannot garbage-collect the resource while the remote entity may be live.
pub proof fn lemma_failed_delete_keeps_finalizer(
    pre: CatView,
    post: CatView,
    k0: Seq<ClusterEvent>,
    kf: Seq<ClusterEvent>,
    c0: Seq<RemoteEvent>,
    cf: Seq<RemoteEvent>,
    r: Result<(), OperatorError>,
)
    requires
        handle_delete_post(pre, post, k0, kf, c0, cf, r),
        base_status(pre).uuid is Some,
        cf.last() matches RemoteEvent::DeleteById { id: _, result: Err(_) },
    ensures
        post == pre,
        kf == k0,
        r is Err,
{
}

/// Reconcile one managed resource against the remote service.
///
/// The fast no-op guard means a resource whose `status.observedGeneration`
/// equals `metadata.generation` (and which is not pending deletion) causes
/// zero cluster and zero remote calls and returns success.
pub fn reconcile<K: KubeApi, C: CatsApi>(
    resource: &mut Cat,
    context: &mut ContextData<K, C>,
) -> (r: Result<(), OperatorError>)
    ensures
        reconcile_post(
            old(resource)@,
            final(resource)@,
            old(context).kube_client.events(),
            final(context).kube_client.events(),
            old(context).cats_client.events(),
            final(context).cats_client.events(),
            r,
        ),
{
    if resource.metadata.deletion_timestamp.is_some() {
        return handle_delete(&mut context.kube_client, &mut context.cats_client, resource);
    }
    let fast = match &resource.status {
        Some(st) => match (&st.observed_generation, &resource.metadata.generation) {
            (Some(og), Some(g)) => *og == *g,
            _ => false,
        },
        None => false,
    };
    if fast {
        return Ok(());
    }
    let create = match &resource.status {
        None => true,
        Some(st) => st.uuid.is_none(),
    };
    if create {
        handle_create(&mut context.kube_client, &mut context.cats_client, resource)
    } else {
        handle_update(&mut context.kube_client, &mut context.cats_client, resource)
    }
}

} // verus!

