//! Pure mappings between the managed resource's desired shape and the remote
//! entity's wire shape.

use crate::models::{CatDto, CatDtoView};
use crate::types::{CatSpec, CatSpecView};
use vstd::prelude::*;

verus! {

/// The remote entity described by a desired spec; the identity is left empty
/// because the remote service assigns it on creation.
pub open spec fn remote_entity_of(spec: CatSpecView) -> CatDtoView {
    CatDtoView { uuid: None, name: spec.name, breed: spec.breed, age: spec.age }
}

/// Whether a remote entity carries the same semantic attributes as a desired
/// spec (field-by-field equality on the mapped attributes, not identity).
pub open spec fn same_attributes(dto: CatDtoView, spec: CatSpecView) -> bool {
    &&& dto.name == spec.name
    &&& dto.breed == spec.breed
    &&& dto.age == spec.age
}

/// Build the remote entity for a desired spec.
pub fn to_remote_entity(spec: &CatSpec) -> (dto: CatDto)
    ensures
        dto@ == remote_entity_of(spec@),
{
    CatDto { uuid: None, name: spec.name.clone(), breed: spec.breed.clone(), age: spec.age }
}

/// The status fields observed from a remote entity: its identity, as stored
/// in `status.uuid`.
pub fn from_remote_entity(entity: &CatDto) -> (uuid: Option<String>)
    ensures
        uuid.deep_view() == entity@.uuid,
{
    match &entity.uuid {
        Some(u) => Some(u.clone()),
        None => None,
    }
}

/// The textual form of an optional remote identity.
pub fn uuid_to_string(uuid: Option<String>) -> (r: Option<String>)
    ensures
        r == uuid,
{
    uuid
}

/// Whether the remote entity agrees with the desired spec on every semantic
/// attribute.
pub fn matches_spec(dto: &CatDto, spec: &CatSpec) -> (b: bool)
    ensures
        b == same_attributes(dto@, spec@),
{
    dto.name.eq(&spec.name) && dto.breed.eq(&spec.breed) && dto.age == spec.age
}

} // verus!
