//! The remote service's wire representation of a cat.

use vstd::prelude::*;

verus! {

/// The remote entity: an identity assigned by the remote service on creation
/// (never client-chosen) plus the same semantic attributes as the managed
/// resource's spec.
#[derive(Debug, Clone, PartialEq)]
pub struct CatDto {
    /// The remote identity; left empty on requests that create the entity.
    pub uuid: Option<String>,
    pub name: String,
    pub breed: String,
    pub age: i32,
}

pub ghost struct CatDtoView {
    pub uuid: Option<Seq<char>>,
    pub name: Seq<char>,
    pub breed: Seq<char>,
    pub age: i32,
}

impl View for CatDto {
    type V = CatDtoView;

    open spec fn view(&self) -> CatDtoView {
        CatDtoView {
            uuid: self.uuid.deep_view(),
            name: self.name@,
            breed: self.breed@,
            age: self.age,
        }
    }
}

impl DeepView for CatDto {
    type V = CatDtoView;

    open spec fn deep_view(&self) -> CatDtoView {
        self.view()
    }
}

} // verus!
