//! The typed contract against the remote cat service, and a programmable
//! stand-in for tests.
//!
//! `CatsApi` has one method per CRUD verb. Every implementation journals each
//! call as one `RemoteEvent`, recording the arguments and how the service
//! answered; nothing is promised about the answers themselves, so everything
//! proved against this trait holds for every remote behaviour.

use crate::apis::{error_info, Error};
use crate::errors::ApiErrorInfoView;
use crate::models::{CatDto, CatDtoView};
use vstd::prelude::*;

verus! {

/// The typed body of an error response to `create_cat`.
#[derive(Debug, Clone, PartialEq)]
pub enum CreateCatError {
    UnknownValue(String),
}

/// The typed body of an error response to `get_cat_by_id`.
#[derive(Debug, Clone, PartialEq)]
pub enum GetCatByIdError {
    UnknownValue(String),
}

/// The typed body of an error response to `update_cat_by_id`.
#[derive(Debug, Clone, PartialEq)]
pub enum UpdateCatByIdError {
    UnknownValue(String),
}

/// The typed body of an error response to `delete_cat_by_id`.
#[derive(Debug, Clone, PartialEq)]
pub enum DeleteCatByIdError {
    UnknownValue(String),
}

/// The typed body of an error response to `get_cats`.
#[derive(Debug, Clone, PartialEq)]
pub enum GetCatsError {
    UnknownValue(String),
}

/// How a call that returns one entity ended, as recorded in the journal.
pub open spec fn dto_result_view<E>(r: Result<CatDto, Error<E>>) -> Result<
    CatDtoView,
    ApiErrorInfoView,
> {
    match r {
        Ok(c) => Ok(c@),
        Err(e) => Err(error_info(e)),
    }
}

/// How a call that returns nothing ended, as recorded in the journal.
pub open spec fn unit_result_view<E>(r: Result<(), Error<E>>) -> Result<(), ApiErrorInfoView> {
    match r {
        Ok(_) => Ok(()),
        Err(e) => Err(error_info(e)),
    }
}

/// How a call that returns a listing ended, as recorded in the journal.
pub open spec fn list_result_view<E>(r: Result<Vec<CatDto>, Error<E>>) -> Result<
    Seq<CatDtoView>,
    ApiErrorInfoView,
> {
    match r {
        Ok(v) => Ok(v.deep_view()),
        Err(e) => Err(error_info(e)),
    }
}

/// One observable call against the remote cat service.
pub ghost enum RemoteEvent {
    Create { cat: CatDtoView, result: Result<CatDtoView, ApiErrorInfoView> },
    GetById { id: Seq<char>, result: Result<CatDtoView, ApiErrorInfoView> },
    UpdateById { id: Seq<char>, cat: CatDtoView, result: Result<CatDtoView, ApiErrorInfoView> },
    DeleteById { id: Seq<char>, result: Result<(), ApiErrorInfoView> },
    List { result: Result<Seq<CatDtoView>, ApiErrorInfoView> },
}

/// A client of the remote cat service, one method per CRUD verb.
pub trait CatsApi: Sized {
    /// All calls this client has made, oldest first. The default journals
    /// nothing; it is for implementations outside the verified library, about
    /// which nothing is proved.
    open spec fn events(&self) -> Seq<RemoteEvent> {
        Seq::empty()
    }

    /// Create a remote cat; the service assigns and returns its identity.
    fn create_cat(&mut self, cat: CatDto) -> (r: Result<CatDto, Error<CreateCatError>>)
        ensures
            final(self).events() == old(self).events().push(
                RemoteEvent::Create { cat: cat@, result: dto_result_view(r) },
            ),
    ;

    /// Fetch the remote cat with the given identity.
    fn get_cat_by_id(&mut self, id: &String) -> (r: Result<CatDto, Error<GetCatByIdError>>)
        ensures
            final(self).events() == old(self).events().push(
                RemoteEvent::GetById { id: id@, result: dto_result_view(r) },
            ),
    ;

    /// Overwrite the remote cat with the given identity.
    fn update_cat_by_id(&mut self, id: &String, cat: CatDto) -> (r: Result<
        CatDto,
        Error<UpdateCatByIdError>,
    >)
        ensures
            final(self).events() == old(self).events().push(
                RemoteEvent::UpdateById { id: id@, cat: cat@, result: dto_result_view(r) },
            ),
    ;

    /// Delete the remote cat with the given identity.
    fn delete_cat_by_id(&mut self, id: &String) -> (r: Result<(), Error<DeleteCatByIdError>>)
        ensures
            final(self).events() == old(self).events().push(
                RemoteEvent::DeleteById { id: id@, result: unit_result_view(r) },
            ),
    ;

    /// List every remote cat.
    fn get_cats(&mut self) -> (r: Result<Vec<CatDto>, Error<GetCatsError>>)
        ensures
            final(self).events() == old(self).events().push(
                RemoteEvent::List { result: list_result_view(r) },
            ),
    ;
}

/// A programmable stand-in for the remote cat service: answers each call from
/// a script and records what was asked of it.
pub struct MockApiClient {
    /// Results to hand out for `create_cat`, in order.
    pub create_results: Vec<Result<CatDto, Error<CreateCatError>>>,
    /// Results to hand out for `get_cat_by_id`, in order.
    pub get_results: Vec<Result<CatDto, Error<GetCatByIdError>>>,
    /// Results to hand out for `update_cat_by_id`, in order.
    pub update_results: Vec<Result<CatDto, Error<UpdateCatByIdError>>>,
    /// Results to hand out for `delete_cat_by_id`, in order.
    pub delete_results: Vec<Result<(), Error<DeleteCatByIdError>>>,
    /// Results to hand out for `get_cats`, in order.
    pub list_results: Vec<Result<Vec<CatDto>, Error<GetCatsError>>>,
    /// Every entity passed to `create_cat`.
    pub create_args: Vec<CatDto>,
    /// Every identity passed to `get_cat_by_id`.
    pub get_args: Vec<String>,
    /// Every identity and entity passed to `update_cat_by_id`.
    pub update_args: Vec<(String, CatDto)>,
    /// Every identity passed to `delete_cat_by_id`.
    pub delete_args: Vec<String>,
    /// How many times `get_cats` was called.
    pub list_calls: usize,
    /// The journal of all calls.
    pub journal: Ghost<Seq<RemoteEvent>>,
}

impl MockApiClient {
    /// A mock with an empty script: every unscripted call fails locally.
    pub fn new() -> (m: MockApiClient)
        ensures
            m.events() == Seq::<RemoteEvent>::empty(),
    {
        MockApiClient {
            create_results: Vec::new(),
            get_results: Vec::new(),
            update_results: Vec::new(),
            delete_results: Vec::new(),
            list_results: Vec::new(),
            create_args: Vec::new(),
            get_args: Vec::new(),
            update_args: Vec::new(),
            delete_args: Vec::new(),
            list_calls: 0,
            journal: Ghost(Seq::empty()),
        }
    }

    /// Queue the answer for the next unanswered `create_cat` call.
    pub fn expect_create_cat(&mut self, r: Result<CatDto, Error<CreateCatError>>)
        ensures
            final(self).events() == old(self).events(),
    {
        self.create_results.push(r);
    }

    /// Queue the answer for the next unanswered `get_cat_by_id` call.
    pub fn expect_get_cat_by_id(&mut self, r: Result<CatDto, Error<GetCatByIdError>>)
        ensures
            final(self).events() == old(self).events(),
    {
        self.get_results.push(r);
    }

    /// Queue the answer for the next unanswered `update_cat_by_id` call.
    pub fn expect_update_cat_by_id(&mut self, r: Result<CatDto, Error<UpdateCatByIdError>>)
        ensures
            final(self).events() == old(self).events(),
    {
        self.update_results.push(r);
    }

    /// Queue the answer for the next unanswered `delete_cat_by_id` call.
    pub fn expect_delete_cat_by_id(&mut self, r: Result<(), Error<DeleteCatByIdError>>)
        ensures
            final(self).events() == old(self).events(),
    {
        self.delete_results.push(r);
    }

    /// Queue the answer for the next unanswered `get_cats` call.
    pub fn expect_get_cats(&mut self, r: Result<Vec<CatDto>, Error<GetCatsError>>)
        ensures
            final(self).events() == old(self).events(),
    {
        self.list_results.push(r);
    }
}

impl CatsApi for MockApiClient {
    open spec fn events(&self) -> Seq<RemoteEvent> {
        self.journal@
    }

    fn create_cat(&mut self, cat: CatDto) -> (r: Result<CatDto, Error<CreateCatError>>) {
        let r: Result<CatDto, Error<CreateCatError>> = if self.create_results.len() > 0 {
            self.create_results.remove(0)
        } else {
            Err(Error::Io(String::from_str("unscripted create_cat")))
        };
        proof {
            self.journal@ = self.journal@.push(
                RemoteEvent::Create { cat: cat@, result: dto_result_view(r) },
            );
        }
        self.create_args.push(cat);
        r
    }

    fn get_cat_by_id(&mut self, id: &String) -> (r: Result<CatDto, Error<GetCatByIdError>>) {
        self.get_args.push(id.clone());
        let r: Result<CatDto, Error<GetCatByIdError>> = if self.get_results.len() > 0 {
            self.get_results.remove(0)
        } else {
            Err(Error::Io(String::from_str("unscripted get_cat_by_id")))
        };
        proof {
            self.journal@ = self.journal@.push(
                RemoteEvent::GetById { id: id@, result: dto_result_view(r) },
            );
        }
        r
    }

    fn update_cat_by_id(&mut self, id: &String, cat: CatDto) -> (r: Result<
        CatDto,
        Error<UpdateCatByIdError>,
    >) {
        let r: Result<CatDto, Error<UpdateCatByIdError>> = if self.update_results.len() > 0 {
            self.update_results.remove(0)
        } else {
            Err(Error::Io(String::from_str("unscripted update_cat_by_id")))
        };
        proof {
            self.journal@ = self.journal@.push(
                RemoteEvent::UpdateById { id: id@, cat: cat@, result: dto_result_view(r) },
            );
        }
        self.update_args.push((id.clone(), cat));
        r
    }

    fn delete_cat_by_id(&mut self, id: &String) -> (r: Result<(), Error<DeleteCatByIdError>>) {
        self.delete_args.push(id.clone());
        let r: Result<(), Error<DeleteCatByIdError>> = if self.delete_results.len() > 0 {
            self.delete_results.remove(0)
        } else {
            Err(Error::Io(String::from_str("unscripted delete_cat_by_id")))
        };
        proof {
            self.journal@ = self.journal@.push(
                RemoteEvent::DeleteById { id: id@, result: unit_result_view(r) },
            );
        }
        r
    }

    fn get_cats(&mut self) -> (r: Result<Vec<CatDto>, Error<GetCatsError>>) {
        self.list_calls = self.list_calls.wrapping_add(1);
        let r: Result<Vec<CatDto>, Error<GetCatsError>> = if self.list_results.len() > 0 {
            self.list_results.remove(0)
        } else {
            Err(Error::Io(String::from_str("unscripted get_cats")))
        };
        proof {
            self.journal@ = self.journal@.push(RemoteEvent::List { result: list_result_view(r) });
        }
        r
    }
}

} // verus!
