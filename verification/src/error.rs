//! The errors with which a request is refused.

use vstd::prelude::*;

verus! {

/// Why a request was refused.
#[derive(Debug, PartialEq, Eq)]
pub enum AppError {
    /// A database statement failed.
    Database,
    /// Something that should not happen did.
    Internal,
    /// The caller is not who they must be.
    Unauthorized(String),
    /// The request itself is wrong.
    BadRequest(String),
    /// The caller tries too often.
    TooManyRequests(String),
}

/// What an [`AppError`] says.
pub enum AppErrorView {
    Database,
    Internal,
    Unauthorized(Seq<char>),
    BadRequest(Seq<char>),
    TooManyRequests(Seq<char>),
}

impl View for AppError {
    type V = AppErrorView;

    open spec fn view(&self) -> AppErrorView {
        match self {
            AppError::Database => AppErrorView::Database,
            AppError::Internal => AppErrorView::Internal,
            AppError::Unauthorized(m) => AppErrorView::Unauthorized(m@),
            AppError::BadRequest(m) => AppErrorView::BadRequest(m@),
            AppError::TooManyRequests(m) => AppErrorView::TooManyRequests(m@),
        }
    }
}

impl AppError {
    /// The error that says that the request is wrong.
    pub fn bad_request(message: &str) -> (e: AppError)
        ensures
            e@ == AppErrorView::BadRequest(message@),
    {
        AppError::BadRequest(message.to_string())
    }

    /// The error that says that the caller is not who they must be.
    pub fn unauthorized(message: &str) -> (e: AppError)
        ensures
            e@ == AppErrorView::Unauthorized(message@),
    {
        AppError::Unauthorized(message.to_string())
    }

    /// The error that says that the caller tries too often.
    pub fn too_many_requests(message: &str) -> (e: AppError)
        ensures
            e@ == AppErrorView::TooManyRequests(message@),
    {
        AppError::TooManyRequests(message.to_string())
    }
}

/// How a read of the database failed.
#[derive(Debug, PartialEq, Eq)]
pub enum StoreError {
    /// The values could not be bound to the statement.
    Bind(AppError),
    /// The statement failed.
    Query,
    /// A row came back that is not of the expected shape.
    Decode,
}

/// What a [`StoreError`] says.
pub enum StoreErrorView {
    Bind(AppErrorView),
    Query,
    Decode,
}

impl View for StoreError {
    type V = StoreErrorView;

    open spec fn view(&self) -> StoreErrorView {
        match self {
            StoreError::Bind(e) => StoreErrorView::Bind(e@),
            StoreError::Query => StoreErrorView::Query,
            StoreError::Decode => StoreErrorView::Decode,
        }
    }
}

impl StoreErrorView {
    /// The error of a request that reads one row.
    pub open spec fn of_row(self) -> AppErrorView {
        match self {
            StoreErrorView::Bind(e) => e,
            StoreErrorView::Query => AppErrorView::Database,
            StoreErrorView::Decode => AppErrorView::Internal,
        }
    }

    /// The error of a request that reads a list of rows.
    pub open spec fn of_list(self) -> AppErrorView {
        match self {
            StoreErrorView::Bind(e) => e,
            StoreErrorView::Query => AppErrorView::Database,
            StoreErrorView::Decode => AppErrorView::Database,
        }
    }
}

impl StoreError {
    /// The error of a request that reads one row: a row of the wrong shape is an
    /// internal error.
    pub fn of_row(self) -> (e: AppError)
        ensures
            e@ == self@.of_row(),
    {
        match self {
            StoreError::Bind(e) => e,
            StoreError::Query => AppError::Database,
            StoreError::Decode => AppError::Internal,
        }
    }

    /// The error of a request that reads a list of rows: a row of the wrong shape is
    /// an error of the database.
    pub fn of_list(self) -> (e: AppError)
        ensures
            e@ == self@.of_list(),
    {
        match self {
            StoreError::Bind(e) => e,
            StoreError::Query => AppError::Database,
            StoreError::Decode => AppError::Database,
        }
    }
}

} // verus!
