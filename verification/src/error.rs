//! The errors that a dispatch ends in.

use vstd::prelude::*;

verus! {

/// How a caller may react to a failed request.
#[derive(Clone, Copy, Debug, PartialEq, Eq, Structural)]
pub enum ErrorType {
    /// The worker was never reached; another one may be tried.
    CannotConnect,
    /// The worker went away; the request may be moved to another one.
    Disconnected,
}

/// An error with a message, and with the class it belongs to where it has one.
#[derive(Debug)]
pub struct DynamoError {
    pub error_type: Option<ErrorType>,
    pub message: String,
}

/// The plain value of a [`DynamoError`].
pub struct DynamoErrorView {
    pub error_type: Option<ErrorType>,
    pub message: Seq<char>,
}

impl View for DynamoError {
    type V = DynamoErrorView;

    open spec fn view(&self) -> DynamoErrorView {
        DynamoErrorView { error_type: self.error_type, message: self.message@ }
    }
}

impl DynamoError {
    /// An error of no class.
    pub fn msg(message: String) -> (error: DynamoError)
        ensures
            error@ == (DynamoErrorView { error_type: None, message: message@ }),
            error == (DynamoError { error_type: None, message }),
    {
        DynamoError { error_type: None, message }
    }

    /// An error of the class `error_type`.
    pub fn of_type(error_type: ErrorType, message: String) -> (error: DynamoError)
        ensures
            error@ == (DynamoErrorView { error_type: Some(error_type), message: message@ }),
            error == (DynamoError { error_type: Some(error_type), message }),
    {
        DynamoError { error_type: Some(error_type), message }
    }
}

/// An error of the pipeline itself.
#[derive(Debug)]
pub enum PipelineError {
    Generic(String),
}

/// The plain value of a [`PipelineError`].
pub enum PipelineErrorView {
    Generic(Seq<char>),
}

impl View for PipelineError {
    type V = PipelineErrorView;

    open spec fn view(&self) -> PipelineErrorView {
        match self {
            PipelineError::Generic(text) => PipelineErrorView::Generic(text@),
        }
    }
}

/// Why a dispatch failed. `Outside` carries an error of the transport, the serialiser
/// or the codec as it came.
#[derive(Debug)]
pub enum DispatchError<E> {
    Dynamo(DynamoError),
    Pipeline(PipelineError),
    Outside(E),
}

/// The plain value of a [`DispatchError`].
pub enum DispatchErrorView<E> {
    Dynamo(DynamoErrorView),
    Pipeline(PipelineErrorView),
    Outside(E),
}

impl<E> View for DispatchError<E> {
    type V = DispatchErrorView<E>;

    open spec fn view(&self) -> DispatchErrorView<E> {
        match self {
            DispatchError::Dynamo(error) => DispatchErrorView::Dynamo(error@),
            DispatchError::Pipeline(error) => DispatchErrorView::Pipeline(error@),
            DispatchError::Outside(error) => DispatchErrorView::Outside(*error),
        }
    }
}

} // verus!
