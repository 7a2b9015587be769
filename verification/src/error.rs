//! The error taxonomy: decode failures, coercion failures, header failures,
//! provider-reported failures, and authentication failures.

use vstd::prelude::*;

verus! {

/// The discriminant of a response envelope: which payload shape it carries.
#[derive(Clone, Copy, Debug, PartialEq, Eq, Structural)]
pub enum Kind {
    /// A comment, wire tag `t1`.
    Comment,
    /// A user account, wire tag `t2`.
    Account,
    /// A submitted link, wire tag `t3`.
    Link,
    /// A private message, wire tag `t4`.
    Message,
    /// A subreddit, wire tag `t5`.
    Subreddit,
    /// An award, wire tag `t6`.
    Award,
    /// A pagination container, wire tag `Listing`.
    Listing,
    /// A collapsed tail of comments, wire tag `more`.
    More,
}

/// A failure while decoding a response envelope.
#[derive(Debug)]
pub enum DecodeError {
    /// The envelope has no `kind` field, or it is not a string.
    MissingDiscriminant,
    /// The envelope has no `data` field.
    MissingPayload,
    /// The envelope's `kind` is none of the recognized tags; carries the
    /// unrecognized tag.
    UnknownKind(String),
    /// The `data` fields do not match the shape the `kind` calls for;
    /// carries the kind and the offending field.
    SchemaMismatch {
        /// The envelope's recognized kind.
        kind: Kind,
        /// The field of `data` that is missing or ill-typed.
        field: String,
    },
}

/// The mathematical mirror of [`DecodeError`].
#[verifier::ext_equal]
pub enum DecodeErrorV {
    /// Mirror of [`DecodeError::MissingDiscriminant`].
    MissingDiscriminant,
    /// Mirror of [`DecodeError::MissingPayload`].
    MissingPayload,
    /// Mirror of [`DecodeError::UnknownKind`].
    UnknownKind(Seq<char>),
    /// Mirror of [`DecodeError::SchemaMismatch`].
    SchemaMismatch {
        /// The envelope's recognized kind.
        kind: Kind,
        /// The field of `data` that is missing or ill-typed.
        field: Seq<char>,
    },
}

impl View for DecodeError {
    type V = DecodeErrorV;

    open spec fn view(&self) -> DecodeErrorV {
        match *self {
            DecodeError::MissingDiscriminant => DecodeErrorV::MissingDiscriminant,
            DecodeError::MissingPayload => DecodeErrorV::MissingPayload,
            DecodeError::UnknownKind(s) => DecodeErrorV::UnknownKind(s@),
            DecodeError::SchemaMismatch { kind, field } => DecodeErrorV::SchemaMismatch {
                kind,
                field: field@,
            },
        }
    }
}

/// A coercion asked an envelope for one payload kind and found another.
#[derive(Clone, Copy, Debug, PartialEq, Eq, Structural)]
pub struct TypeMismatch {
    /// The kind the caller asked for.
    pub expected: Kind,
    /// The kind the envelope actually holds.
    pub actual: Kind,
}

impl View for TypeMismatch {
    type V = TypeMismatch;

    open spec fn view(&self) -> TypeMismatch {
        *self
    }
}

/// An error object reported by the remote service.
#[derive(Debug)]
pub struct ApiError {
    /// The remote error code.
    pub code: i64,
    /// The remote error message.
    pub message: String,
}

/// The mathematical mirror of [`ApiError`].
#[verifier::ext_equal]
pub struct ApiErrorV {
    /// The remote error code.
    pub code: i64,
    /// The remote error message.
    pub message: Seq<char>,
}

impl View for ApiError {
    type V = ApiErrorV;

    open spec fn view(&self) -> ApiErrorV {
        ApiErrorV { code: self.code, message: self.message@ }
    }
}

/// A failure of the credential exchange.
#[derive(Debug)]
pub enum AuthError {
    /// The token endpoint answered with an `error`/`message` pair.
    Provider(ApiError),
    /// The token endpoint's response was not in the promised shape.
    Malformed,
    /// The lock guarding the token state was poisoned.
    LockPoisoned,
}

/// The mathematical mirror of [`AuthError`].
#[verifier::ext_equal]
pub enum AuthErrorV {
    /// Mirror of [`AuthError::Provider`].
    Provider(ApiErrorV),
    /// Mirror of [`AuthError::Malformed`].
    Malformed,
    /// Mirror of [`AuthError::LockPoisoned`].
    LockPoisoned,
}

impl View for AuthError {
    type V = AuthErrorV;

    open spec fn view(&self) -> AuthErrorV {
        match self {
            AuthError::Provider(e) => AuthErrorV::Provider(e@),
            AuthError::Malformed => AuthErrorV::Malformed,
            AuthError::LockPoisoned => AuthErrorV::LockPoisoned,
        }
    }
}

/// The error type every fallible operation of this library returns.
#[derive(Debug)]
pub enum Error {
    /// The response body is not valid JSON.
    JsonSyntax,
    /// The response envelope could not be decoded.
    Decode(DecodeError),
    /// A coercion or projection met an envelope of the wrong kind.
    Convert(TypeMismatch),
    /// A rate-limit header is missing; carries the header's name.
    MissingHeader(String),
    /// A rate-limit header's value is not numeric; carries the header's name.
    HeaderParse(String),
    /// The remote service reported an error.
    Api(ApiError),
    /// The credential exchange failed.
    Auth(AuthError),
    /// The response is missing data the operation needs; carries a short
    /// description.
    Custom(String),
}

/// The mathematical mirror of [`Error`].
#[verifier::ext_equal]
pub enum ErrorV {
    /// Mirror of [`Error::JsonSyntax`].
    JsonSyntax,
    /// Mirror of [`Error::Decode`].
    Decode(DecodeErrorV),
    /// Mirror of [`Error::Convert`].
    Convert(TypeMismatch),
    /// Mirror of [`Error::MissingHeader`].
    MissingHeader(Seq<char>),
    /// Mirror of [`Error::HeaderParse`].
    HeaderParse(Seq<char>),
    /// Mirror of [`Error::Api`].
    Api(ApiErrorV),
    /// Mirror of [`Error::Auth`].
    Auth(AuthErrorV),
    /// Mirror of [`Error::Custom`].
    Custom(Seq<char>),
}

impl View for Error {
    type V = ErrorV;

    open spec fn view(&self) -> ErrorV {
        match self {
            Error::JsonSyntax => ErrorV::JsonSyntax,
            Error::Decode(e) => ErrorV::Decode(e@),
            Error::Convert(m) => ErrorV::Convert(*m),
            Error::MissingHeader(h) => ErrorV::MissingHeader(h@),
            Error::HeaderParse(h) => ErrorV::HeaderParse(h@),
            Error::Api(e) => ErrorV::Api(e@),
            Error::Auth(e) => ErrorV::Auth(e@),
            Error::Custom(s) => ErrorV::Custom(s@),
        }
    }
}

/// The view of a `Result` whose sides both have views.
pub open spec fn res_view<T: View, E: View>(r: Result<T, E>) -> Result<T::V, E::V> {
    match r {
        Ok(t) => Ok(t@),
        Err(e) => Err(e@),
    }
}

/// The view of an `Option` whose content has a view.
pub open spec fn opt_view<T: View>(o: Option<T>) -> Option<T::V> {
    match o {
        Some(t) => Some(t@),
        None => None,
    }
}

} // verus!
