//! The compiler's output artifact: one `Probe` per operation, holding the
//! synthesized input shape, the request-construction plan, and the
//! allowed-outcome set, together with the ghost views the contracts are
//! stated over.

use vstd::prelude::*;

verus! {

/// The HTTP methods the compiler supports.
#[derive(Debug, Clone, Copy, PartialEq, Eq, Structural)]
pub enum Method {
    Get,
    Post,
    Put,
}

/// The semantic role assigned to one `{...}` path-template token.
#[derive(Debug, Clone, Copy, PartialEq, Eq, Structural)]
pub enum TokenRole {
    /// Substituted with a freshly provisioned room's identifier.
    RoomScoped,
    /// Substituted with the authenticated user's own identifier.
    UserScoped,
    /// Substituted with a sanitized fuzzer-chosen string.
    Unclassified,
}

/// One classified `{...}` token of a path template.
#[derive(Debug)]
pub struct PathToken {
    pub text: String,
    pub role: TokenRole,
}

/// One piece of a parsed path template: literal text, or a token to be
/// substituted.
#[derive(Debug)]
pub enum PathPiece {
    Literal(String),
    Token(PathToken),
}

/// Ghost view of a `PathPiece`.
pub enum PieceView {
    Literal(Seq<char>),
    Token(Seq<char>, TokenRole),
}

impl View for PathPiece {
    type V = PieceView;

    open spec fn view(&self) -> PieceView {
        match self {
            PathPiece::Literal(s) => PieceView::Literal(s@),
            PathPiece::Token(t) => PieceView::Token(t.text@, t.role),
        }
    }
}

impl DeepView for PathPiece {
    type V = PieceView;

    open spec fn deep_view(&self) -> PieceView {
        self.view()
    }
}

/// The shape of the body-derived part of a probe's input.
#[derive(Debug)]
pub enum BodyShape {
    /// The operation declares no request body.
    NoBody,
    /// The body is a single opaque JSON value.
    Opaque,
    /// The body is a flat list of named opaque-JSON fields.
    Fields(Vec<String>),
}

/// Ghost view of a `BodyShape`.
pub enum ShapeView {
    NoBody,
    Opaque,
    Fields(Seq<Seq<char>>),
}

impl View for BodyShape {
    type V = ShapeView;

    open spec fn view(&self) -> ShapeView {
        match self {
            BodyShape::NoBody => ShapeView::NoBody,
            BodyShape::Opaque => ShapeView::Opaque,
            BodyShape::Fields(names) => ShapeView::Fields(names.deep_view()),
        }
    }
}

/// The compiler's output artifact for one operation.
#[derive(Debug)]
pub struct Probe {
    /// Deterministic name, derived from the operation identifier by case
    /// normalization.
    pub name: String,
    /// The path-level description carried over for diagnostics.
    pub description: Option<String>,
    pub method: Method,
    /// The trimmed path template the pieces were parsed from.
    pub template: String,
    /// The parsed template: literals and classified tokens, in order.
    pub pieces: Vec<PathPiece>,
    pub body_shape: BodyShape,
    /// Whether the request carries `Authorization: Bearer <token>`.
    pub requires_auth: bool,
    /// Status codes that classify a response as an expected outcome.
    pub allowed_codes: Vec<u16>,
}

/// Ghost view of a `Probe`.
pub struct ProbeView {
    pub name: Seq<char>,
    pub description: Option<Seq<char>>,
    pub method: Method,
    pub template: Seq<char>,
    pub pieces: Seq<PieceView>,
    pub body_shape: ShapeView,
    pub requires_auth: bool,
    pub allowed_codes: Seq<u16>,
}

impl View for Probe {
    type V = ProbeView;

    open spec fn view(&self) -> ProbeView {
        ProbeView {
            name: self.name@,
            description: self.description.deep_view(),
            method: self.method,
            template: self.template@,
            pieces: self.pieces.deep_view(),
            body_shape: self.body_shape@,
            requires_auth: self.requires_auth,
            allowed_codes: self.allowed_codes@,
        }
    }
}

impl DeepView for Probe {
    type V = ProbeView;

    open spec fn deep_view(&self) -> ProbeView {
        self.view()
    }
}

/// The fatal errors of a compilation pass; each carries the offending
/// path template.
#[derive(Debug)]
pub enum CompileError {
    /// The selected operation lacks the identifier its probe would be
    /// named after.
    MissingOperationId { path: String },
    /// A response-map key does not parse as an unsigned 16-bit status
    /// code.
    NonNumericStatus { path: String, key: String },
    /// A `$ref` does not resolve to a definition present in the document.
    DanglingRef { path: String, reference: String },
}

/// Ghost view of a `CompileError`.
pub enum ErrorView {
    MissingOperationId { path: Seq<char> },
    NonNumericStatus { path: Seq<char>, key: Seq<char> },
    DanglingRef { path: Seq<char>, reference: Seq<char> },
}

impl View for CompileError {
    type V = ErrorView;

    open spec fn view(&self) -> ErrorView {
        match self {
            CompileError::MissingOperationId { path } => ErrorView::MissingOperationId {
                path: path@,
            },
            CompileError::NonNumericStatus { path, key } => ErrorView::NonNumericStatus {
                path: path@,
                key: key@,
            },
            CompileError::DanglingRef { path, reference } => ErrorView::DanglingRef {
                path: path@,
                reference: reference@,
            },
        }
    }
}

} // verus!
