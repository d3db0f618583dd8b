//! The normalized in-memory model of an API description document, plus the
//! plain record types exchanged with the homeserver's login endpoint.
//!
//! Every field the compiler reads is held as a plain value; the embedding
//! program converts between its serializer's types and these at the
//! boundary.  References (`$ref`) are kept symbolic and resolved against
//! the document's definition tables during compilation; a dangling
//! reference is a fatal compilation error.

use vstd::prelude::*;

verus! {

/// Document metadata.
#[derive(Debug)]
pub struct Info {
    pub title: String,
    pub version: String,
}

/// Pointer to the document's security-scheme definitions.
#[derive(Debug)]
pub struct SecurityDefinitions {
    pub reference: String,
}

/// A symbolic reference to a schema defined elsewhere in the document.
#[derive(Debug)]
pub struct RefSchema {
    pub reference: String,
}

/// An object schema; only its top-level property list feeds body
/// flattening.
#[derive(Debug)]
pub struct ObjectSchema {
    pub properties: Vec<(String, Schema)>,
    pub schema_type: String,
    pub description: Option<String>,
}

/// An array schema; treated as opaque by the flattener.
#[derive(Debug)]
pub struct ArraySchema {
    pub items: Vec<Schema>,
    pub schema_type: String,
    pub description: Option<String>,
}

/// A string-typed leaf schema.
#[derive(Debug)]
pub struct StringSchema {
    pub schema_type: String,
    pub description: Option<String>,
}

/// An integer-typed leaf schema.
#[derive(Debug)]
pub struct IntegerSchema {
    pub schema_type: String,
    pub description: Option<String>,
}

/// A boolean-typed leaf schema.
#[derive(Debug)]
pub struct BooleanSchema {
    pub schema_type: String,
    pub description: Option<String>,
}

/// The closed variant of schema kinds the compiler distinguishes.  Only
/// `Object` contributes fields to body flattening; the other kinds are
/// treated as opaque JSON.
#[derive(Debug)]
pub enum Schema {
    Ref(RefSchema),
    Array(ArraySchema),
    Object(ObjectSchema),
    Str(StringSchema),
    Int(IntegerSchema),
    Bool(BooleanSchema),
}

/// One named security scheme inside a credential-requirement set.
#[derive(Debug)]
pub struct SecurityScheme {
    pub name: String,
    pub scopes: Vec<String>,
}

/// One alternative credential-requirement set of an operation.
#[derive(Debug)]
pub struct SecurityRequirement {
    pub schemes: Vec<SecurityScheme>,
}

/// A response descriptor; the compiler only reads the map key it is
/// registered under.
#[derive(Debug)]
pub struct OpenapiResponse {
    pub description: String,
    pub schema: Option<Schema>,
}

/// The `application/json` (or other media type) entry of a request body.
#[derive(Debug)]
pub struct MediaObject {
    pub schema: Option<Schema>,
}

/// An inline request-body object: media type to schema.
#[derive(Debug)]
pub struct RequestBody {
    pub content: Vec<(String, MediaObject)>,
}

/// A request body, either inline or a symbolic reference into the
/// document's body definitions.
#[derive(Debug)]
pub enum BodyRef {
    Reference(String),
    Inline(RequestBody),
}

/// One declared operation parameter.  The compiler derives path
/// substitutions from the template text itself, so these are carried for
/// completeness only.
#[derive(Debug)]
pub struct Parameter {
    pub name: String,
    pub in_: String,
    pub description: Option<String>,
    pub required: Option<bool>,
    pub schema: Option<Schema>,
}

/// One HTTP-method entry under one path template.
#[derive(Debug)]
pub struct Request {
    pub summary: String,
    pub description: Option<String>,
    pub operation_id: Option<String>,
    pub responses: Vec<(String, OpenapiResponse)>,
    pub parameters: Option<Vec<Parameter>>,
    pub security: Option<Vec<SecurityRequirement>>,
    pub request_body: Option<BodyRef>,
}

/// The operations declared under one path template.
#[derive(Debug)]
pub struct OpenapiPath {
    pub description: Option<String>,
    pub get: Option<Request>,
    pub post: Option<Request>,
    pub put: Option<Request>,
}

/// The root of a normalized API description document.
#[derive(Debug)]
pub struct OpenApiFile {
    pub swagger: String,
    pub info: Info,
    pub host: String,
    pub base_path: String,
    pub schemes: Vec<String>,
    pub security_definitions: Option<SecurityDefinitions>,
    pub paths: Vec<(String, OpenapiPath)>,
    pub definitions: Vec<(String, Schema)>,
    pub body_definitions: Vec<(String, RequestBody)>,
}

// ---------------------------------------------------------------------------
// Login records exchanged with the homeserver
// ---------------------------------------------------------------------------

/// One advertised login flow.
#[derive(Debug)]
pub struct Flow {
    pub type_: String,
}

/// The body of the login-discovery response.
#[derive(Debug)]
pub struct LoginGet {
    pub flows: Vec<Flow>,
}

/// The body of a successful login response.
#[derive(Debug)]
pub struct LoginPost {
    pub user_id: String,
    pub access_token: String,
    pub home_server: String,
}

/// The user identifier object of a login request.
#[derive(Debug)]
pub struct Identifier {
    pub _type: String,
    pub user: Option<String>,
    pub medium: Option<String>,
    pub address: Option<String>,
    pub country: Option<String>,
    pub phone: Option<String>,
}

/// A login request body.
#[derive(Debug)]
pub struct LoginPostReq {
    pub address: Option<String>,
    pub device_id: Option<String>,
    pub identifier: Option<Identifier>,
    pub initial_device_display_name: Option<String>,
    pub medium: Option<String>,
    pub password: Option<String>,
    pub refresh_token: Option<bool>,
    pub token: Option<String>,
    pub _type: String,
    pub user: Option<String>,
}

/// A third-party invite of a room-creation request.
#[derive(Debug)]
pub struct Invite3pid {
    pub address: String,
    pub id_access_token: String,
    pub id_server: String,
    pub medium: String,
}

} // verus!
