//! Input hardening applied to fuzzed request bodies before they are
//! serialized.
//!
//! The target server crashes or hangs on a few input shapes that are not
//! interesting findings (non-object state-event content, NUL bytes inside
//! event types and state keys, arbitrary login identifiers), so candidate
//! bodies are normalized first.  The rules here pin down exactly what is
//! rewritten and that everything else is passed through unchanged.

use vstd::prelude::*;
use crate::json::JsonValue;
use crate::model::{Identifier, LoginPostReq};
use crate::text::{spec_strip_nul, strip_nul};

verus! {

/// One entry of a room-creation request's `initial_state` list.
#[derive(Debug)]
pub struct StateEventJSON {
    pub content: JsonValue,
    pub _type: String,
    pub state_key: String,
}

/// A fuzzed room-creation request body.
#[derive(Debug)]
pub struct CreateRoomMagicJSON {
    pub creation_content: JsonValue,
    pub initial_state: Vec<StateEventJSON>,
    pub invite: Option<Vec<String>>,
    pub is_direct: Option<bool>,
    pub name: Option<String>,
    pub preset: Option<String>,
    pub topic: Option<String>,
    pub visibility: Option<String>,
}

/// Whether a state event's fuzzed content is replaced by an empty object
/// before serialization: arrays, booleans, null, strings and non-negative
/// integers are; objects are kept.
pub open spec fn content_replaced(c: JsonValue) -> bool {
    match c {
        JsonValue::Null => true,
        JsonValue::Bool(_) => true,
        JsonValue::Str(_) => true,
        JsonValue::Arr(_) => true,
        JsonValue::Int(v) => v >= 0,
        JsonValue::Obj(_) => false,
    }
}

/// How a normalized state event relates to the fuzzed original: content
/// hardened to an object, NUL stripped from the event type and state key.
pub open spec fn spec_event_normalized(orig: StateEventJSON, out: StateEventJSON) -> bool {
    &&& if content_replaced(orig.content) {
        out.content matches JsonValue::Obj(ps) && ps@.len() == 0
    } else {
        out.content == orig.content
    }
    &&& out._type@ == spec_strip_nul(orig._type@)
    &&& out.state_key@ == spec_strip_nul(orig.state_key@)
}

fn content_should_replace(c: &JsonValue) -> (r: bool)
    ensures
        r == content_replaced(*c),
{
    match c {
        JsonValue::Null => true,
        JsonValue::Bool(_) => true,
        JsonValue::Str(_) => true,
        JsonValue::Arr(_) => true,
        JsonValue::Int(v) => *v >= 0,
        JsonValue::Obj(_) => false,
    }
}

/// Harden one fuzzed state event.
pub fn normalize_state_event(e: StateEventJSON) -> (r: StateEventJSON)
    ensures
        spec_event_normalized(e, r),
{
    let replace = content_should_replace(&e.content);
    let content = if replace {
        JsonValue::Obj(Vec::new())
    } else {
        e.content
    };
    let _type = strip_nul(e._type.as_str());
    let state_key = strip_nul(e.state_key.as_str());
    StateEventJSON { content, _type, state_key }
}

/// Harden a fuzzed room-creation body: every `initial_state` entry is
/// normalized, every other field passes through unchanged.
pub fn normalize_create_room(data: CreateRoomMagicJSON) -> (r: CreateRoomMagicJSON)
    ensures
        r.creation_content == data.creation_content,
        r.invite == data.invite,
        r.is_direct == data.is_direct,
        r.name == data.name,
        r.preset == data.preset,
        r.topic == data.topic,
        r.visibility == data.visibility,
        r.initial_state@.len() == data.initial_state@.len(),
        forall|i: int|
            0 <= i < data.initial_state@.len() ==> spec_event_normalized(
                data.initial_state@[i],
                #[trigger] r.initial_state@[i],
            ),
{
    let mut rest = data.initial_state;
    let ghost orig = rest@;
    let n: usize = rest.len();
    let mut out: Vec<StateEventJSON> = Vec::new();
    let mut i: usize = 0;
    while i < n
        invariant
            orig.len() == n,
            0 <= i <= n,
            rest@ == orig.skip(i as int),
            out@.len() == i,
            forall|k: int|
                0 <= k < i ==> spec_event_normalized(orig[k], #[trigger] out@[k]),
        decreases n - i,
    {
        assert(orig.skip(i as int)[0] == orig[i as int]);
        assert(orig.skip(i as int).drop_first() =~= orig.skip(i as int + 1));
        let e = rest.remove(0);
        out.push(normalize_state_event(e));
        i = i + 1;
    }
    CreateRoomMagicJSON {
        creation_content: data.creation_content,
        initial_state: out,
        invite: data.invite,
        is_direct: data.is_direct,
        name: data.name,
        preset: data.preset,
        topic: data.topic,
        visibility: data.visibility,
    }
}

/// How an optional fuzzed string relates to its NUL-stripped form.
pub open spec fn spec_opt_nul_stripped(orig: Option<String>, out: Option<String>) -> bool {
    match orig {
        Option::None => out is None,
        Option::Some(s) => out matches Some(t) && t@ == spec_strip_nul(s@),
    }
}

fn strip_nul_opt(o: Option<String>) -> (r: Option<String>)
    ensures
        spec_opt_nul_stripped(o, r),
{
    match o {
        Option::None => None,
        Option::Some(s) => Some(strip_nul(s.as_str())),
    }
}

/// Harden a fuzzed login request: the login type is pinned to password
/// login, a fuzzed user is replaced by the session's username, a fuzzed
/// identifier is rewritten to identify that user, and NUL is stripped
/// from the free-text fields the server mishandles.  Every other field
/// passes through unchanged.
pub fn normalize_login_request(data: LoginPostReq, username: &String) -> (r: LoginPostReq)
    ensures
        r._type@ == "m.login.password"@,
        data.user is None ==> r.user is None,
        data.user is Some ==> (r.user matches Some(u) && u@ == spec_strip_nul(username@)),
        data.identifier is None ==> r.identifier is None,
        data.identifier matches Some(orig_id) ==> (r.identifier matches Some(id) && ({
            &&& id._type@ == "m.id.user"@
            &&& id.user matches Some(u) && u@ == username@
            &&& id.medium == orig_id.medium
            &&& id.address == orig_id.address
            &&& id.country == orig_id.country
            &&& id.phone == orig_id.phone
        })),
        spec_opt_nul_stripped(data.medium, r.medium),
        spec_opt_nul_stripped(data.address, r.address),
        r.device_id == data.device_id,
        r.initial_device_display_name == data.initial_device_display_name,
        r.password == data.password,
        r.refresh_token == data.refresh_token,
        r.token == data.token,
{
    let user: Option<String> = match &data.user {
        Option::None => None,
        Option::Some(_) => Some(strip_nul(username.as_str())),
    };
    let identifier: Option<Identifier> = match data.identifier {
        Option::None => None,
        Option::Some(orig_id) => Some(
            Identifier {
                _type: String::from_str("m.id.user"),
                user: Some(username.clone()),
                medium: orig_id.medium,
                address: orig_id.address,
                country: orig_id.country,
                phone: orig_id.phone,
            },
        ),
    };
    LoginPostReq {
        address: strip_nul_opt(data.address),
        device_id: data.device_id,
        identifier,
        initial_device_display_name: data.initial_device_display_name,
        medium: strip_nul_opt(data.medium),
        password: data.password,
        refresh_token: data.refresh_token,
        token: data.token,
        _type: String::from_str("m.login.password"),
        user,
    }
}

} // verus!
