//! The user-management schema: requests to add, invite or delete a user,
//! and the responses the directory API returns.
//!
//! Both unions are untagged on the wire.  A request emits exactly the
//! field set of its variant.  A response is disambiguated by which fields
//! are present: a body holding an `error` member decodes as the error
//! variant, any other body is tried as the created-user record — that
//! precedence order is part of the decoder's contract.

use vstd::prelude::*;

use crate::json::{
    bool_of, get_bool, get_i64, get_opt_i64, get_opt_str, get_str, get_str_arr, has_key, int_of,
    lookup, members_view, opt_bool_view, opt_int_of, opt_member, opt_str_of, opt_str_ok,
    opt_str_view, push_member, push_opt_bool, push_opt_str, push_str_member, render, render_spec,
    str_arr_of, str_of, strings_to_json, strs_view, view_opt_i64, view_opt_str, DecodeError, Json,
    JsonV,
};
use crate::parse::{parse_json, spec_parse_text};

verus! {

/// A user-management request.  The union is untagged: each variant emits
/// exactly its own field set and nothing else.
#[derive(Debug)]
pub enum UserRequest {
    Add {
        name: String,
        roles: Option<Vec<String>>,
        title: Option<String>,
        mention_name: Option<String>,
        is_group_admin: Option<bool>,
        timezone: Option<String>,
        password: Option<String>,
        email: String,
    },
    Invite { title: Option<String>, email: String, name: String },
    Delete { id_or_email: String },
}

impl UserRequest {
    /// The JSON object this request encodes to: exactly the fields of the
    /// active variant, unset optional fields omitted.
    pub open spec fn wire(self) -> JsonV {
        match self {
            UserRequest::Add {
                name,
                roles,
                title,
                mention_name,
                is_group_admin,
                timezone,
                password,
                email,
            } => JsonV::Obj(
                seq![("name"@, JsonV::Str(name@))] + opt_member(
                    "roles"@,
                    match roles {
                        Some(v) => Some(JsonV::Arr(crate::json::str_seq_view(v@))),
                        None => None,
                    },
                ) + opt_member("title"@, opt_str_view(title)) + opt_member(
                    "mention_name"@,
                    opt_str_view(mention_name),
                ) + opt_member("is_group_admin"@, opt_bool_view(is_group_admin)) + opt_member(
                    "timezone"@,
                    opt_str_view(timezone),
                ) + opt_member("password"@, opt_str_view(password)) + seq![
                    ("email"@, JsonV::Str(email@)),
                ],
            ),
            UserRequest::Invite { title, email, name } => JsonV::Obj(
                opt_member("title"@, opt_str_view(title)) + seq![
                    ("email"@, JsonV::Str(email@)),
                    ("name"@, JsonV::Str(name@)),
                ],
            ),
            UserRequest::Delete { id_or_email } => JsonV::Obj(
                seq![("id_or_email"@, JsonV::Str(id_or_email@))],
            ),
        }
    }

    /// Encodes this request as a JSON value.
    #[verifier::rlimit(60)]
    pub fn to_wire(&self) -> (r: Json)
        ensures
            r@ == self.wire(),
    {
        match self {
            UserRequest::Add {
                name,
                roles,
                title,
                mention_name,
                is_group_admin,
                timezone,
                password,
                email,
            } => {
                let mut m: Vec<(String, Json)> = Vec::new();
                push_str_member(&mut m, "name", name);
                match roles {
                    Some(v) => push_member(&mut m, "roles", strings_to_json(v)),
                    None => (),
                }
                push_opt_str(&mut m, "title", title);
                push_opt_str(&mut m, "mention_name", mention_name);
                push_opt_bool(&mut m, "is_group_admin", is_group_admin);
                push_opt_str(&mut m, "timezone", timezone);
                push_opt_str(&mut m, "password", password);
                push_str_member(&mut m, "email", email);
                let r = Json::Obj(m);
                proof {
                    assert(r@ =~~= self.wire());
                }
                r
            },
            UserRequest::Invite { title, email, name } => {
                let mut m: Vec<(String, Json)> = Vec::new();
                push_opt_str(&mut m, "title", title);
                push_str_member(&mut m, "email", email);
                push_str_member(&mut m, "name", name);
                let ghost mv = members_view(m@);
                let r = Json::Obj(m);
                proof {
                    assert(mv =~= opt_member("title"@, opt_str_view(*title)) + seq![
                        ("email"@, JsonV::Str(email@)),
                        ("name"@, JsonV::Str(name@)),
                    ]);
                    assert(r@ =~~= self.wire());
                }
                r
            },
            UserRequest::Delete { id_or_email } => {
                let mut m: Vec<(String, Json)> = Vec::new();
                push_str_member(&mut m, "id_or_email", id_or_email);
                let r = Json::Obj(m);
                proof {
                    assert(r@ =~~= self.wire());
                }
                r
            },
        }
    }

    /// The compact JSON text of this request.  The text parses back to
    /// exactly the request's wire object.
    pub fn to_json(&self) -> (r: String)
        ensures
            r@ == render_spec(self.wire()),
            crate::parse::spec_parse_text(r@) == Some(self.wire()),
    {
        let j = self.to_wire();
        proof {
            crate::round_trip::lemma_json_text_round_trip(j);
        }
        render(&j)
    }
}

/// Law: each request variant's wire object carries exactly its own
/// identifying fields.  An add request carries `name` and `email` and
/// never `id_or_email`; a delete request is the one-member object holding
/// only `id_or_email`.
pub proof fn lemma_user_request_field_sets(u: UserRequest)
    ensures
        u matches UserRequest::Add { name, email, .. } ==> lookup(u.wire(), "name"@) == Some(
            JsonV::Str(name@),
        ) && lookup(u.wire(), "email"@) == Some(JsonV::Str(email@)) && !has_key(
            u.wire(),
            "id_or_email"@,
        ),
        u matches UserRequest::Delete { id_or_email } ==> u.wire() == JsonV::Obj(
            seq![("id_or_email"@, JsonV::Str(id_or_email@))],
        ) && lookup(u.wire(), "id_or_email"@) == Some(JsonV::Str(id_or_email@)),
{
    reveal_strlit("name");
    reveal_strlit("roles");
    reveal_strlit("title");
    reveal_strlit("mention_name");
    reveal_strlit("is_group_admin");
    reveal_strlit("timezone");
    reveal_strlit("password");
    reveal_strlit("email");
    reveal_strlit("id_or_email");
    match u {
        UserRequest::Add {
            name,
            roles,
            title,
            mention_name,
            is_group_admin,
            timezone,
            password,
            email,
        } => {
            let s1 = seq![("name"@, JsonV::Str(name@))];
            let s2 = opt_member(
                "roles"@,
                match roles {
                    Some(v) => Some(JsonV::Arr(crate::json::str_seq_view(v@))),
                    None => None,
                },
            );
            let s3 = opt_member("title"@, opt_str_view(title));
            let s4 = opt_member("mention_name"@, opt_str_view(mention_name));
            let s5 = opt_member("is_group_admin"@, opt_bool_view(is_group_admin));
            let s6 = opt_member("timezone"@, opt_str_view(timezone));
            let s7 = opt_member("password"@, opt_str_view(password));
            let s8 = seq![("email"@, JsonV::Str(email@))];
            let all = s1 + s2 + s3 + s4 + s5 + s6 + s7 + s8;
            assert(u.wire() == JsonV::Obj(all));
            // the identifying keys differ from every other key
            assert("name"@.len() == 4 && "email"@.len() == 5 && "id_or_email"@.len() == 11);
            assert("roles"@.len() == 5 && "title"@.len() == 5 && "mention_name"@.len() == 12);
            assert("is_group_admin"@.len() == 14 && "timezone"@.len() == 8 && "password"@.len()
                == 8);
            assert("roles"@[0] == 'r' && "title"@[0] == 't' && "email"@[0] == 'e');
            // name: hit on the first member
            assert(crate::json::lookup_members(all, "name"@) == Some(JsonV::Str(name@))) by {
                assert(all[0] == ("name"@, JsonV::Str(name@)));
            }
            // email: every member before it carries another key
            let front = s1 + s2 + s3 + s4 + s5 + s6 + s7;
            assert(all =~= front + s8);
            assert(forall|i: int| 0 <= i < front.len() ==> (#[trigger] front[i]).0 != "email"@);
            crate::json::lemma_lookup_concat_miss(front, s8, "email"@);
            // id_or_email: no member carries it
            assert(forall|i: int|
                0 <= i < all.len() ==> (#[trigger] all[i]).0 != "id_or_email"@);
            crate::json::lemma_lookup_concat_miss(all, Seq::empty(), "id_or_email"@);
            assert(all + Seq::<(Seq<char>, JsonV)>::empty() =~= all);
        },
        UserRequest::Invite { .. } => {},
        UserRequest::Delete { id_or_email } => {},
    }
}

/// The error block of a failed user-management call.
#[derive(Debug)]
pub struct UserError {
    pub code: i64,
    pub message: String,
    pub error_type: String,
}

/// Whether a wire value has the shape of an error block: an integer
/// `code`, a string `message` and a string `type`.
pub open spec fn user_error_shape(v: JsonV) -> bool {
    &&& int_of(v, "code"@) is Some
    &&& str_of(v, "message"@) is Some
    &&& str_of(v, "type"@) is Some
}

/// Whether `e` is exactly what the wire value `v` stands for.
pub open spec fn user_error_matches(e: UserError, v: JsonV) -> bool {
    &&& int_of(v, "code"@) == Some(e.code as int)
    &&& str_of(v, "message"@) == Some(e.message@)
    &&& str_of(v, "type"@) == Some(e.error_type@)
}

impl UserError {
    /// Decodes an error block from a wire value.
    pub fn from_wire(j: &Json) -> (r: Result<UserError, DecodeError>)
        ensures
            r matches Ok(e) ==> user_error_matches(e, j@),
            r is Ok <==> user_error_shape(j@),
            r matches Err(e) ==> e is Shape,
    {
        let code = match get_i64(j, "code") {
            Ok(x) => x,
            Err(e) => {
                return Err(e);
            },
        };
        let message = match get_str(j, "message") {
            Ok(s) => s,
            Err(e) => {
                return Err(e);
            },
        };
        let error_type = match get_str(j, "type") {
            Ok(s) => s,
            Err(e) => {
                return Err(e);
            },
        };
        Ok(UserError { code, message, error_type })
    }
}

/// The presence block of a user record.
#[derive(Debug)]
pub struct UserClient {
    pub version: Option<String>,
    pub client_type: Option<String>,
}

/// Whether a wire value has the shape of a client block: optional string
/// `version` and `type`.
pub open spec fn user_client_shape(v: JsonV) -> bool {
    &&& opt_str_ok(v, "version"@)
    &&& opt_str_ok(v, "type"@)
}

/// Whether `c` is exactly what the wire value `v` stands for.
pub open spec fn user_client_matches(c: UserClient, v: JsonV) -> bool {
    &&& view_opt_str(c.version) == opt_str_of(v, "version"@)
    &&& view_opt_str(c.client_type) == opt_str_of(v, "type"@)
}

impl UserClient {
    /// Decodes a client block from a wire value.
    pub fn from_wire(j: &Json) -> (r: Result<UserClient, DecodeError>)
        ensures
            r matches Ok(c) ==> user_client_matches(c, j@),
            r is Ok <==> user_client_shape(j@),
            r matches Err(e) ==> e is Shape,
    {
        let version = match get_opt_str(j, "version") {
            Ok(o) => o,
            Err(e) => {
                return Err(e);
            },
        };
        let client_type = match get_opt_str(j, "type") {
            Ok(o) => o,
            Err(e) => {
                return Err(e);
            },
        };
        Ok(UserClient { version, client_type })
    }
}

/// A user's presence: status, idle time, client and online flag.
#[derive(Debug)]
pub struct UserPresence {
    pub status: Option<String>,
    pub idle: Option<i64>,
    pub show: Option<String>,
    pub client: Option<UserClient>,
    pub is_online: bool,
}

/// Whether a wire value has the shape of a presence block.
pub open spec fn user_presence_shape(v: JsonV) -> bool {
    &&& opt_str_ok(v, "status"@)
    &&& opt_int_ok_presence(v)
    &&& opt_str_ok(v, "show"@)
    &&& match lookup(v, "client"@) {
        None => true,
        Some(JsonV::Null) => true,
        Some(o) => user_client_shape(o),
    }
    &&& bool_of(v, "is_online"@) is Some
}

/// Whether the presence block's `idle` field is acceptable.
pub open spec fn opt_int_ok_presence(v: JsonV) -> bool {
    crate::json::opt_int_ok(v, "idle"@)
}

/// Whether `p` is exactly what the wire value `v` stands for.
pub open spec fn user_presence_matches(p: UserPresence, v: JsonV) -> bool {
    &&& view_opt_str(p.status) == opt_str_of(v, "status"@)
    &&& view_opt_i64(p.idle) == opt_int_of(v, "idle"@)
    &&& view_opt_str(p.show) == opt_str_of(v, "show"@)
    &&& match p.client {
        None => lookup(v, "client"@) is None || lookup(v, "client"@) == Some(JsonV::Null),
        Some(c) => lookup(v, "client"@) matches Some(o) && user_client_matches(c, o),
    }
    &&& bool_of(v, "is_online"@) == Some(p.is_online)
}

impl UserPresence {
    /// Decodes a presence block from a wire value.
    pub fn from_wire(j: &Json) -> (r: Result<UserPresence, DecodeError>)
        ensures
            r matches Ok(p) ==> user_presence_matches(p, j@),
            r is Ok <==> user_presence_shape(j@),
            r matches Err(e) ==> e is Shape,
    {
        let status = match get_opt_str(j, "status") {
            Ok(o) => o,
            Err(e) => {
                return Err(e);
            },
        };
        let idle = match get_opt_i64(j, "idle") {
            Ok(o) => o,
            Err(e) => {
                return Err(e);
            },
        };
        let show = match get_opt_str(j, "show") {
            Ok(o) => o,
            Err(e) => {
                return Err(e);
            },
        };
        let client = match j.get("client") {
            None => None,
            Some(Json::Null) => None,
            Some(c) => match UserClient::from_wire(c) {
                Ok(cl) => Some(cl),
                Err(e) => {
                    return Err(e);
                },
            },
        };
        let is_online = match get_bool(j, "is_online") {
            Ok(b) => b,
            Err(e) => {
                return Err(e);
            },
        };
        Ok(UserPresence { status, idle, show, client, is_online })
    }
}

/// A user-management response: the created user's record, or the error
/// block of a failed call.
#[derive(Debug)]
pub enum UserResponse {
    Created {
        xmpp_jid: String,
        is_deleted: bool,
        name: String,
        last_active: Option<String>,
        title: String,
        presence: Option<UserPresence>,
        created: String,
        id: i64,
        mention_name: String,
        version: String,
        roles: Vec<String>,
        is_group_admin: bool,
        timezone: String,
        is_guest: bool,
        email: Option<String>,
        photo_url: Option<String>,
    },
    Error { error: UserError },
}

/// Whether a wire value has the shape of a created-user record.
pub open spec fn user_created_shape(v: JsonV) -> bool {
    &&& str_of(v, "xmpp_jid"@) is Some
    &&& bool_of(v, "is_deleted"@) is Some
    &&& str_of(v, "name"@) is Some
    &&& opt_str_ok(v, "last_active"@)
    &&& str_of(v, "title"@) is Some
    &&& match lookup(v, "presence"@) {
        None => true,
        Some(JsonV::Null) => true,
        Some(o) => user_presence_shape(o),
    }
    &&& str_of(v, "created"@) is Some
    &&& int_of(v, "id"@) is Some
    &&& str_of(v, "mention_name"@) is Some
    &&& str_of(v, "version"@) is Some
    &&& str_arr_of(v, "roles"@) is Some
    &&& bool_of(v, "is_group_admin"@) is Some
    &&& str_of(v, "timezone"@) is Some
    &&& bool_of(v, "is_guest"@) is Some
    &&& opt_str_ok(v, "email"@)
    &&& opt_str_ok(v, "photo_url"@)
}

/// Whether a created-user value is exactly what the wire value stands for.
pub open spec fn user_created_matches(u: UserResponse, v: JsonV) -> bool {
    u matches UserResponse::Created {
        xmpp_jid,
        is_deleted,
        name,
        last_active,
        title,
        presence,
        created,
        id,
        mention_name,
        version,
        roles,
        is_group_admin,
        timezone,
        is_guest,
        email,
        photo_url,
    } && {
        &&& str_of(v, "xmpp_jid"@) == Some(xmpp_jid@)
        &&& bool_of(v, "is_deleted"@) == Some(is_deleted)
        &&& str_of(v, "name"@) == Some(name@)
        &&& view_opt_str(last_active) == opt_str_of(v, "last_active"@)
        &&& str_of(v, "title"@) == Some(title@)
        &&& match presence {
            None => lookup(v, "presence"@) is None || lookup(v, "presence"@) == Some(JsonV::Null),
            Some(p) => lookup(v, "presence"@) matches Some(o) && user_presence_matches(p, o),
        }
        &&& str_of(v, "created"@) == Some(created@)
        &&& int_of(v, "id"@) == Some(id as int)
        &&& str_of(v, "mention_name"@) == Some(mention_name@)
        &&& str_of(v, "version"@) == Some(version@)
        &&& str_arr_of(v, "roles"@) == Some(strs_view(roles@))
        &&& bool_of(v, "is_group_admin"@) == Some(is_group_admin)
        &&& str_of(v, "timezone"@) == Some(timezone@)
        &&& bool_of(v, "is_guest"@) == Some(is_guest)
        &&& view_opt_str(email) == opt_str_of(v, "email"@)
        &&& view_opt_str(photo_url) == opt_str_of(v, "photo_url"@)
    }
}

/// Whether a wire value has the shape of some user-management response,
/// under the documented precedence: a body holding an `error` member is
/// the error variant, any other body must be a created-user record.
pub open spec fn user_response_shape(v: JsonV) -> bool {
    if has_key(v, "error"@) {
        lookup(v, "error"@) matches Some(o) && user_error_shape(o)
    } else {
        user_created_shape(v)
    }
}

/// Whether `u` is exactly what the wire value `v` stands for.
pub open spec fn user_response_matches(u: UserResponse, v: JsonV) -> bool {
    if has_key(v, "error"@) {
        u matches UserResponse::Error { error } && lookup(v, "error"@) matches Some(o)
            && user_error_matches(error, o)
    } else {
        user_created_matches(u, v)
    }
}

impl UserResponse {
    /// Decodes a response from a wire value.  A body holding an `error`
    /// member decodes as the error variant; any other body is decoded as
    /// the created-user record.
    pub fn from_wire(j: &Json) -> (r: Result<UserResponse, DecodeError>)
        ensures
            r matches Ok(u) ==> user_response_matches(u, j@),
            r is Ok <==> user_response_shape(j@),
            r matches Err(e) ==> e is Shape,
    {
        match j.get("error") {
            Some(o) => match UserError::from_wire(o) {
                Ok(error) => Ok(UserResponse::Error { error }),
                Err(e) => Err(e),
            },
            None => {
                let xmpp_jid = match get_str(j, "xmpp_jid") {
                    Ok(s) => s,
                    Err(e) => {
                        return Err(e);
                    },
                };
                let is_deleted = match get_bool(j, "is_deleted") {
                    Ok(b) => b,
                    Err(e) => {
                        return Err(e);
                    },
                };
                let name = match get_str(j, "name") {
                    Ok(s) => s,
                    Err(e) => {
                        return Err(e);
                    },
                };
                let last_active = match get_opt_str(j, "last_active") {
                    Ok(o) => o,
                    Err(e) => {
                        return Err(e);
                    },
                };
                let title = match get_str(j, "title") {
                    Ok(s) => s,
                    Err(e) => {
                        return Err(e);
                    },
                };
                let presence = match j.get("presence") {
                    None => None,
                    Some(Json::Null) => None,
                    Some(p) => match UserPresence::from_wire(p) {
                        Ok(pr) => Some(pr),
                        Err(e) => {
                            return Err(e);
                        },
                    },
                };
                let created = match get_str(j, "created") {
                    Ok(s) => s,
                    Err(e) => {
                        return Err(e);
                    },
                };
                let id = match get_i64(j, "id") {
                    Ok(x) => x,
                    Err(e) => {
                        return Err(e);
                    },
                };
                let mention_name = match get_str(j, "mention_name") {
                    Ok(s) => s,
                    Err(e) => {
                        return Err(e);
                    },
                };
                let version = match get_str(j, "version") {
                    Ok(s) => s,
                    Err(e) => {
                        return Err(e);
                    },
                };
                let roles = match get_str_arr(j, "roles") {
                    Ok(v) => v,
                    Err(e) => {
                        return Err(e);
                    },
                };
                let is_group_admin = match get_bool(j, "is_group_admin") {
                    Ok(b) => b,
                    Err(e) => {
                        return Err(e);
                    },
                };
                let timezone = match get_str(j, "timezone") {
                    Ok(s) => s,
                    Err(e) => {
                        return Err(e);
                    },
                };
                let is_guest = match get_bool(j, "is_guest") {
                    Ok(b) => b,
                    Err(e) => {
                        return Err(e);
                    },
                };
                let email = match get_opt_str(j, "email") {
                    Ok(o) => o,
                    Err(e) => {
                        return Err(e);
                    },
                };
                let photo_url = match get_opt_str(j, "photo_url") {
                    Ok(o) => o,
                    Err(e) => {
                        return Err(e);
                    },
                };
                Ok(
                    UserResponse::Created {
                        xmpp_jid,
                        is_deleted,
                        name,
                        last_active,
                        title,
                        presence,
                        created,
                        id,
                        mention_name,
                        version,
                        roles,
                        is_group_admin,
                        timezone,
                        is_guest,
                        email,
                        photo_url,
                    },
                )
            },
        }
    }

    /// Decodes a response from JSON text: the text must be one JSON value
    /// of the model's grammar, of a response's shape.
    pub fn from_json(s: &str) -> (r: Result<UserResponse, DecodeError>)
        ensures
            r matches Ok(u) ==> spec_parse_text(s@) matches Some(v) && user_response_matches(u, v),
            r is Ok <==> (spec_parse_text(s@) matches Some(v) && user_response_shape(v)),
            spec_parse_text(s@) is None ==> (r matches Err(e) && e is Syntax),
            spec_parse_text(s@) is Some && r is Err ==> (r matches Err(e) && e is Shape),
    {
        match parse_json(s) {
            Some(j) => Self::from_wire(&j),
            None => Err(DecodeError::Syntax),
        }
    }
}

} // verus!
