//! The configuration snapshot and its JSON form.
//!
//! A document is a JSON object with camelCase keys, each of them optional:
//!
//! ```text
//! {
//!   "maxRequestSize":  <bytes, or null for no limit>,
//!   "maxResponseSize": <bytes, or null for no limit>,
//!   "statusCodes": { "request": <status>, "response": <status> }
//! }
//! ```
//!
//! A size that is left out is [`Configuration::DEFAULT_MAX_SIZE`]; a status
//! that is left out is 413 for requests and 502 for responses. Keys other
//! than these are ignored.
//!
//! A size is an integer from 0 to 2^64 - 1, a status one from 0 to 2^32 - 1.
//! A negative number, a number with a fraction or an exponent, a string, and
//! every other value in the place of one of them make the whole document
//! invalid, and so does `null` in the place of a status or of `statusCodes`.
//!
//! Reading goes in three steps. The JSON reader turns bytes into a document
//! or gives the place of the first fault. The members that matter are then
//! taken out of the document into [`Members`]. Last, [`decode`] says which
//! snapshot the members stand for. The first step is taken on trust, see
//! [`crate::json`]; the other two are proved.

use crate::decimal::{decimal, render_decimal};
use crate::json::{
    json_as_u64, json_error_column, json_error_line, json_is_null, json_is_object, json_member,
    json_parse, member, parse,
};
use vstd::prelude::*;

verus! {

/// The status codes of the responses that replace a rejected exchange.
#[derive(Clone, Copy, Debug, PartialEq, Eq, Structural)]
pub struct StatusCodes {
    /// Sent when a request is too large.
    pub request: u32,
    /// Sent when a response is too large.
    pub response: u32,
}

impl StatusCodes {
    /// 413 Payload Too Large for requests, 502 Bad Gateway for responses.
    pub open spec fn spec_default() -> StatusCodes {
        StatusCodes { request: 413, response: 502 }
    }

    /// The default status codes.
    #[inline]
    pub fn default() -> (codes: Self)
        ensures
            codes == Self::spec_default(),
    {
        Self { request: Self::default_request(), response: Self::default_response() }
    }

    /// The status for a request that is too large, unless the document
    /// gives another.
    pub fn default_request() -> (code: u32)
        ensures
            code == 413,
    {
        413
    }

    /// The status for a response that is too large, unless the document
    /// gives another.
    pub fn default_response() -> (code: u32)
        ensures
            code == 502,
    {
        502
    }
}

impl Default for StatusCodes {
    fn default() -> (codes: Self)
        ensures
            codes == StatusCodes::spec_default(),
    {
        StatusCodes::default()
    }
}

/// A configuration snapshot: the limit of each direction, `None` standing for
/// no limit, and the status codes used on rejection. A snapshot is a plain
/// value; whoever needs one later takes a copy.
#[derive(Clone, Copy, Debug, PartialEq, Eq)]
pub struct Configuration {
    pub max_request_size: Option<u64>,
    pub max_response_size: Option<u64>,
    pub status_codes: StatusCodes,
}

impl Configuration {
    /// The limit of a direction whose size the document leaves out: 500 KiB.
    pub const DEFAULT_MAX_SIZE: u64 = 500 * 1024;

    /// Both directions limited to [`Self::DEFAULT_MAX_SIZE`], and the default
    /// status codes.
    pub open spec fn spec_default() -> Configuration {
        Configuration {
            max_request_size: Some(Self::DEFAULT_MAX_SIZE),
            max_response_size: Some(Self::DEFAULT_MAX_SIZE),
            status_codes: StatusCodes::spec_default(),
        }
    }

    /// The snapshot of a filter that has been given no document.
    #[inline]
    pub fn default() -> (configuration: Self)
        ensures
            configuration == Self::spec_default(),
    {
        Self {
            max_request_size: Some(Self::default_max_size()),
            max_response_size: Some(Self::default_max_size()),
            status_codes: StatusCodes::default(),
        }
    }

    /// [`Self::DEFAULT_MAX_SIZE`]
    #[inline]
    pub fn default_max_size() -> (size: u64)
        ensures
            size == Self::DEFAULT_MAX_SIZE,
            size == 512000,
    {
        Self::DEFAULT_MAX_SIZE
    }
}

impl Default for Configuration {
    fn default() -> (configuration: Self)
        ensures
            configuration == Configuration::spec_default(),
    {
        Configuration::default()
    }
}

/// A key of the configuration document.
#[derive(Clone, Copy, Debug, PartialEq, Eq, Structural)]
pub enum Key {
    /// `maxRequestSize`
    MaxRequestSize,
    /// `maxResponseSize`
    MaxResponseSize,
    /// `statusCodes`
    StatusCodes,
    /// `request` inside `statusCodes`
    RequestStatus,
    /// `response` inside `statusCodes`
    ResponseStatus,
}

/// Why a document was not accepted.
#[derive(Clone, Copy, Debug, PartialEq, Eq, Structural)]
pub enum ConfigError {
    /// The bytes are not a JSON text. `line` and `column` say where reading
    /// stopped, as the JSON reader counts them.
    Syntax { line: usize, column: usize },
    /// The text is JSON, but not an object.
    NotAnObject,
    /// The value under this key is of the wrong kind or out of range.
    InvalidValue(Key),
}

/// What a document holds under one key, as far as the configuration cares.
#[derive(Clone, Copy, Debug, PartialEq, Eq, Structural)]
pub enum Member {
    /// The key is not there.
    Absent,
    /// `null`
    Null,
    /// An integer from 0 to `u64::MAX`.
    Unsigned(u64),
    /// Anything else.
    Other,
}

/// What a document holds under `statusCodes`.
#[derive(Clone, Copy, Debug, PartialEq, Eq, Structural)]
pub enum StatusMembers {
    /// The key is not there.
    Absent,
    /// An object, with what it holds under `request` and `response`.
    Object { request: Member, response: Member },
    /// Anything else.
    Other,
}

/// The members of a document that the configuration is made from.
#[derive(Clone, Copy, Debug, PartialEq, Eq, Structural)]
pub struct Members {
    pub max_request_size: Member,
    pub max_response_size: Member,
    pub status_codes: StatusMembers,
}

/// The limit that a size member stands for: the default where it is absent,
/// no limit for `null`, the number where it is one.
pub open spec fn limit_of(member: Member, key: Key) -> Result<Option<u64>, ConfigError> {
    match member {
        Member::Absent => Ok(Some(Configuration::DEFAULT_MAX_SIZE)),
        Member::Null => Ok(None),
        Member::Unsigned(n) => Ok(Some(n)),
        Member::Other => Err(ConfigError::InvalidValue(key)),
    }
}

/// The status that a member stands for: `default` where it is absent, the
/// number where it is one that fits in 32 bits.
pub open spec fn status_of(member: Member, default: u32, key: Key) -> Result<u32, ConfigError> {
    match member {
        Member::Absent => Ok(default),
        Member::Unsigned(n) if n <= u32::MAX => Ok(n as u32),
        _ => Err(ConfigError::InvalidValue(key)),
    }
}

/// The status codes that the `statusCodes` member stands for. Of two invalid
/// statuses the one of `request` is reported.
pub open spec fn status_codes_of(members: StatusMembers) -> Result<StatusCodes, ConfigError> {
    match members {
        StatusMembers::Absent => Ok(StatusCodes::spec_default()),
        StatusMembers::Other => Err(ConfigError::InvalidValue(Key::StatusCodes)),
        StatusMembers::Object { request, response } => match (
            status_of(request, 413, Key::RequestStatus),
            status_of(response, 502, Key::ResponseStatus),
        ) {
            (Err(e), _) => Err(e),
            (Ok(_), Err(e)) => Err(e),
            (Ok(request), Ok(response)) => Ok(StatusCodes { request, response }),
        },
    }
}

/// The snapshot that a document's members stand for. Where several members
/// are invalid, the error names the first of them in the order request size,
/// response size, status codes.
pub open spec fn decode(members: Members) -> Result<Configuration, ConfigError> {
    match (
        limit_of(members.max_request_size, Key::MaxRequestSize),
        limit_of(members.max_response_size, Key::MaxResponseSize),
        status_codes_of(members.status_codes),
    ) {
        (Err(e), _, _) => Err(e),
        (Ok(_), Err(e), _) => Err(e),
        (Ok(_), Ok(_), Err(e)) => Err(e),
        (Ok(max_request_size), Ok(max_response_size), Ok(status_codes)) => Ok(
            Configuration { max_request_size, max_response_size, status_codes },
        ),
    }
}

/// What `value` holds under `key`.
pub open spec fn member_at(value: serde_json::Value, key: Seq<char>) -> Member {
    match json_member(value, key) {
        None => Member::Absent,
        Some(m) => if json_is_null(m) {
            Member::Null
        } else {
            match json_as_u64(m) {
                Some(n) => Member::Unsigned(n),
                None => Member::Other,
            }
        },
    }
}

/// What `value` holds under `key`, read as a pair of status codes.
pub open spec fn status_members_at(value: serde_json::Value, key: Seq<char>) -> StatusMembers {
    match json_member(value, key) {
        None => StatusMembers::Absent,
        Some(m) => if json_is_object(m) {
            StatusMembers::Object {
                request: member_at(m, "request"@),
                response: member_at(m, "response"@),
            }
        } else {
            StatusMembers::Other
        },
    }
}

/// The members of the document `document`.
pub open spec fn members_of(document: serde_json::Value) -> Members {
    Members {
        max_request_size: member_at(document, "maxRequestSize"@),
        max_response_size: member_at(document, "maxResponseSize"@),
        status_codes: status_members_at(document, "statusCodes"@),
    }
}

fn read_member(value: &serde_json::Value, key: &str) -> (m: Member)
    ensures
        m == member_at(*value, key@),
{
    match member(value, key) {
        None => Member::Absent,
        Some(found) => {
            if found.is_null() {
                Member::Null
            } else {
                match found.as_u64() {
                    Some(n) => Member::Unsigned(n),
                    None => Member::Other,
                }
            }
        },
    }
}

fn read_status_members(value: &serde_json::Value, key: &str) -> (m: StatusMembers)
    ensures
        m == status_members_at(*value, key@),
{
    match member(value, key) {
        None => StatusMembers::Absent,
        Some(found) => {
            if found.is_object() {
                StatusMembers::Object {
                    request: read_member(found, "request"),
                    response: read_member(found, "response"),
                }
            } else {
                StatusMembers::Other
            }
        },
    }
}

fn limit_from(member: Member, key: Key) -> (r: Result<Option<u64>, ConfigError>)
    ensures
        r == limit_of(member, key),
{
    match member {
        Member::Absent => Ok(Some(Configuration::default_max_size())),
        Member::Null => Ok(None),
        Member::Unsigned(n) => Ok(Some(n)),
        Member::Other => Err(ConfigError::InvalidValue(key)),
    }
}

fn status_from(member: Member, default: u32, key: Key) -> (r: Result<u32, ConfigError>)
    ensures
        r == status_of(member, default, key),
{
    match member {
        Member::Absent => Ok(default),
        Member::Unsigned(n) => {
            if n <= u32::MAX as u64 {
                Ok(n as u32)
            } else {
                Err(ConfigError::InvalidValue(key))
            }
        },
        _ => Err(ConfigError::InvalidValue(key)),
    }
}

impl StatusCodes {
    /// The status codes that the `statusCodes` member of a document stands
    /// for.
    pub fn from_members(members: StatusMembers) -> (r: Result<StatusCodes, ConfigError>)
        ensures
            r == status_codes_of(members),
    {
        match members {
            StatusMembers::Absent => Ok(StatusCodes::default()),
            StatusMembers::Other => Err(ConfigError::InvalidValue(Key::StatusCodes)),
            StatusMembers::Object { request, response } => {
                let request = match status_from(
                    request,
                    StatusCodes::default_request(),
                    Key::RequestStatus,
                ) {
                    Ok(code) => code,
                    Err(e) => {
                        return Err(e);
                    },
                };
                let response = match status_from(
                    response,
                    StatusCodes::default_response(),
                    Key::ResponseStatus,
                ) {
                    Ok(code) => code,
                    Err(e) => {
                        return Err(e);
                    },
                };
                Ok(StatusCodes { request, response })
            },
        }
    }
}

impl Configuration {
    /// The snapshot that `bytes` stand for, or the reason for which they
    /// stand for none.
    pub open spec fn parsed(bytes: Seq<u8>) -> Result<Configuration, ConfigError> {
        match json_parse(bytes) {
            Err(e) => Err(
                ConfigError::Syntax { line: json_error_line(e), column: json_error_column(e) },
            ),
            Ok(document) => if json_is_object(document) {
                decode(members_of(document))
            } else {
                Err(ConfigError::NotAnObject)
            },
        }
    }

    /// Makes a snapshot from the members of a document: defaults are filled
    /// in, and a member of the wrong kind or out of range is refused.
    pub fn from_members(members: &Members) -> (r: Result<Configuration, ConfigError>)
        ensures
            r == decode(*members),
    {
        let max_request_size = match limit_from(members.max_request_size, Key::MaxRequestSize) {
            Ok(limit) => limit,
            Err(e) => {
                return Err(e);
            },
        };
        let max_response_size = match limit_from(
            members.max_response_size,
            Key::MaxResponseSize,
        ) {
            Ok(limit) => limit,
            Err(e) => {
                return Err(e);
            },
        };
        let status_codes = match StatusCodes::from_members(members.status_codes) {
            Ok(codes) => codes,
            Err(e) => {
                return Err(e);
            },
        };
        Ok(Configuration { max_request_size, max_response_size, status_codes })
    }

    /// Reads a snapshot from the bytes of a JSON document.
    ///
    /// The JSON reader decides whether `buf` is a JSON text and what its
    /// members are; which snapshot the members stand for is decided here.
    pub fn try_from(buf: &[u8]) -> (r: Result<Configuration, ConfigError>)
        ensures
            r == Configuration::parsed(buf@),
    {
        match parse(buf) {
            Err(e) => Err(ConfigError::Syntax { line: e.line(), column: e.column() }),
            Ok(document) => {
                if !document.is_object() {
                    return Err(ConfigError::NotAnObject);
                }
                let members = Members {
                    max_request_size: read_member(&document, "maxRequestSize"),
                    max_response_size: read_member(&document, "maxResponseSize"),
                    status_codes: read_status_members(&document, "statusCodes"),
                };
                Configuration::from_members(&members)
            },
        }
    }
}

/// The text of a limit: its digits, or `null` where there is none.
pub open spec fn limit_text(limit: Option<u64>) -> Seq<char> {
    match limit {
        Some(n) => decimal(n as nat),
        None => "null"@,
    }
}

fn render_limit(limit: Option<u64>) -> (text: String)
    ensures
        text@ == limit_text(limit),
{
    match limit {
        Some(n) => render_decimal(n),
        None => String::from_str("null"),
    }
}

impl Configuration {
    /// The members of the document that this snapshot is written as: every
    /// key is there, and a direction without a limit has `null`.
    pub open spec fn members(self) -> Members {
        Members {
            max_request_size: match self.max_request_size {
                Some(n) => Member::Unsigned(n),
                None => Member::Null,
            },
            max_response_size: match self.max_response_size {
                Some(n) => Member::Unsigned(n),
                None => Member::Null,
            },
            status_codes: StatusMembers::Object {
                request: Member::Unsigned(self.status_codes.request as u64),
                response: Member::Unsigned(self.status_codes.response as u64),
            },
        }
    }

    /// The JSON text of this snapshot: one object on one line, every key
    /// written out.
    pub open spec fn json_text(self) -> Seq<char> {
        "{\"maxRequestSize\":"@ + limit_text(self.max_request_size) + ",\"maxResponseSize\":"@
            + limit_text(self.max_response_size) + ",\"statusCodes\":{\"request\":"@ + decimal(
            self.status_codes.request as nat,
        ) + ",\"response\":"@ + decimal(self.status_codes.response as nat) + "}}"@
    }

    /// The members of the document that this snapshot is written as.
    pub fn to_members(&self) -> (members: Members)
        ensures
            members == self.members(),
    {
        Members {
            max_request_size: match self.max_request_size {
                Some(n) => Member::Unsigned(n),
                None => Member::Null,
            },
            max_response_size: match self.max_response_size {
                Some(n) => Member::Unsigned(n),
                None => Member::Null,
            },
            status_codes: StatusMembers::Object {
                request: Member::Unsigned(self.status_codes.request as u64),
                response: Member::Unsigned(self.status_codes.response as u64),
            },
        }
    }

    /// Writes this snapshot as a JSON document.
    pub fn to_json(&self) -> (text: String)
        ensures
            text@ == self.json_text(),
    {
        let mut text = String::from_str("{\"maxRequestSize\":");
        let request_limit = render_limit(self.max_request_size);
        text.append(request_limit.as_str());
        text.append(",\"maxResponseSize\":");
        let response_limit = render_limit(self.max_response_size);
        text.append(response_limit.as_str());
        text.append(",\"statusCodes\":{\"request\":");
        let request_status = render_decimal(self.status_codes.request as u64);
        text.append(request_status.as_str());
        text.append(",\"response\":");
        let response_status = render_decimal(self.status_codes.response as u64);
        text.append(response_status.as_str());
        text.append("}}");
        text
    }
}

/// Writing a snapshot as members and reading the members gives the snapshot
/// back, limits, absent limits and status codes alike.
pub proof fn lemma_members_round_trip(configuration: Configuration)
    ensures
        decode(configuration.members()) == Ok::<Configuration, ConfigError>(configuration),
{
}

} // verus!
