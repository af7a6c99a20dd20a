//! The wire model and the bridge client.
//!
//! The client owns the base host string and translates each bridge operation
//! into a URL (and, for writes, a JSON body), and each bridge response —
//! a status code and a body — into a typed result. Every operation treats a
//! non-2xx status as a uniform failure carrying the numeric status; the one
//! exception is reading an accessory, where 404 means "absent" rather than an
//! error.

use vstd::prelude::*;
use vstd::string::StringExecFns;
use crate::json::{
    Json, JsonVal, canonical, chars_lt, depth_at_most, encode_json, json_of, lookup, obj_lookup,
    parse_json,
};

verus! {

broadcast use vstd::string::group_string_axioms;

/// The runtime state of a switch: the only field whose mutation is
/// meaningful.
#[derive(Clone, Copy, Debug)]
pub struct SwitchState {
    pub on: bool,
}

/// Identity and static metadata of a switch accessory. The two URLs are
/// informational hints for the bridge, not endpoints this client calls.
#[derive(Debug)]
pub struct SwitchConfig {
    pub id: String,
    pub name: String,
    pub on_url: Option<String>,
    pub off_url: Option<String>,
}

/// The bridge's full view of one switch accessory at a point in time.
#[derive(Debug)]
pub struct SwitchDeclaration {
    pub state: SwitchState,
    pub config: SwitchConfig,
}

/// The closed union of accessory kinds. The wire format carries no explicit
/// tag: a payload is decoded by trying each variant's shape in a fixed order,
/// first structural match wins. Today the only kind is Switch.
#[derive(Debug)]
pub enum Accessory {
    Switch(SwitchDeclaration),
}

/// Mathematical shape of `SwitchState`.
pub struct SwitchStateV {
    pub on: bool,
}

/// Mathematical shape of `SwitchConfig`.
pub struct SwitchConfigV {
    pub id: Seq<char>,
    pub name: Seq<char>,
    pub on_url: Option<Seq<char>>,
    pub off_url: Option<Seq<char>>,
}

/// Mathematical shape of `SwitchDeclaration`.
pub struct SwitchDeclarationV {
    pub state: SwitchStateV,
    pub config: SwitchConfigV,
}

/// Mathematical shape of `Accessory`.
pub enum AccessoryV {
    Switch(SwitchDeclarationV),
}

impl View for SwitchState {
    type V = SwitchStateV;

    open spec fn view(&self) -> SwitchStateV {
        SwitchStateV { on: self.on }
    }
}

impl View for SwitchConfig {
    type V = SwitchConfigV;

    open spec fn view(&self) -> SwitchConfigV {
        SwitchConfigV {
            id: self.id@,
            name: self.name@,
            on_url: self.on_url.deep_view(),
            off_url: self.off_url.deep_view(),
        }
    }
}

impl View for SwitchDeclaration {
    type V = SwitchDeclarationV;

    open spec fn view(&self) -> SwitchDeclarationV {
        SwitchDeclarationV { state: self.state@, config: self.config@ }
    }
}

impl View for Accessory {
    type V = AccessoryV;

    open spec fn view(&self) -> AccessoryV {
        match self {
            Accessory::Switch(d) => AccessoryV::Switch(d@),
        }
    }
}

impl Clone for SwitchConfig {
    /// An equal configuration.
    fn clone(&self) -> (r: Self)
        ensures
            r@ == self@,
    {
        SwitchConfig {
            id: self.id.clone(),
            name: self.name.clone(),
            on_url: match &self.on_url {
                Some(u) => Some(u.clone()),
                None => None,
            },
            off_url: match &self.off_url {
                Some(u) => Some(u.clone()),
                None => None,
            },
        }
    }
}

impl Clone for SwitchDeclaration {
    /// An equal declaration.
    fn clone(&self) -> (r: Self)
        ensures
            r@ == self@,
    {
        SwitchDeclaration { state: self.state, config: self.config.clone() }
    }
}

impl Clone for Accessory {
    /// An equal accessory.
    fn clone(&self) -> (r: Self)
        ensures
            r@ == self@,
    {
        match self {
            Accessory::Switch(d) => Accessory::Switch(d.clone()),
        }
    }
}

impl SwitchConfig {
    /// A fresh configuration with no trigger URLs.
    pub fn new(id: &str, name: &str) -> (r: Self)
        ensures
            r@ == (SwitchConfigV { id: id@, name: name@, on_url: None, off_url: None }),
    {
        SwitchConfig {
            id: String::from_str(id),
            name: String::from_str(name),
            on_url: None,
            off_url: None,
        }
    }

    /// The same configuration with the on-trigger URL set.
    pub fn with_on_url(self, on_url: &str) -> (r: Self)
        ensures
            r@ == (SwitchConfigV { on_url: Some(on_url@), ..self@ }),
    {
        SwitchConfig { on_url: Some(String::from_str(on_url)), ..self }
    }

    /// The same configuration with the off-trigger URL set.
    pub fn with_off_url(self, off_url: &str) -> (r: Self)
        ensures
            r@ == (SwitchConfigV { off_url: Some(off_url@), ..self@ }),
    {
        SwitchConfig { off_url: Some(String::from_str(off_url)), ..self }
    }
}

/// How an operation against the bridge fails.
#[derive(Debug)]
pub enum BridgeError {
    /// The bridge answered with a status outside 2xx where success was
    /// expected.
    RequestFailed { status: u16 },
    /// The response body does not have the expected shape.
    DecodeError,
    /// The transport below failed before any status was received; the
    /// transport's own description is carried unchanged.
    Transport { message: String },
}

/// One decimal digit as a character.
pub open spec fn dec_digit_char(d: int) -> char {
    ((48 + d) as u8) as char
}

/// The decimal digits of a number, most significant first.
pub open spec fn dec_digits(n: int) -> Seq<char>
    decreases n,
{
    if n < 10 {
        seq![dec_digit_char(n)]
    } else {
        dec_digits(n / 10).push(dec_digit_char(n % 10))
    }
}

/// Relies on `String::push`: appends one character at the end.
#[verifier::external_body]
fn push_char(s: &mut String, c: char)
    ensures
        final(s)@ == old(s)@.push(c),
{
    s.push(c);
}

/// The decimal rendering of a status code.
pub fn u16_string(n: u16) -> (r: String)
    ensures
        r@ == dec_digits(n as int),
    decreases n,
{
    let d: u8 = (n % 10) as u8;
    let c: char = (48 + d) as char;
    proof {
        assert(c == dec_digit_char(n as int % 10));
    }
    if n < 10 {
        let mut s = String::new();
        push_char(&mut s, c);
        proof {
            assert(s@ =~= dec_digits(n as int));
        }
        s
    } else {
        let mut s = u16_string(n / 10);
        push_char(&mut s, c);
        proof {
            assert(s@ =~= dec_digits(n as int));
        }
        s
    }
}

impl BridgeError {
    /// What the error's rendering says.
    pub open spec fn spec_message(&self) -> Seq<char> {
        match self {
            BridgeError::RequestFailed { status } => "request failed: "@ + dec_digits(*status as int),
            BridgeError::DecodeError => "could not decode the response body"@,
            BridgeError::Transport { message } => "transport error: "@ + message@,
        }
    }

    /// A human-readable description; a request failure names the numeric
    /// status.
    pub fn message(&self) -> (r: String)
        ensures
            r@ == self.spec_message(),
    {
        match self {
            BridgeError::RequestFailed { status } => {
                let mut s = String::from_str("request failed: ");
                let digits = u16_string(*status);
                s.append(digits.as_str());
                s
            },
            BridgeError::DecodeError => String::from_str("could not decode the response body"),
            BridgeError::Transport { message } => {
                let mut s = String::from_str("transport error: ");
                s.append(message.as_str());
                s
            },
        }
    }
}

/// Success is any 2xx status.
pub open spec fn spec_is_success(status: u16) -> bool {
    200 <= status < 300
}

/// Success is any 2xx status.
pub fn is_success(status: u16) -> (r: bool)
    ensures
        r == spec_is_success(status),
{
    200 <= status && status < 300
}

/// What a payload decodes to as a switch state: an object whose `on` field is
/// a boolean; every other field is ignored.
pub open spec fn state_of_json(j: JsonVal) -> Option<SwitchStateV> {
    match obj_lookup(j, "on"@) {
        Some(JsonVal::Bool(b)) => Some(SwitchStateV { on: b }),
        _ => None,
    }
}

/// An optional string field: absent or null mean "no value"; a present
/// non-string, non-null value does not fit the shape.
pub open spec fn opt_str_field(j: JsonVal, key: Seq<char>) -> Option<Option<Seq<char>>> {
    match obj_lookup(j, key) {
        None => Some(None),
        Some(JsonVal::Null) => Some(None),
        Some(JsonVal::Str(s)) => Some(Some(s)),
        Some(_) => None,
    }
}

/// What a payload decodes to as a switch configuration: `id` and `name` must
/// be strings, the two trigger URLs are optional strings; every other field
/// is ignored.
pub open spec fn config_of_json(j: JsonVal) -> Option<SwitchConfigV> {
    match (
        obj_lookup(j, "id"@),
        obj_lookup(j, "name"@),
        opt_str_field(j, "on_url"@),
        opt_str_field(j, "off_url"@),
    ) {
        (Some(JsonVal::Str(id)), Some(JsonVal::Str(name)), Some(on_url), Some(off_url)) => Some(
            SwitchConfigV { id, name, on_url, off_url },
        ),
        _ => None,
    }
}

/// What a payload decodes to as a switch declaration: a `state` field of the
/// switch-state shape beside a `config` field of the configuration shape.
pub open spec fn declaration_of_json(j: JsonVal) -> Option<SwitchDeclarationV> {
    match (obj_lookup(j, "state"@), obj_lookup(j, "config"@)) {
        (Some(sj), Some(cj)) => match (state_of_json(sj), config_of_json(cj)) {
            (Some(state), Some(config)) => Some(SwitchDeclarationV { state, config }),
            _ => None,
        },
        _ => None,
    }
}

/// The untagged accessory union: each known variant's shape is tried in a
/// fixed order and the first structural match wins; a payload matching no
/// variant does not decode. Today the only variant is Switch.
pub open spec fn accessory_of_json(j: JsonVal) -> Option<AccessoryV> {
    match declaration_of_json(j) {
        Some(d) => Some(AccessoryV::Switch(d)),
        None => None,
    }
}

/// What a payload decodes to as the list envelope: an object whose
/// `accessories` field is an array, every element of which decodes as an
/// accessory; the server's order is kept.
pub open spec fn accessories_of_json(j: JsonVal) -> Option<Seq<AccessoryV>> {
    match obj_lookup(j, "accessories"@) {
        Some(JsonVal::Arr(items)) => if forall|i: int|
            0 <= i < items.len() ==> accessory_of_json(#[trigger] items[i]) is Some {
            Some(Seq::new(items.len(), |i: int| accessory_of_json(items[i])->Some_0))
        } else {
            None
        },
        _ => None,
    }
}

/// The switch state decoded by `decode_switch_state`.
pub fn decode_switch_state(j: &Json) -> (r: Option<SwitchState>)
    ensures
        match r {
            Some(s) => state_of_json(j@) == Some(s@),
            None => state_of_json(j@) is None,
        },
{
    match j.get("on") {
        Some(v) => match v {
            Json::Bool(b) => Some(SwitchState { on: *b }),
            _ => None,
        },
        None => None,
    }
}

fn decode_opt_str(j: &Json, key: &str) -> (r: Option<Option<String>>)
    ensures
        match r {
            Some(o) => opt_str_field(j@, key@) == Some(o.deep_view()),
            None => opt_str_field(j@, key@) is None,
        },
{
    match j.get(key) {
        None => Some(None),
        Some(v) => match v {
            Json::Null => Some(None),
            Json::Str(s) => Some(Some(s.clone())),
            _ => None,
        },
    }
}

/// The switch configuration a payload decodes to.
pub fn decode_switch_config(j: &Json) -> (r: Option<SwitchConfig>)
    ensures
        match r {
            Some(c) => config_of_json(j@) == Some(c@),
            None => config_of_json(j@) is None,
        },
{
    let id = match j.get("id") {
        Some(v) => match v {
            Json::Str(s) => s.clone(),
            _ => {
                return None;
            },
        },
        None => {
            return None;
        },
    };
    let name = match j.get("name") {
        Some(v) => match v {
            Json::Str(s) => s.clone(),
            _ => {
                return None;
            },
        },
        None => {
            return None;
        },
    };
    let on_url = match decode_opt_str(j, "on_url") {
        Some(o) => o,
        None => {
            return None;
        },
    };
    let off_url = match decode_opt_str(j, "off_url") {
        Some(o) => o,
        None => {
            return None;
        },
    };
    Some(SwitchConfig { id, name, on_url, off_url })
}

/// The switch declaration a payload decodes to.
pub fn decode_switch_declaration(j: &Json) -> (r: Option<SwitchDeclaration>)
    ensures
        match r {
            Some(d) => declaration_of_json(j@) == Some(d@),
            None => declaration_of_json(j@) is None,
        },
{
    let state = match j.get("state") {
        Some(sj) => match decode_switch_state(sj) {
            Some(s) => s,
            None => {
                return None;
            },
        },
        None => {
            return None;
        },
    };
    let config = match j.get("config") {
        Some(cj) => match decode_switch_config(cj) {
            Some(c) => c,
            None => {
                return None;
            },
        },
        None => {
            return None;
        },
    };
    Some(SwitchDeclaration { state, config })
}

/// The accessory a payload decodes to, trying each variant's shape in order.
pub fn decode_accessory(j: &Json) -> (r: Option<Accessory>)
    ensures
        match r {
            Some(a) => accessory_of_json(j@) == Some(a@),
            None => accessory_of_json(j@) is None,
        },
{
    match decode_switch_declaration(j) {
        Some(d) => Some(Accessory::Switch(d)),
        None => None,
    }
}

/// The views of a sequence of accessories, in order.
pub open spec fn accessory_views(s: Seq<Accessory>) -> Seq<AccessoryV> {
    s.map_values(|a: Accessory| a@)
}

/// The accessory list a payload decodes to, order preserved.
#[verifier::loop_isolation(false)]
pub fn decode_accessories(j: &Json) -> (r: Option<Vec<Accessory>>)
    ensures
        match r {
            Some(v) => accessories_of_json(j@) == Some(accessory_views(v@)),
            None => accessories_of_json(j@) is None,
        },
{
    match j.get("accessories") {
        Some(arr) => match arr {
            Json::Arr(items) => {
                let ghost item_views = arr@->Arr_0;
                proof {
                    assert(obj_lookup(j@, "accessories"@) == Some(JsonVal::Arr(item_views)));
                    assert(item_views.len() == items@.len());
                    assert(forall|k: int|
                        0 <= k < item_views.len() ==> #[trigger] item_views[k] == crate::json::json_view(
                            items@[k],
                        ));
                }
                let n = items.len();
                let mut out: Vec<Accessory> = Vec::new();
                let mut i: usize = 0;
                while i < n
                    invariant
                        i <= n,
                        out@.len() == i,
                        forall|k: int|
                            0 <= k < i ==> accessory_of_json(#[trigger] item_views[k]) == Some(
                                out@[k]@,
                            ),
                    decreases n - i,
                {
                    match decode_accessory(&items[i]) {
                        Some(a) => out.push(a),
                        None => {
                            proof {
                                assert(accessory_of_json(item_views[i as int]) is None);
                            }
                            return None;
                        },
                    }
                    i += 1;
                }
                proof {
                    assert(forall|k: int|
                        0 <= k < item_views.len() ==> accessory_of_json(
                            #[trigger] item_views[k],
                        ) is Some);
                    assert(accessories_of_json(j@)->Some_0 =~= accessory_views(out@));
                }
                Some(out)
            },
            _ => None,
        },
        None => None,
    }
}

/// The stateless engine of the bridge client: it owns the base host string,
/// builds the URL and body of each operation, and interprets each response.
/// The HTTP round trips themselves happen outside the library.
pub struct HomebridgeClient {
    host: String,
}

impl Clone for HomebridgeClient {
    /// An identical client; the client is immutable and freely copied into
    /// every handle that operates through it.
    fn clone(&self) -> (r: Self)
        ensures
            r.host_view() == self.host_view(),
    {
        HomebridgeClient { host: self.host.clone() }
    }
}

impl HomebridgeClient {
    /// The base host every URL starts with.
    pub closed spec fn host_view(&self) -> Seq<char> {
        self.host@
    }

    /// A client bound to the given host. No network contact happens here.
    pub fn new(host: &str) -> (r: Self)
        ensures
            r.host_view() == host@,
    {
        HomebridgeClient { host: String::from_str(host) }
    }

    /// URL of one accessory: `{host}/accessory/{id}`.
    pub fn accessory_url(&self, accessory_id: &str) -> (r: String)
        ensures
            r@ == self.host_view() + "/accessory/"@ + accessory_id@,
    {
        self.host.clone().concat("/accessory/").concat(accessory_id)
    }

    /// URL of the accessory collection: `{host}/accessory`.
    pub fn accessories_url(&self) -> (r: String)
        ensures
            r@ == self.host_view() + "/accessory"@,
    {
        self.host.clone().concat("/accessory")
    }

    /// URL of one accessory's state: `{host}/accessory/{id}/state`.
    pub fn state_url(&self, accessory_id: &str) -> (r: String)
        ensures
            r@ == self.host_view() + "/accessory/"@ + accessory_id@ + "/state"@,
    {
        self.host.clone().concat("/accessory/").concat(accessory_id).concat("/state")
    }
}

/// What the accessory body decodes to, starting from the raw bytes.
pub open spec fn accessory_of_body(body: Seq<u8>) -> Option<AccessoryV> {
    match json_of(body) {
        Some(j) => accessory_of_json(j),
        None => None,
    }
}

/// What the list body decodes to, starting from the raw bytes.
pub open spec fn accessories_of_body(body: Seq<u8>) -> Option<Seq<AccessoryV>> {
    match json_of(body) {
        Some(j) => accessories_of_json(j),
        None => None,
    }
}

/// What the state body's envelope carries, starting from the raw bytes:
/// the value of the `state` field, whatever its shape.
pub open spec fn state_of_body(body: Seq<u8>) -> Option<JsonVal> {
    match json_of(body) {
        Some(j) => obj_lookup(j, "state"@),
        None => None,
    }
}

/// Reads the response of getting one accessory. 404 means the accessory is
/// absent — a valid empty result, never an error; any other non-2xx status is
/// a request failure carrying that status; a 2xx body must decode as one
/// accessory.
pub fn read_accessory_response(status: u16, body: &[u8]) -> (r: Result<
    Option<Accessory>,
    BridgeError,
>)
    ensures
        status == 404 ==> (r matches Ok(a) && a is None),
        status != 404 && !spec_is_success(status) ==> (r matches Err(e) && e == (
        BridgeError::RequestFailed { status })),
        spec_is_success(status) ==> match accessory_of_body(body@) {
            Some(av) => r matches Ok(a) && a matches Some(acc) && acc@ == av,
            None => r matches Err(e) && e is DecodeError,
        },
{
    if status == 404 {
        return Ok(None);
    }
    if !is_success(status) {
        return Err(BridgeError::RequestFailed { status });
    }
    match parse_json(body) {
        None => Err(BridgeError::DecodeError),
        Some(j) => match decode_accessory(&j) {
            Some(acc) => Ok(Some(acc)),
            None => Err(BridgeError::DecodeError),
        },
    }
}

/// Reads the response of listing the accessories. Non-2xx is a request
/// failure carrying the status; a 2xx body must decode as the list envelope,
/// whose accessories are returned in the server's order.
pub fn read_accessories_response(status: u16, body: &[u8]) -> (r: Result<
    Vec<Accessory>,
    BridgeError,
>)
    ensures
        !spec_is_success(status) ==> (r matches Err(e) && e == (BridgeError::RequestFailed {
            status,
        })),
        spec_is_success(status) ==> match accessories_of_body(body@) {
            Some(s) => r matches Ok(v) && accessory_views(v@) == s,
            None => r matches Err(e) && e is DecodeError,
        },
{
    if !is_success(status) {
        return Err(BridgeError::RequestFailed { status });
    }
    match parse_json(body) {
        None => Err(BridgeError::DecodeError),
        Some(j) => match decode_accessories(&j) {
            Some(v) => Ok(v),
            None => Err(BridgeError::DecodeError),
        },
    }
}

/// Reads a response that carries no payload (delete, set state, create):
/// 2xx succeeds, anything else is a request failure carrying the status.
pub fn read_empty_response(status: u16) -> (r: Result<(), BridgeError>)
    ensures
        spec_is_success(status) <==> r is Ok,
        !spec_is_success(status) ==> (r matches Err(e) && e == (BridgeError::RequestFailed {
            status,
        })),
{
    if is_success(status) {
        Ok(())
    } else {
        Err(BridgeError::RequestFailed { status })
    }
}

/// Reads the response of getting an accessory's state and hands out the
/// value inside the `{state: ...}` envelope, whatever its shape; the caller
/// decodes it further. Non-2xx is a request failure carrying the status.
pub fn read_state_response(status: u16, body: &[u8]) -> (r: Result<Json, BridgeError>)
    ensures
        !spec_is_success(status) ==> (r matches Err(e) && e == (BridgeError::RequestFailed {
            status,
        })),
        spec_is_success(status) ==> match state_of_body(body@) {
            Some(jv) => r matches Ok(inner) && inner@ == jv,
            None => r matches Err(e) && e is DecodeError,
        },
{
    if !is_success(status) {
        return Err(BridgeError::RequestFailed { status });
    }
    match parse_json(body) {
        None => Err(BridgeError::DecodeError),
        Some(j) => match j.take_field("state") {
            Some(inner) => Ok(inner),
            None => Err(BridgeError::DecodeError),
        },
    }
}

/// The document sent as a switch state: `{"on": b}`.
pub open spec fn state_json(on: bool) -> JsonVal {
    JsonVal::Obj(seq![("on"@, JsonVal::Bool(on))])
}

/// The envelope the bridge serves a state in: `{"state": inner}`.
pub open spec fn state_envelope(inner: JsonVal) -> JsonVal {
    JsonVal::Obj(seq![("state"@, inner)])
}

/// The optional-string encoding: a missing URL is sent as null.
pub open spec fn opt_str_json(o: Option<Seq<char>>) -> JsonVal {
    match o {
        Some(s) => JsonVal::Str(s),
        None => JsonVal::Null,
    }
}

/// The document sent as a switch configuration.
pub open spec fn config_json(c: SwitchConfigV) -> JsonVal {
    JsonVal::Obj(
        seq![
            ("id"@, JsonVal::Str(c.id)),
            ("name"@, JsonVal::Str(c.name)),
            ("off_url"@, opt_str_json(c.off_url)),
            ("on_url"@, opt_str_json(c.on_url)),
        ],
    )
}

fn opt_str_to_json(o: &Option<String>) -> (r: Json)
    ensures
        r@ == opt_str_json(o.deep_view()),
{
    match o {
        Some(s) => Json::Str(s.clone()),
        None => Json::Null,
    }
}

/// The state document for the given flag.
pub fn switch_state_json(on: bool) -> (r: Json)
    ensures
        r@ == state_json(on),
{
    let mut fields: Vec<(String, Json)> = Vec::new();
    fields.push((String::from_str("on"), Json::Bool(on)));
    let r = Json::Obj(fields);
    proof {
        assert(crate::json::json_view(fields@[0].1) == JsonVal::Bool(on));
        assert(r@->Obj_0 =~= state_json(on)->Obj_0);
        assert(r@ == state_json(on));
    }
    r
}

/// The configuration document for the given configuration.
pub fn switch_config_json(config: &SwitchConfig) -> (r: Json)
    ensures
        r@ == config_json(config@),
{
    let mut fields: Vec<(String, Json)> = Vec::new();
    fields.push((String::from_str("id"), Json::Str(config.id.clone())));
    fields.push((String::from_str("name"), Json::Str(config.name.clone())));
    fields.push((String::from_str("off_url"), opt_str_to_json(&config.off_url)));
    fields.push((String::from_str("on_url"), opt_str_to_json(&config.on_url)));
    let r = Json::Obj(fields);
    proof {
        assert(crate::json::json_view(fields@[0].1) == JsonVal::Str(config.id@));
        assert(crate::json::json_view(fields@[1].1) == JsonVal::Str(config.name@));
        assert(r@->Obj_0 =~= config_json(config@)->Obj_0);
        assert(r@ == config_json(config@));
    }
    r
}

proof fn lemma_state_json_canonical(on: bool)
    ensures
        canonical(state_json(on)),
        depth_at_most(state_json(on), 100),
{
    let fields = state_json(on)->Obj_0;
    assert(canonical(fields[0].1));
    assert(canonical(state_json(on)));
    assert(depth_at_most(fields[0].1, 99));
    assert(depth_at_most(state_json(on), 100));
}

proof fn lemma_config_keys_sorted()
    ensures
        chars_lt("id"@, "name"@),
        chars_lt("name"@, "off_url"@),
        chars_lt("off_url"@, "on_url"@),
{
    reveal_strlit("id");
    reveal_strlit("name");
    reveal_strlit("off_url");
    reveal_strlit("on_url");
    assert(chars_lt("id"@, "name"@));
    assert(chars_lt("name"@, "off_url"@));
    assert(chars_lt("off_url"@.skip(1), "on_url"@.skip(1)));
    assert(chars_lt("off_url"@, "on_url"@));
}

proof fn lemma_config_json_canonical(c: SwitchConfigV)
    ensures
        canonical(config_json(c)),
        depth_at_most(config_json(c), 100),
{
    let fields = config_json(c)->Obj_0;
    lemma_config_keys_sorted();
    assert forall|i: int| 0 <= i < fields.len() implies canonical((#[trigger] fields[i]).1) by {
        assert(canonical(JsonVal::Str(c.id)));
        assert(canonical(JsonVal::Str(c.name)));
        assert(canonical(opt_str_json(c.off_url)));
        assert(canonical(opt_str_json(c.on_url)));
    }
    assert(canonical(config_json(c)));
    assert forall|i: int| 0 <= i < fields.len() implies depth_at_most(
        (#[trigger] fields[i]).1,
        99,
    ) by {
        assert(depth_at_most(JsonVal::Str(c.id), 99));
        assert(depth_at_most(JsonVal::Str(c.name), 99));
        assert(depth_at_most(opt_str_json(c.off_url), 99));
        assert(depth_at_most(opt_str_json(c.on_url), 99));
    }
    assert(depth_at_most(config_json(c), 100));
}

/// The body sent when setting a switch's state: the state document itself,
/// not wrapped in the envelope the read side uses.
pub fn switch_state_body(on: bool) -> (r: Vec<u8>)
    ensures
        json_of(r@) == Some(state_json(on)),
{
    let j = switch_state_json(on);
    proof {
        lemma_state_json_canonical(on);
    }
    encode_json(&j)
}

/// The body sent when creating a switch: the configuration document.
pub fn create_switch_body(config: &SwitchConfig) -> (r: Vec<u8>)
    ensures
        json_of(r@) == Some(config_json(config@)),
{
    let j = switch_config_json(config);
    proof {
        lemma_config_json_canonical(config@);
    }
    encode_json(&j)
}

/// Law: a configuration round-trips through the wire format. The document
/// that `create_switch_body` sends for a configuration decodes back to that
/// same configuration.
pub proof fn lemma_config_round_trip(c: SwitchConfigV)
    ensures
        config_of_json(config_json(c)) == Some(c),
{
    let fields = config_json(c)->Obj_0;
    reveal_strlit("id");
    reveal_strlit("name");
    reveal_strlit("off_url");
    reveal_strlit("on_url");
    reveal_with_fuel(lookup, 5);
    let t1 = fields.skip(1);
    let t2 = t1.skip(1);
    let t3 = t2.skip(1);
    assert(fields.len() == 4);
    assert(fields[0] == ("id"@, JsonVal::Str(c.id)));
    assert(fields[1] == ("name"@, JsonVal::Str(c.name)));
    assert(fields[2] == ("off_url"@, opt_str_json(c.off_url)));
    assert(fields[3] == ("on_url"@, opt_str_json(c.on_url)));
    assert(t1.len() == 3 && t1[0] == fields[1] && t1[1] == fields[2] && t1[2] == fields[3]);
    assert(t2.len() == 2 && t2[0] == fields[2] && t2[1] == fields[3]);
    assert(t3.len() == 1 && t3[0] == fields[3]);
    assert("id"@.len() == 2 && "name"@.len() == 4 && "off_url"@.len() == 7 && "on_url"@.len() == 6);
    assert("id"@ != "name"@ && "id"@ != "off_url"@ && "id"@ != "on_url"@);
    assert("name"@ != "off_url"@ && "name"@ != "on_url"@);
    assert("off_url"@ != "on_url"@);
    assert(lookup(fields, "id"@) == Some(JsonVal::Str(c.id)));
    assert(lookup(t1, "name"@) == Some(JsonVal::Str(c.name)));
    assert(lookup(fields, "name"@) == Some(JsonVal::Str(c.name)));
    assert(lookup(t2, "off_url"@) == Some(opt_str_json(c.off_url)));
    assert(lookup(fields, "off_url"@) == Some(opt_str_json(c.off_url)));
    assert(lookup(t3, "on_url"@) == Some(opt_str_json(c.on_url)));
    assert(lookup(fields, "on_url"@) == Some(opt_str_json(c.on_url)));
}

/// The declaration document the bridge serves for one switch: its state
/// beside its configuration.
pub open spec fn declaration_json(on: bool, c: SwitchConfigV) -> JsonVal {
    JsonVal::Obj(seq![("config"@, config_json(c)), ("state"@, state_json(on))])
}

/// Law: a registered switch reads back as itself. A declaration document
/// pairing any state with the configuration document sent at creation
/// decodes to the Switch accessory carrying that same configuration and that
/// state.
pub proof fn lemma_created_switch_reads_back(on: bool, c: SwitchConfigV)
    ensures
        accessory_of_json(declaration_json(on, c)) == Some(
            AccessoryV::Switch(SwitchDeclarationV { state: SwitchStateV { on }, config: c }),
        ),
{
    let fields = declaration_json(on, c)->Obj_0;
    reveal_strlit("state");
    reveal_strlit("config");
    reveal_with_fuel(lookup, 3);
    assert("state"@.len() == 5 && "config"@.len() == 6);
    assert(fields.skip(1)[0] == fields[1]);
    assert(lookup(fields, "config"@) == Some(config_json(c)));
    assert(lookup(fields, "state"@) == Some(state_json(on)));
    lemma_config_round_trip(c);
    lemma_state_round_trip(on);
}

/// Law: a switch state round-trips. The state document sent for a flag
/// decodes back to that flag, and the bridge's `{state: ...}` envelope
/// around any document hands that document back.
pub proof fn lemma_state_round_trip(on: bool)
    ensures
        state_of_json(state_json(on)) == Some(SwitchStateV { on }),
        obj_lookup(state_envelope(state_json(on)), "state"@) == Some(state_json(on)),
{
    assert(lookup(state_json(on)->Obj_0, "on"@) == Some(JsonVal::Bool(on)));
    assert(lookup(state_envelope(state_json(on))->Obj_0, "state"@) == Some(state_json(on)));
}

} // verus!
