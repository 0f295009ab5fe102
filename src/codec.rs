//! The wire codec: outgoing calls as JSON-RPC requests, inbound transport
//! messages as newline-separated units, and each unit as a reply or a push
//! notification.
use vstd::prelude::*;
use crate::json::{
    Json, JsonNumber, field, str_of, u32_of, member, is_first_key, parse_of, text_of,
    parse_json, json_text, find_key, get_field, get_member, as_str, as_u32, lemma_member_at,
};

verus! {

/// The closed set of calls the device answers, with their parameters.
#[derive(Debug)]
pub enum Method {
    Auth { device: String, force: String },
    DeleteUpf { image_id: String },
    GetUpfInfos,
    GetStatus,
    GetOptions,
    GetOptionList,
    GetOption { name: String },
    Capture,
}

/// The name a call goes by on the wire.
pub open spec fn method_name(m: Method) -> Seq<char> {
    match m {
        Method::Auth { .. } => "auth"@,
        Method::DeleteUpf { .. } => "delete_upf"@,
        Method::GetUpfInfos => "get_upf_infos"@,
        Method::GetStatus => "get_status"@,
        Method::GetOptions => "get_options"@,
        Method::GetOptionList => "get_option_list"@,
        Method::GetOption { .. } => "get_option"@,
        Method::Capture => "capture"@,
    }
}

/// Calls without parameters send no `params` member at all.
pub open spec fn has_params(m: Method) -> bool {
    match m {
        Method::Auth { .. } | Method::DeleteUpf { .. } | Method::GetOption { .. } => true,
        _ => false,
    }
}

/// `p` is the `params` object of `m`: its fields in declaration order.
pub open spec fn is_params(p: Json, m: Method) -> bool {
    match p {
        Json::Object(ps) => match m {
            Method::Auth { device, force } => {
                &&& ps@.len() == 2
                &&& ps@[0].0@ == "device"@ && ps@[0].1 == Json::Str(device)
                &&& ps@[1].0@ == "force"@ && ps@[1].1 == Json::Str(force)
            },
            Method::DeleteUpf { image_id } => {
                &&& ps@.len() == 1
                &&& ps@[0].0@ == "image_id"@ && ps@[0].1 == Json::Str(image_id)
            },
            Method::GetOption { name } => {
                &&& ps@.len() == 1
                &&& ps@[0].0@ == "name"@ && ps@[0].1 == Json::Str(name)
            },
            _ => false,
        },
        _ => false,
    }
}

/// `j` is the request for call `m` under `id`: `id`, `method`, `params`
/// (where `m` has any) and `jsonrpc` = `"2.0"`, in that order.
pub open spec fn is_request(j: Json, id: u32, m: Method) -> bool {
    match j {
        Json::Object(ms) => {
            let s = ms@;
            let n = if has_params(m) { 4int } else { 3int };
            &&& s.len() == n
            &&& s[0].0@ == "id"@ && s[0].1 == Json::Number(JsonNumber::PosInt(id as u64))
            &&& s[1].0@ == "method"@
            &&& (match s[1].1 {
                Json::Str(t) => t@ == method_name(m),
                _ => false,
            })
            &&& has_params(m) ==> s[2].0@ == "params"@ && is_params(s[2].1, m)
            &&& s[n - 1].0@ == "jsonrpc"@
            &&& (match s[n - 1].1 {
                Json::Str(t) => t@ == "2.0"@,
                _ => false,
            })
        },
        _ => false,
    }
}

fn method_str(m: &Method) -> (r: &'static str)
    ensures
        r@ == method_name(*m),
{
    match m {
        Method::Auth { .. } => "auth",
        Method::DeleteUpf { .. } => "delete_upf",
        Method::GetUpfInfos => "get_upf_infos",
        Method::GetStatus => "get_status",
        Method::GetOptions => "get_options",
        Method::GetOptionList => "get_option_list",
        Method::GetOption { .. } => "get_option",
        Method::Capture => "capture",
    }
}

fn str_member(key: &str, value: &String) -> (r: (String, Json))
    ensures
        r.0@ == key@,
        r.1 == Json::Str(*value),
{
    (String::from_str(key), Json::Str(value.clone()))
}

/// The `params` object of a call, where it has one.
pub fn params_json(m: &Method) -> (r: Option<Json>)
    ensures
        has_params(*m) <==> r is Some,
        r matches Some(p) ==> is_params(p, *m),
{
    let mut ps: Vec<(String, Json)> = Vec::new();
    match m {
        Method::Auth { device, force } => {
            ps.push(str_member("device", device));
            ps.push(str_member("force", force));
        },
        Method::DeleteUpf { image_id } => {
            ps.push(str_member("image_id", image_id));
        },
        Method::GetOption { name } => {
            ps.push(str_member("name", name));
        },
        _ => {
            return None;
        },
    }
    Some(Json::Object(ps))
}

/// The request tree of call `m` under `id`.
pub fn request_json(id: u32, m: &Method) -> (r: Json)
    ensures
        is_request(r, id, *m),
{
    let mut ms: Vec<(String, Json)> = Vec::new();
    ms.push((String::from_str("id"), Json::Number(JsonNumber::PosInt(id as u64))));
    ms.push((String::from_str("method"), Json::Str(String::from_str(method_str(m)))));
    match params_json(m) {
        Some(p) => {
            ms.push((String::from_str("params"), p));
        },
        None => {},
    }
    ms.push((String::from_str("jsonrpc"), Json::Str(String::from_str("2.0"))));
    Json::Object(ms)
}

/// `s` holds no line break.
pub open spec fn single_line(s: Seq<char>) -> bool {
    forall|i: int| 0 <= i < s.len() ==> s[i] != '\n'
}

/// The text of call `m` under `id`: one line, never empty.
pub fn encode(id: u32, m: &Method) -> (r: String)
    ensures
        exists|j: Json| #[trigger] is_request(j, id, *m) && r@ == text_of(j),
        single_line(r@),
        r@.len() > 0,
{
    let j = request_json(id, m);
    let r = json_text(&j);
    assert(is_request(j, id, *m) && r@ == text_of(j));
    r
}

/// Splitting state after the first `n` characters of `s`: the units finished
/// so far, and the characters of the unit under way.
pub open spec fn scan(s: Seq<char>, n: nat) -> (Seq<Seq<char>>, Seq<char>)
    decreases n,
{
    if n == 0 {
        (seq![], seq![])
    } else {
        let (done, cur) = scan(s, (n - 1) as nat);
        if s[n - 1] == '\n' {
            (if cur.len() > 0 { done.push(cur) } else { done }, seq![])
        } else {
            (done, cur.push(s[n - 1]))
        }
    }
}

/// The units of a transport message: the text between line breaks, empty
/// pieces left out.
pub open spec fn frame_units(s: Seq<char>) -> Seq<Seq<char>> {
    let (done, cur) = scan(s, s.len());
    if cur.len() > 0 {
        done.push(cur)
    } else {
        done
    }
}

pub open spec fn views(v: Seq<String>) -> Seq<Seq<char>> {
    v.map_values(|u: String| u@)
}

/// Splits one transport message into its units.
pub fn split_frame(text: &str) -> (r: Vec<String>)
    ensures
        views(r@) == frame_units(text@),
{
    let n = text.unicode_len();
    let mut units: Vec<String> = Vec::new();
    let mut start: usize = 0;
    let mut i: usize = 0;
    while i < n
        invariant
            n == text@.len(),
            start <= i <= n,
            views(units@) == scan(text@, i as nat).0,
            scan(text@, i as nat).1 == text@.subrange(start as int, i as int),
        decreases n - i,
    {
        let c = text.get_char(i);
        proof {
            let (d, cur) = scan(text@, i as nat);
            assert(scan(text@, (i + 1) as nat) == (if c == '\n' {
                (if cur.len() > 0 { d.push(cur) } else { d }, seq![])
            } else {
                (d, cur.push(c))
            }));
        }
        if c == '\n' {
            if start < i {
                let u = String::from_str(text.substring_char(start, i));
                let ghost old_units = units@;
                units.push(u);
                assert(views(units@) =~= views(old_units).push(u@));
            }
            start = i + 1;
            assert(text@.subrange(start as int, (i + 1) as int) =~= seq![]);
        } else {
            assert(text@.subrange(start as int, (i + 1) as int) =~= text@.subrange(
                start as int,
                i as int,
            ).push(c));
        }
        i = i + 1;
    }
    if start < n {
        let u = String::from_str(text.substring_char(start, n));
        let ghost old_units = units@;
        units.push(u);
        assert(views(units@) =~= views(old_units).push(u@));
    }
    units
}

/// Every character of `s` from `base` to `base + n` is no line break.
pub open spec fn no_break_in(s: Seq<char>, base: int, n: int) -> bool {
    forall|i: int| base <= i < base + n ==> s[i] != '\n'
}

proof fn lemma_scan_run(s: Seq<char>, base: nat, n: nat)
    requires
        base + n <= s.len(),
        scan(s, base).1 == Seq::<char>::empty(),
        no_break_in(s, base as int, n as int),
    ensures
        scan(s, base + n) == (scan(s, base).0, s.subrange(base as int, (base + n) as int)),
    decreases n,
{
    if n > 0 {
        lemma_scan_run(s, base, (n - 1) as nat);
        assert(s.subrange(base as int, (base + n - 1) as int).push(s[base + n - 1]) =~= s.subrange(
            base as int,
            (base + n) as int,
        ));
    }
}

/// A line without breaks is a single unit.
pub proof fn lemma_single_line_frame(s: Seq<char>)
    requires
        single_line(s),
        s.len() > 0,
    ensures
        frame_units(s) == seq![s],
{
    lemma_scan_run(s, 0, s.len());
    assert(s.subrange(0, s.len() as int) =~= s);
}

/// Two one-line envelopes joined by a line break split into exactly those two
/// units.
pub proof fn lemma_two_units(a: Seq<char>, b: Seq<char>)
    requires
        single_line(a),
        single_line(b),
        a.len() > 0,
        b.len() > 0,
    ensures
        frame_units(a + seq!['\n'] + b) == seq![a, b],
{
    let t = a + seq!['\n'] + b;
    lemma_scan_run(t, 0, a.len());
    assert(t.subrange(0, a.len() as int) =~= a);
    assert(scan(t, a.len() + 1) == (seq![a], Seq::<char>::empty()));
    lemma_scan_run(t, a.len() + 1, b.len());
    assert(t.subrange(a.len() + 1int, t.len() as int) =~= b);
    assert(t.len() == a.len() + 1 + b.len());
}

/// A warning attached to a reply.
#[derive(Debug)]
pub struct ResponseWarning {
    pub code: u32,
    pub message: String,
}

/// A reply to an earlier call, with its result still undecoded.
#[derive(Debug)]
pub struct Response {
    pub id: u32,
    pub jsonrpc: String,
    pub result: Json,
    pub warning: Option<ResponseWarning>,
}

/// A notification the device sends on its own.
#[derive(Debug)]
pub struct IncomingRequest {
    pub jsonrpc: String,
    pub method: String,
    pub params: Json,
}

/// The device's refusal of an earlier call. What `error` holds is left
/// as the device sent it.
#[derive(Debug)]
pub struct ResponseError {
    pub id: u32,
    pub jsonrpc: String,
    pub error: Json,
}

/// One decoded inbound unit.
#[derive(Debug)]
pub enum PacketIncoming {
    Response(Response),
    IncomingRequest(IncomingRequest),
    Error(ResponseError),
}

pub open spec fn field_u32(j: Json, key: Seq<char>) -> Option<u32> {
    match field(j, key) {
        Some(v) => u32_of(v),
        None => None,
    }
}

pub open spec fn field_str(j: Json, key: Seq<char>) -> Option<String> {
    match field(j, key) {
        Some(v) => str_of(v),
        None => None,
    }
}

/// What an optional `warning` member reads as; `None` where it does not read.
/// An absent member and `null` both mean no warning.
pub open spec fn warning_of(w: Option<Json>) -> Option<Option<ResponseWarning>> {
    match w {
        None => Some(None),
        Some(Json::Null) => Some(None),
        Some(v) => match (field_u32(v, "code"@), field_str(v, "message"@)) {
            (Some(code), Some(message)) => Some(Some(ResponseWarning { code, message })),
            _ => None,
        },
    }
}

/// `j` read as a reply: `id` (a `u32`), `jsonrpc` (a string) and `result`
/// (anything) present, `warning` absent, null or well formed.
pub open spec fn response_of(j: Json) -> Option<Response> {
    match (
        field_u32(j, "id"@),
        field_str(j, "jsonrpc"@),
        field(j, "result"@),
        warning_of(field(j, "warning"@)),
    ) {
        (Some(id), Some(jsonrpc), Some(result), Some(warning)) => Some(
            Response { id, jsonrpc, result, warning },
        ),
        _ => None,
    }
}

/// `j` read as a notification: `jsonrpc` and `method` strings, `params` anything.
pub open spec fn notification_of(j: Json) -> Option<IncomingRequest> {
    match (field_str(j, "jsonrpc"@), field_str(j, "method"@), field(j, "params"@)) {
        (Some(jsonrpc), Some(method), Some(params)) => Some(
            IncomingRequest { jsonrpc, method, params },
        ),
        _ => None,
    }
}

/// `j` read as an error reply: `id` (a `u32`), `jsonrpc` (a string) and
/// `error` (anything).
pub open spec fn error_of(j: Json) -> Option<ResponseError> {
    match (field_u32(j, "id"@), field_str(j, "jsonrpc"@), field(j, "error"@)) {
        (Some(id), Some(jsonrpc), Some(error)) => Some(ResponseError { id, jsonrpc, error }),
        _ => None,
    }
}

/// `j` read as a reply first, as a notification where it is no reply, and
/// as an error reply where it is neither.
pub open spec fn envelope_of(j: Json) -> Option<PacketIncoming> {
    match response_of(j) {
        Some(r) => Some(PacketIncoming::Response(r)),
        None => match notification_of(j) {
            Some(n) => Some(PacketIncoming::IncomingRequest(n)),
            None => match error_of(j) {
                Some(e) => Some(PacketIncoming::Error(e)),
                None => None,
            },
        },
    }
}

/// A unit of text read as an envelope.
pub open spec fn unit_packet(u: Seq<char>) -> Option<PacketIncoming> {
    match parse_of(u) {
        Some(j) => envelope_of(j),
        None => None,
    }
}

fn member_str(ms: &Vec<(String, Json)>, key: &str) -> (r: Option<String>)
    ensures
        r == (match member(ms@, key@) {
            Some(v) => str_of(v),
            None => None,
        }),
{
    match get_member(ms, key) {
        Some(v) => match as_str(v) {
            Some(s) => Some(s.clone()),
            None => None,
        },
        None => None,
    }
}

fn member_u32(ms: &Vec<(String, Json)>, key: &str) -> (r: Option<u32>)
    ensures
        r == (match member(ms@, key@) {
            Some(v) => u32_of(v),
            None => None,
        }),
{
    match get_member(ms, key) {
        Some(v) => as_u32(v),
        None => None,
    }
}

fn decode_warning(ms: &Vec<(String, Json)>) -> (r: Option<Option<ResponseWarning>>)
    ensures
        r == warning_of(member(ms@, "warning"@)),
{
    match get_member(ms, "warning") {
        None => Some(None),
        Some(Json::Null) => Some(None),
        Some(w) => {
            let code = match get_field(w, "code") {
                Some(c) => as_u32(c),
                None => None,
            };
            let message = match get_field(w, "message") {
                Some(m) => match as_str(m) {
                    Some(s) => Some(s.clone()),
                    None => None,
                },
                None => None,
            };
            match (code, message) {
                (Some(code), Some(message)) => Some(Some(ResponseWarning { code, message })),
                _ => None,
            }
        },
    }
}

/// Takes out the value of the first member named `key`.
fn take_member(ms: &mut Vec<(String, Json)>, key: &str) -> (r: Option<Json>)
    ensures
        r == member(old(ms)@, key@),
{
    match find_key(ms, key) {
        Some(i) => {
            proof {
                lemma_member_at(ms@, key@, i as int);
            }
            let (_, v) = ms.remove(i);
            Some(v)
        },
        None => {
            assert(!exists|k: int| is_first_key(ms@, key@, k));
            None
        },
    }
}

/// Reads a parsed unit as a reply or, failing that, as a notification or,
/// failing both, as an error reply.
pub fn packet_of_json(j: Json) -> (r: Option<PacketIncoming>)
    ensures
        r == envelope_of(j),
{
    let ghost j0 = j;
    match j {
        Json::Object(ms) => {
            let mut ms = ms;
            let id = member_u32(&ms, "id");
            let jsonrpc = member_str(&ms, "jsonrpc");
            let warning = decode_warning(&ms);
            let has_result = find_key(&ms, "result");
            if let (Some(id), Some(jsonrpc), Some(warning), Some(_)) = (id, jsonrpc, warning, has_result) {
                match take_member(&mut ms, "result") {
                    Some(result) => {
                        return Some(PacketIncoming::Response(Response { id, jsonrpc, result, warning }));
                    },
                    None => {
                        return None;
                    },
                }
            }
            assert(response_of(j0) is None) by {
                if has_result is None {
                    assert(!exists|k: int| is_first_key(ms@, "result"@, k));
                }
            }
            let jsonrpc = member_str(&ms, "jsonrpc");
            let method = member_str(&ms, "method");
            let has_params = find_key(&ms, "params");
            if let (Some(jsonrpc), Some(method), Some(_)) = (jsonrpc, method, has_params) {
                match take_member(&mut ms, "params") {
                    Some(params) => {
                        return Some(
                            PacketIncoming::IncomingRequest(IncomingRequest { jsonrpc, method, params }),
                        );
                    },
                    None => {
                        return None;
                    },
                }
            }
            assert(notification_of(j0) is None) by {
                if has_params is None {
                    assert(!exists|k: int| is_first_key(ms@, "params"@, k));
                }
            }
            let id = member_u32(&ms, "id");
            let jsonrpc = member_str(&ms, "jsonrpc");
            match (id, jsonrpc) {
                (Some(id), Some(jsonrpc)) => match take_member(&mut ms, "error") {
                    Some(error) => Some(PacketIncoming::Error(ResponseError { id, jsonrpc, error })),
                    None => None,
                },
                _ => None,
            }
        },
        _ => None,
    }
}

/// Decodes one unit of text; `None` where it is no reply, notification or
/// error reply (or no JSON at all).
pub fn decode_envelope(text: &str) -> (r: Option<PacketIncoming>)
    ensures
        r == unit_packet(text@),
{
    match parse_json(text) {
        Some(j) => packet_of_json(j),
        None => None,
    }
}

/// A request, with `method` and `params` traded for a `result` and its `id`
/// and `jsonrpc` members kept, reads back as the reply to that request; and
/// the request's text is one unit of a transport message.
pub proof fn lemma_request_reply_shape(
    id: u32,
    m: Method,
    req: Json,
    text: Seq<char>,
    reply: Json,
)
    requires
        is_request(req, id, m),
        text == text_of(req),
        single_line(text),
        text.len() > 0,
        field(reply, "id"@) == field(req, "id"@),
        field(reply, "jsonrpc"@) == field(req, "jsonrpc"@),
        field(reply, "result"@) is Some,
        field(reply, "warning"@) is None,
    ensures
        frame_units(text) == seq![text],
        envelope_of(reply) matches Some(PacketIncoming::Response(r)) && r.id == id
            && r.jsonrpc@ == "2.0"@ && r.warning is None,
{
    lemma_single_line_frame(text);
    reveal_strlit("id");
    reveal_strlit("method");
    reveal_strlit("params");
    reveal_strlit("jsonrpc");
    let ms = members_of_req(req);
    let n = if has_params(m) { 4int } else { 3int };
    assert(is_first_key(ms, "id"@, 0));
    lemma_member_at(ms, "id"@, 0);
    assert("id"@.len() != "jsonrpc"@.len());
    assert("method"@.len() != "jsonrpc"@.len());
    assert("params"@.len() != "jsonrpc"@.len());
    assert(forall|j: int| 0 <= j < n - 1 ==> ms[j].0@ != "jsonrpc"@);
    assert(is_first_key(ms, "jsonrpc"@, n - 1));
    lemma_member_at(ms, "jsonrpc"@, n - 1);
}

spec fn members_of_req(j: Json) -> Seq<(String, Json)> {
    match j {
        Json::Object(ms) => ms@,
        _ => seq![],
    }
}

} // verus!
