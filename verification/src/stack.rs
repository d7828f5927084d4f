use vstd::prelude::*;

verus! {

use crate::app::Question;
use crate::app::is_display_record;
use crate::cache::ResponseCache;
use crate::cache::fresh_at;
use crate::html::description_of;
use crate::html::from_html;
use crate::html::rendered_of;
use crate::html::take_lines_joined;

/// How a page request can fail.
#[derive(Debug, Clone, Copy, PartialEq, Eq, Structural)]
pub enum PipelineError {
    /// The network fetch failed: transport failure, timeout, or a non-success
    /// status.
    Fetch,
    /// The page envelope could not be decoded.
    Parse,
}

/// One raw item of the page envelope, before conversion for display.
#[derive(Debug)]
pub struct QuestionDto {
    pub title: String,
    pub link: String,
    pub tags: Vec<String>,
    pub answer_count: u32,
    pub body: String,
}

/// The page envelope: the raw item list plus pagination metadata, which is
/// accepted but informational only.
#[derive(Debug)]
pub struct StackOverflowDto {
    pub items: Vec<QuestionDto>,
    pub has_more: bool,
    pub quota_max: i32,
    pub quota_remaining: i32,
}

#[verifier::external_type_specification]
#[verifier::external_body]
pub struct ExValue(serde_json::Value);

#[verifier::external_type_specification]
#[verifier::external_body]
pub struct ExJsonError(serde_json::Error);

#[verifier::external_type_specification]
#[verifier::external_body]
pub struct ExHttpClient(reqwest::blocking::Client);

#[verifier::external_type_specification]
#[verifier::external_body]
pub struct ExHttpError(reqwest::Error);

#[verifier::external_type_specification]
#[verifier::external_body]
pub struct ExInstant(std::time::Instant);

/// Whether a character sequence is a well-formed JSON document: a property of
/// the characters alone.
pub uninterp spec fn json_parses(s: Seq<char>) -> bool;

/// The JSON document a character sequence parses to; meaningful only when
/// `json_parses` holds. `parse_json` is the only producer.
pub uninterp spec fn json_of(s: Seq<char>) -> serde_json::Value;

/// The member a JSON value holds under a key, when it is an object with that
/// key. `Value::get` is the only producer.
pub uninterp spec fn json_member(v: serde_json::Value, key: Seq<char>) -> Option<serde_json::Value>;

/// The elements of a JSON value, when it is an array. `Value::as_array` is
/// the only producer.
pub uninterp spec fn json_elements(v: serde_json::Value) -> Option<Seq<serde_json::Value>>;

/// The characters of a JSON value, when it is a string. `Value::as_str` is
/// the only producer.
pub uninterp spec fn json_str(v: serde_json::Value) -> Option<Seq<char>>;

/// The value of a JSON number as a u64, when it is one in range.
/// `Value::as_u64` is the only producer.
pub uninterp spec fn json_u64_of(v: serde_json::Value) -> Option<u64>;

/// The value of a JSON number as an i64, when it is one in range.
/// `Value::as_i64` is the only producer.
pub uninterp spec fn json_i64_of(v: serde_json::Value) -> Option<i64>;

/// The value of a JSON boolean. `Value::as_bool` is the only producer.
pub uninterp spec fn json_bool_of(v: serde_json::Value) -> Option<bool>;

/// Relies on `serde_json::from_str`: parses a JSON document; both whether the
/// parse succeeds and the parsed document depend on the characters alone.
#[verifier::external_body]
fn parse_json(s: &str) -> (r: Result<serde_json::Value, serde_json::Error>)
    ensures
        r is Ok <==> json_parses(s@),
        r matches Ok(v) ==> v == json_of(s@),
{
    serde_json::from_str(s)
}

/// Relies on `serde_json::Value::get`: the member of a JSON object under a
/// key, a pure function of the value's structure.
#[verifier::external_body]
fn json_get<'a>(v: &'a serde_json::Value, key: &str) -> (r: Option<&'a serde_json::Value>)
    ensures
        match r {
            Some(m) => json_member(*v, key@) == Some(*m),
            None => json_member(*v, key@) is None,
        },
{
    v.get(key)
}

/// Relies on `serde_json::Value::as_array`: the elements, exactly when the
/// value is an array.
pub assume_specification[ serde_json::Value::as_array ](v: &serde_json::Value) -> (r: Option<
    &Vec<serde_json::Value>,
>)
    ensures
        match r {
            Some(a) => json_elements(*v) == Some(a@),
            None => json_elements(*v) is None,
        },
;

/// Relies on `serde_json::Value::as_str`: the characters, exactly when the
/// value is a string.
pub assume_specification[ serde_json::Value::as_str ](v: &serde_json::Value) -> (r: Option<&str>)
    ensures
        match r {
            Some(s) => json_str(*v) == Some(s@),
            None => json_str(*v) is None,
        },
;

/// Relies on `serde_json::Value::as_u64`: the value as a u64, exactly when it
/// is an integer in range.
pub assume_specification[ serde_json::Value::as_u64 ](v: &serde_json::Value) -> (r: Option<u64>)
    ensures
        match r {
            Some(n) => json_u64_of(*v) == Some(n),
            None => json_u64_of(*v) is None,
        },
;

/// Relies on `serde_json::Value::as_i64`: the value as an i64, exactly when it
/// is an integer in range.
pub assume_specification[ serde_json::Value::as_i64 ](v: &serde_json::Value) -> (r: Option<i64>)
    ensures
        match r {
            Some(n) => json_i64_of(*v) == Some(n),
            None => json_i64_of(*v) is None,
        },
;

/// Relies on `serde_json::Value::as_bool`: the value, exactly when it is a
/// boolean.
pub assume_specification[ serde_json::Value::as_bool ](v: &serde_json::Value) -> (r: Option<bool>)
    ensures
        match r {
            Some(b) => json_bool_of(*v) == Some(b),
            None => json_bool_of(*v) is None,
        },
;

/// Relies on `reqwest::blocking::Client::new`: a client with default
/// settings. Nothing is assumed of it; it aborts only when the client cannot
/// be built at all or is constructed inside an async runtime, an
/// environmental failure no input can reach.
#[verifier::external_body]
fn new_http_client() -> reqwest::blocking::Client {
    reqwest::blocking::Client::new()
}

/// Relies on `reqwest::blocking::Client::get`, `RequestBuilder::send`,
/// `Response::error_for_status` and `Response::text`: one blocking GET of
/// `url`, failing on transport errors and on non-success status codes. The
/// response comes from the network, so nothing is assumed of the text.
#[verifier::external_body]
fn http_get_text(client: &reqwest::blocking::Client, url: &str) -> Result<String, reqwest::Error> {
    client.get(url).send()?.error_for_status()?.text()
}

/// Relies on `std::time::Instant::now`: the current instant of the monotonic
/// clock. Nothing is assumed of it.
pub assume_specification[ std::time::Instant::now ]() -> std::time::Instant;

/// Relies on `std::time::Instant::elapsed`: the time since `i`. Time passes
/// outside the program, so nothing is assumed of it.
pub assume_specification[ std::time::Instant::elapsed ](i: &std::time::Instant) -> core::time::Duration;

/// Relies on `core::time::Duration::as_secs`: the duration in whole seconds.
pub assume_specification[ core::time::Duration::as_secs ](d: &core::time::Duration) -> u64;


/// The decoded fields of one raw item, at the specification level.
pub struct RawItemModel {
    pub title: Seq<char>,
    pub link: Seq<char>,
    pub tags: Seq<Seq<char>>,
    pub answer_count: u32,
    pub body: Seq<char>,
}

/// The decoded envelope, at the specification level.
pub struct PageModel {
    pub items: Seq<RawItemModel>,
    pub has_more: bool,
    pub quota_max: i32,
    pub quota_remaining: i32,
}

/// The string member of a JSON object under `key`, when both exist.
pub open spec fn spec_member_str(v: serde_json::Value, key: Seq<char>) -> Option<Seq<char>> {
    match json_member(v, key) {
        Some(m) => json_str(m),
        None => None,
    }
}

/// The boolean member of a JSON object under `key`, when both exist.
pub open spec fn spec_member_bool(v: serde_json::Value, key: Seq<char>) -> Option<bool> {
    match json_member(v, key) {
        Some(m) => json_bool_of(m),
        None => None,
    }
}

/// The i32 member of a JSON object under `key`, when it exists and is in
/// range.
pub open spec fn spec_member_i32(v: serde_json::Value, key: Seq<char>) -> Option<i32> {
    match json_member(v, key) {
        Some(m) => match json_i64_of(m) {
            Some(n) => if i32::MIN <= n <= i32::MAX {
                Some(n as i32)
            } else {
                None
            },
            None => None,
        },
        None => None,
    }
}

/// The u32 member of a JSON object under `key`, when it exists and is in
/// range.
pub open spec fn spec_member_u32(v: serde_json::Value, key: Seq<char>) -> Option<u32> {
    match json_member(v, key) {
        Some(m) => match json_u64_of(m) {
            Some(n) => if n <= u32::MAX {
                Some(n as u32)
            } else {
                None
            },
            None => None,
        },
        None => None,
    }
}

/// Every element is a JSON string.
pub open spec fn all_strings(es: Seq<serde_json::Value>) -> bool {
    forall|i: int| 0 <= i < es.len() ==> json_str(#[trigger] es[i]) is Some
}

/// The characters of each element, in order.
pub open spec fn strings_of(es: Seq<serde_json::Value>) -> Seq<Seq<char>> {
    Seq::new(es.len(), |i: int| json_str(es[i]).unwrap())
}

/// The string-array member of a JSON object under `key`, when it exists and
/// every element is a string.
pub open spec fn spec_member_strings(v: serde_json::Value, key: Seq<char>) -> Option<
    Seq<Seq<char>>,
> {
    match json_member(v, key) {
        Some(m) => match json_elements(m) {
            Some(es) => if all_strings(es) {
                Some(strings_of(es))
            } else {
                None
            },
            None => None,
        },
        None => None,
    }
}

/// The item model a JSON value decodes to, when it carries every required
/// member with the right type.
pub open spec fn spec_item(v: serde_json::Value) -> Option<RawItemModel> {
    match spec_member_str(v, "title"@) {
        Some(title) => match spec_member_str(v, "link"@) {
            Some(link) => match spec_member_str(v, "body"@) {
                Some(body) => match spec_member_strings(v, "tags"@) {
                    Some(tags) => match spec_member_u32(v, "answer_count"@) {
                        Some(answer_count) => Some(
                            RawItemModel { title, link, tags, answer_count, body },
                        ),
                        None => None,
                    },
                    None => None,
                },
                None => None,
            },
            None => None,
        },
        None => None,
    }
}

/// Every element decodes as an item.
pub open spec fn all_items(es: Seq<serde_json::Value>) -> bool {
    forall|i: int| 0 <= i < es.len() ==> spec_item(#[trigger] es[i]) is Some
}

/// The item models of each element, in order.
pub open spec fn items_of(es: Seq<serde_json::Value>) -> Seq<RawItemModel> {
    Seq::new(es.len(), |i: int| spec_item(es[i]).unwrap())
}

/// The envelope model a JSON document decodes to, when it has the expected
/// shape.
pub open spec fn spec_envelope(v: serde_json::Value) -> Option<PageModel> {
    match json_member(v, "items"@) {
        Some(m) => match json_elements(m) {
            Some(es) => if all_items(es) {
                match spec_member_bool(v, "has_more"@) {
                    Some(has_more) => match spec_member_i32(v, "quota_max"@) {
                        Some(quota_max) => match spec_member_i32(v, "quota_remaining"@) {
                            Some(quota_remaining) => Some(
                                PageModel { items: items_of(es), has_more, quota_max, quota_remaining },
                            ),
                            None => None,
                        },
                        None => None,
                    },
                    None => None,
                }
            } else {
                None
            },
            None => None,
        },
        None => None,
    }
}

/// What a raw page response decodes to: the envelope model when the content
/// is JSON of the expected shape, nothing otherwise.
pub open spec fn spec_page_envelope(s: Seq<char>) -> Option<PageModel> {
    if json_parses(s) {
        spec_envelope(json_of(s))
    } else {
        None
    }
}

/// The decoded raw item carries exactly the model's fields.
pub open spec fn item_matches(d: QuestionDto, m: RawItemModel) -> bool {
    &&& d.title@ == m.title
    &&& d.link@ == m.link
    &&& d.tags.deep_view() == m.tags
    &&& d.answer_count == m.answer_count
    &&& d.body@ == m.body
}

/// The display record is the model's item mapped through the converter.
pub open spec fn record_matches(q: Question, m: RawItemModel) -> bool {
    &&& q.title@ == m.title
    &&& q.link@ == m.link
    &&& q.tags.deep_view() == m.tags
    &&& q.answer_count == m.answer_count
    &&& q.body@ == rendered_of(m.body)
    &&& q.description@ == description_of(rendered_of(m.body))
    &&& q.show_body == false
}

/// The decoded envelope carries exactly the model's items and metadata.
pub open spec fn envelope_matches(d: StackOverflowDto, m: PageModel) -> bool {
    &&& d.items@.len() == m.items.len()
    &&& forall|i: int| 0 <= i < m.items.len() ==> item_matches(#[trigger] d.items@[i], m.items[i])
    &&& d.has_more == m.has_more
    &&& d.quota_max == m.quota_max
    &&& d.quota_remaining == m.quota_remaining
}

/// The records are the models' items mapped through the converter, in order.
pub open spec fn records_match(qs: Seq<Question>, ms: Seq<RawItemModel>) -> bool {
    qs.len() == ms.len() && forall|i: int|
        0 <= i < ms.len() ==> record_matches(#[trigger] qs[i], ms[i])
}

/// Converts one raw item into its display record: every field carries over,
/// except that the body is rendered as plain text, the description becomes the
/// first three rendered lines joined with a period-space separator, and the
/// body starts hidden.
pub fn to_display_record(dto: QuestionDto) -> (q: Question)
    ensures
        q.title == dto.title,
        q.link == dto.link,
        q.tags == dto.tags,
        q.answer_count == dto.answer_count,
        q.body@ == rendered_of(dto.body@),
        q.description@ == description_of(rendered_of(dto.body@)),
        q.show_body == false,
        is_display_record(q),
{
    let body = from_html(dto.body.as_str());
    let description = take_lines_joined(body.as_str(), 3);
    Question {
        title: dto.title,
        link: dto.link,
        tags: dto.tags,
        answer_count: dto.answer_count,
        body,
        description,
        show_body: false,
    }
}

/// The string member of a JSON object under `key`, or a parse failure.
fn decode_string_member(v: &serde_json::Value, key: &str) -> (r: Result<String, PipelineError>)
    ensures
        r matches Ok(s) ==> spec_member_str(*v, key@) == Some(s@),
        r matches Err(e) ==> e == PipelineError::Parse && spec_member_str(*v, key@) is None,
{
    match json_get(v, key) {
        Some(m) => match m.as_str() {
            Some(s) => Ok(s.to_owned()),
            None => Err(PipelineError::Parse),
        },
        None => Err(PipelineError::Parse),
    }
}

/// The array of string members of a JSON object under `key`, or a parse
/// failure.
fn decode_string_list_member(v: &serde_json::Value, key: &str) -> (r: Result<
    Vec<String>,
    PipelineError,
>)
    ensures
        r matches Ok(ts) ==> spec_member_strings(*v, key@) == Some(ts.deep_view()),
        r matches Err(e) ==> e == PipelineError::Parse && spec_member_strings(*v, key@) is None,
{
    let arr = match json_get(v, key) {
        Some(m) => match m.as_array() {
            Some(a) => a,
            None => return Err(PipelineError::Parse),
        },
        None => return Err(PipelineError::Parse),
    };
    let mut out: Vec<String> = Vec::new();
    let mut idx: usize = 0;
    while idx < arr.len()
        invariant
            idx <= arr.len(),
            out@.len() == idx,
            json_member(*v, key@) is Some,
            json_elements(json_member(*v, key@).unwrap()) == Some(arr@),
            forall|j: int| 0 <= j < idx ==> json_str(#[trigger] arr@[j]) is Some,
            forall|j: int| 0 <= j < idx ==> (#[trigger] out@[j])@ == json_str(arr@[j]).unwrap(),
        decreases arr.len() - idx,
    {
        match arr[idx].as_str() {
            Some(s) => out.push(s.to_owned()),
            None => {
                proof {
                    assert(!all_strings(arr@));
                }
                return Err(PipelineError::Parse);
            },
        }
        idx = idx + 1;
    }
    proof {
        assert(all_strings(arr@));
        assert(out.deep_view() =~= strings_of(arr@));
    }
    Ok(out)
}

/// The boolean member of a JSON object under `key`, or a parse failure.
fn decode_bool_member(v: &serde_json::Value, key: &str) -> (r: Result<bool, PipelineError>)
    ensures
        r matches Ok(b) ==> spec_member_bool(*v, key@) == Some(b),
        r matches Err(e) ==> e == PipelineError::Parse && spec_member_bool(*v, key@) is None,
{
    match json_get(v, key) {
        Some(m) => match m.as_bool() {
            Some(b) => Ok(b),
            None => Err(PipelineError::Parse),
        },
        None => Err(PipelineError::Parse),
    }
}

/// The i32 member of a JSON object under `key`, or a parse failure when it is
/// missing or out of range.
fn decode_i32_member(v: &serde_json::Value, key: &str) -> (r: Result<i32, PipelineError>)
    ensures
        r matches Ok(n) ==> spec_member_i32(*v, key@) == Some(n),
        r matches Err(e) ==> e == PipelineError::Parse && spec_member_i32(*v, key@) is None,
{
    match json_get(v, key) {
        Some(m) => match m.as_i64() {
            Some(n) => if i32::MIN as i64 <= n && n <= i32::MAX as i64 {
                Ok(n as i32)
            } else {
                Err(PipelineError::Parse)
            },
            None => Err(PipelineError::Parse),
        },
        None => Err(PipelineError::Parse),
    }
}

/// The u32 member of a JSON object under `key`, or a parse failure when it is
/// missing or out of range.
fn decode_u32_member(v: &serde_json::Value, key: &str) -> (r: Result<u32, PipelineError>)
    ensures
        r matches Ok(n) ==> spec_member_u32(*v, key@) == Some(n),
        r matches Err(e) ==> e == PipelineError::Parse && spec_member_u32(*v, key@) is None,
{
    match json_get(v, key) {
        Some(m) => match m.as_u64() {
            Some(n) => if n <= u32::MAX as u64 {
                Ok(n as u32)
            } else {
                Err(PipelineError::Parse)
            },
            None => Err(PipelineError::Parse),
        },
        None => Err(PipelineError::Parse),
    }
}

/// One raw item decoded from its JSON value.
fn decode_item(v: &serde_json::Value) -> (r: Result<QuestionDto, PipelineError>)
    ensures
        r matches Ok(d) ==> (spec_item(*v) matches Some(m) && item_matches(d, m)),
        r matches Err(e) ==> e == PipelineError::Parse && spec_item(*v) is None,
{
    let title = match decode_string_member(v, "title") {
        Ok(s) => s,
        Err(e) => return Err(e),
    };
    let link = match decode_string_member(v, "link") {
        Ok(s) => s,
        Err(e) => return Err(e),
    };
    let body = match decode_string_member(v, "body") {
        Ok(s) => s,
        Err(e) => return Err(e),
    };
    let tags = match decode_string_list_member(v, "tags") {
        Ok(t) => t,
        Err(e) => return Err(e),
    };
    let answer_count = match decode_u32_member(v, "answer_count") {
        Ok(n) => n,
        Err(e) => return Err(e),
    };
    Ok(QuestionDto { title, link, tags, answer_count, body })
}

/// The page envelope decoded from its JSON value.
fn decode_envelope(v: &serde_json::Value) -> (r: Result<StackOverflowDto, PipelineError>)
    ensures
        r matches Ok(d) ==> (spec_envelope(*v) matches Some(m) && envelope_matches(d, m)),
        r matches Err(e) ==> e == PipelineError::Parse && spec_envelope(*v) is None,
{
    let arr = match json_get(v, "items") {
        Some(m) => match m.as_array() {
            Some(a) => a,
            None => return Err(PipelineError::Parse),
        },
        None => return Err(PipelineError::Parse),
    };
    let mut items: Vec<QuestionDto> = Vec::new();
    let mut idx: usize = 0;
    while idx < arr.len()
        invariant
            idx <= arr.len(),
            items@.len() == idx,
            json_member(*v, "items"@) is Some,
            json_elements(json_member(*v, "items"@).unwrap()) == Some(arr@),
            forall|j: int| 0 <= j < idx ==> spec_item(#[trigger] arr@[j]) is Some,
            forall|j: int| 0 <= j < idx ==> item_matches(
                #[trigger] items@[j],
                spec_item(arr@[j]).unwrap(),
            ),
        decreases arr.len() - idx,
    {
        match decode_item(&arr[idx]) {
            Ok(item) => items.push(item),
            Err(e) => {
                proof {
                    assert(!all_items(arr@));
                }
                return Err(e);
            },
        }
        idx = idx + 1;
    }
    proof {
        assert(all_items(arr@));
    }
    let has_more = match decode_bool_member(v, "has_more") {
        Ok(b) => b,
        Err(e) => return Err(e),
    };
    let quota_max = match decode_i32_member(v, "quota_max") {
        Ok(n) => n,
        Err(e) => return Err(e),
    };
    let quota_remaining = match decode_i32_member(v, "quota_remaining") {
        Ok(n) => n,
        Err(e) => return Err(e),
    };
    Ok(StackOverflowDto { items, has_more, quota_max, quota_remaining })
}

/// Decodes a raw page response into the envelope: the result is `Ok` exactly
/// when the content is JSON of the expected shape, and then carries the
/// decoded items and metadata; anything else is the parse failure.
pub fn parse_envelope(content: &str) -> (r: Result<StackOverflowDto, PipelineError>)
    ensures
        r matches Ok(d) ==> (spec_page_envelope(content@) matches Some(m) && envelope_matches(
            d,
            m,
        )),
        r matches Err(e) ==> e == PipelineError::Parse && spec_page_envelope(content@) is None,
{
    let v = match parse_json(content) {
        Ok(v) => v,
        Err(_) => return Err(PipelineError::Parse),
    };
    decode_envelope(&v)
}

/// Decodes a raw page response and converts every item for display: the
/// result is `Ok` exactly when the content decodes as the envelope, and then
/// holds the envelope's items mapped through the converter, in order.
pub fn parse_page(content: &str) -> (r: Result<Vec<Question>, PipelineError>)
    ensures
        r matches Ok(qs) ==> (spec_page_envelope(content@) matches Some(m) && records_match(
            qs@,
            m.items,
        )),
        r matches Ok(qs) ==> forall|i: int|
            0 <= i < qs@.len() ==> is_display_record(#[trigger] qs@[i]),
        r matches Err(e) ==> e == PipelineError::Parse && spec_page_envelope(content@) is None,
{
    let mut dto = match parse_envelope(content) {
        Ok(d) => d,
        Err(e) => return Err(e),
    };
    let ghost m = spec_page_envelope(content@).unwrap();
    let mut out: Vec<Question> = Vec::new();
    while dto.items.len() > 0
        invariant
            out@.len() + dto.items@.len() == m.items.len(),
            forall|j: int| 0 <= j < out@.len() ==> record_matches(#[trigger] out@[j], m.items[j]),
            forall|j: int| 0 <= j < dto.items@.len() ==> item_matches(
                #[trigger] dto.items@[j],
                m.items[out@.len() + j],
            ),
            forall|i: int| 0 <= i < out@.len() ==> is_display_record(#[trigger] out@[i]),
            spec_page_envelope(content@) == Some(m),
        decreases dto.items.len(),
    {
        let ghost old_items = dto.items@;
        let ghost k = out@.len();
        let item = dto.items.remove(0);
        proof {
            assert(item_matches(item, m.items[k as int]));
            assert forall|j: int| 0 <= j < dto.items@.len() implies item_matches(
                #[trigger] dto.items@[j],
                m.items[k + 1 + j],
            ) by {
                assert(dto.items@[j] == old_items[j + 1]);
            }
        }
        out.push(to_display_record(item));
    }
    proof {
        assert(records_match(out@, m.items));
    }
    Ok(out)
}

/// Decimal digit characters.
pub open spec fn digit_char(d: nat) -> char {
    if d == 0 {
        '0'
    } else if d == 1 {
        '1'
    } else if d == 2 {
        '2'
    } else if d == 3 {
        '3'
    } else if d == 4 {
        '4'
    } else if d == 5 {
        '5'
    } else if d == 6 {
        '6'
    } else if d == 7 {
        '7'
    } else if d == 8 {
        '8'
    } else {
        '9'
    }
}

/// The decimal notation of `n`.
pub open spec fn spec_decimal(n: nat) -> Seq<char>
    decreases n,
{
    if n < 10 {
        seq![digit_char(n)]
    } else {
        spec_decimal(n / 10) + seq![digit_char(n % 10)]
    }
}

/// One decimal digit as a string slice.
fn digit_str(d: u8) -> (r: &'static str)
    requires
        d < 10,
    ensures
        r@ == seq![digit_char(d as nat)],
{
    proof {
        reveal_strlit("0");
        reveal_strlit("1");
        reveal_strlit("2");
        reveal_strlit("3");
        reveal_strlit("4");
        reveal_strlit("5");
        reveal_strlit("6");
        reveal_strlit("7");
        reveal_strlit("8");
        reveal_strlit("9");
    }
    match d {
        0 => "0",
        1 => "1",
        2 => "2",
        3 => "3",
        4 => "4",
        5 => "5",
        6 => "6",
        7 => "7",
        8 => "8",
        _ => "9",
    }
}

/// Appends the decimal notation of `n` to `out`.
fn push_decimal(out: &mut String, n: u8)
    ensures
        final(out)@ == old(out)@ + spec_decimal(n as nat),
    decreases n,
{
    if n >= 10 {
        push_decimal(out, n / 10);
        out.append(digit_str(n % 10));
        proof {
            assert(final(out)@ =~= old(out)@ + spec_decimal(n as nat));
        }
    } else {
        out.append(digit_str(n));
        proof {
            assert(final(out)@ =~= old(out)@ + spec_decimal(n as nat));
        }
    }
}

/// The request key for one page: the fixed unanswered-questions endpoint and
/// query below the base URL, with the page number.
pub open spec fn page_url(base: Seq<char>, page: u8) -> Seq<char> {
    base
        + "2.3/questions/unanswered?order=desc&sort=activity&site=stackoverflow&filter=!6VCr095Ee9eW)AbNMHD5dNZ4Q&page="@
        + spec_decimal(page as nat)
}

/// Builds the request key for one page.
pub fn build_page_url(base: &str, page: u8) -> (r: String)
    ensures
        r@ == page_url(base@, page),
{
    let mut url = base.to_owned();
    url.append(
        "2.3/questions/unanswered?order=desc&sort=activity&site=stackoverflow&filter=!6VCr095Ee9eW)AbNMHD5dNZ4Q&page=",
    );
    push_decimal(&mut url, page);
    proof {
        assert(url@ =~= page_url(base@, page));
    }
    url
}

/// Fetches pages of unanswered questions over HTTP, caching raw responses and
/// converting items for display.
pub struct StackOverflowClient {
    pub client: reqwest::blocking::Client,
    pub base_url: String,
    pub cache: ResponseCache,
    pub epoch: std::time::Instant,
}

impl StackOverflowClient {
    /// The cache accepts every store.
    pub open spec fn wf(self) -> bool {
        self.cache.wf()
    }

    pub fn new(base_url: String) -> (c: StackOverflowClient)
        ensures
            c.wf(),
            c.base_url == base_url,
            c.cache@ =~= Map::empty(),
    {
        StackOverflowClient {
            client: new_http_client(),
            base_url,
            cache: ResponseCache::new(),
            epoch: std::time::Instant::now(),
        }
    }

    pub fn default() -> (c: StackOverflowClient)
        ensures
            c.wf(),
            c.base_url@ == "https://api.stackexchange.com/"@,
            c.cache@ =~= Map::empty(),
    {
        StackOverflowClient::new("https://api.stackexchange.com/".to_owned())
    }

    /// Whole seconds since the client was created; the lazily evaluated
    /// timestamp all cache freshness decisions use.
    fn now_secs(&self) -> u64 {
        self.epoch.elapsed().as_secs()
    }

    /// One raw page response: on a cache hit within the freshness window the
    /// cached content, and the cache is untouched; otherwise the fetched
    /// content, which is stored with fetch time `now` on success; a fetch
    /// failure leaves the cache unchanged.
    fn make_cached_request(&mut self, url: &str, now: u64) -> (r: Result<String, PipelineError>)
        requires
            old(self).wf(),
        ensures
            final(self).wf(),
            final(self).base_url == old(self).base_url,
            final(self).client == old(self).client,
            final(self).epoch == old(self).epoch,
            match r {
                Ok(content) => if fresh_at(old(self).cache@, url@, now) {
                    final(self).cache@ == old(self).cache@ && content@ == old(self).cache@[url@].0
                } else {
                    final(self).cache@ == old(self).cache@.insert(url@, (content@, now))
                },
                Err(e) => e == PipelineError::Fetch && !fresh_at(old(self).cache@, url@, now)
                    && final(self).cache@ == old(self).cache@,
            },
    {
        if let Some(content) = self.cache.lookup(url, now) {
            return Ok(content);
        }
        match http_get_text(&self.client, url) {
            Ok(content) => {
                self.cache.store(url, content.clone(), now);
                Ok(content)
            },
            Err(_) => Err(PipelineError::Fetch),
        }
    }

    /// One page of display records, through the cache. On success the records
    /// are the decoded items of the raw response now resident under this
    /// page's request key, in order, mapped through the converter; the cache
    /// either kept its contents or gained that response. A fetch failure
    /// leaves the cache unchanged; a response that does not decode as the
    /// envelope is the parse failure.
    pub fn get_unanswered_questions(&mut self, page: u8) -> (r: Result<Vec<Question>, PipelineError>)
        requires
            old(self).wf(),
        ensures
            final(self).wf(),
            final(self).base_url == old(self).base_url,
            final(self).client == old(self).client,
            final(self).epoch == old(self).epoch,
            final(self).cache@ == old(self).cache@ || exists|c: Seq<char>, t: u64|
                final(self).cache@ == old(self).cache@.insert(
                    #[trigger] page_url(old(self).base_url@, page),
                    (c, t),
                ),
            r matches Ok(qs) ==> forall|i: int|
                0 <= i < qs@.len() ==> is_display_record(#[trigger] qs@[i]),
            r matches Ok(qs) ==> ({
                let url = page_url(old(self).base_url@, page);
                final(self).cache@.contains_key(url) && (spec_page_envelope(
                    final(self).cache@[url].0,
                ) matches Some(m) && records_match(qs@, m.items))
            }),
            r matches Err(e) ==> (e == PipelineError::Fetch || e == PipelineError::Parse),
            r matches Err(e) && e == PipelineError::Fetch ==> final(self).cache@ == old(
                self,
            ).cache@,
            r matches Err(e) && e == PipelineError::Parse ==> ({
                let url = page_url(old(self).base_url@, page);
                final(self).cache@.contains_key(url) && spec_page_envelope(
                    final(self).cache@[url].0,
                ) is None
            }),
    {
        let now = self.now_secs();
        let url = build_page_url(self.base_url.as_str(), page);
        let content = match self.make_cached_request(url.as_str(), now) {
            Ok(c) => c,
            Err(e) => return Err(e),
        };
        proof {
            assert(self.cache@.contains_key(url@));
            assert(self.cache@[url@].0 == content@);
        }
        parse_page(content.as_str())
    }
}

} // verus!
