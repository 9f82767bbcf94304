use crate::date::{normalized, Timestamp, TimestampView};
use crate::http::{is_success, HttpResponse, NetworkError};
use crate::item::{Field, Issue, IssueView, MergeRequest, MergeRequestView, Requirement, RequirementView, WorkItem};
use crate::json::{find_member, json_parse, member, parse, JsonValue, SyntaxError};
use vstd::prelude::*;

verus! {

/// Why an element of a response is no work item of the kind asked for.
#[derive(Clone, Copy, Debug, PartialEq, Eq, Structural)]
pub enum DecodeCause {
    /// The element is no JSON object.
    NotAnObject,
    /// The object lacks the field.
    Missing(Field),
    /// The field holds something other than a string.
    NotText(Field),
    /// The field holds something other than an integer.
    NotInteger(Field),
    /// The field holds an integer that does not fit 32 bits.
    OutOfRange(Field),
    /// An earlier element of the response has the same id.
    DuplicateId,
}

/// Why a fetch gave no collection.
#[derive(Clone, Copy, Debug, PartialEq, Eq, Structural)]
pub enum FetchError {
    /// No response came back.
    Network(NetworkError),
    /// The response came with a status outside 200 to 299.
    Http(u16),
    /// The body is not JSON.
    Syntax(SyntaxError),
    /// The body is JSON but no array.
    NotAnArray,
    /// The element at the position is no work item of the kind asked for.
    Decode(usize, DecodeCause),
}

impl FetchError {
    /// Whether sending the same request again may help: after a transport
    /// failure only, never after an answer of the server.
    pub fn is_transient(&self) -> (r: bool)
        ensures
            r == (*self is Network),
    {
        match self {
            FetchError::Network(_) => true,
            _ => false,
        }
    }
}

/// The string that an object holds in a field.
pub open spec fn text_in(members: Seq<(String, JsonValue)>, field: Field) -> Result<
    Seq<char>,
    DecodeCause,
> {
    match member(members, field.name_of()) {
        None => Err(DecodeCause::Missing(field)),
        Some(JsonValue::Text(text)) => Ok(text@),
        Some(_) => Err(DecodeCause::NotText(field)),
    }
}

/// The string that an object holds in a field that may be left out or null.
pub open spec fn optional_text_in(members: Seq<(String, JsonValue)>, field: Field) -> Result<
    Option<Seq<char>>,
    DecodeCause,
> {
    match member(members, field.name_of()) {
        None => Ok(None),
        Some(JsonValue::Null) => Ok(None),
        Some(JsonValue::Text(text)) => Ok(Some(text@)),
        Some(_) => Err(DecodeCause::NotText(field)),
    }
}

/// The timestamp that an object holds, as a string, in a field: in its
/// normal form, whatever the spelling of the string.
pub open spec fn timestamp_in(members: Seq<(String, JsonValue)>, field: Field) -> Result<
    TimestampView,
    DecodeCause,
> {
    match text_in(members, field) {
        Ok(text) => Ok(normalized(text)),
        Err(cause) => Err(cause),
    }
}

/// The timestamp that an object holds, as a string, in a field that may be
/// left out or null.
pub open spec fn optional_timestamp_in(members: Seq<(String, JsonValue)>, field: Field) -> Result<
    Option<TimestampView>,
    DecodeCause,
> {
    match optional_text_in(members, field) {
        Ok(Some(text)) => Ok(Some(normalized(text))),
        Ok(None) => Ok(None),
        Err(cause) => Err(cause),
    }
}

/// The 32-bit integer that an object holds in a field.
pub open spec fn integer_in(members: Seq<(String, JsonValue)>, field: Field) -> Result<
    int,
    DecodeCause,
> {
    match member(members, field.name_of()) {
        None => Err(DecodeCause::Missing(field)),
        Some(JsonValue::Number(Some(n))) => if i32::MIN <= n <= i32::MAX {
            Ok(n as int)
        } else {
            Err(DecodeCause::OutOfRange(field))
        },
        Some(_) => Err(DecodeCause::NotInteger(field)),
    }
}

/// The string that an object holds in a field.
pub fn text_member(members: &Vec<(String, JsonValue)>, field: Field) -> (r: Result<
    String,
    DecodeCause,
>)
    ensures
        match r {
            Ok(text) => text_in(members@, field) == Ok::<Seq<char>, DecodeCause>(text@),
            Err(cause) => text_in(members@, field) == Err::<Seq<char>, DecodeCause>(cause),
        },
{
    match find_member(members, field.name()) {
        None => Err(DecodeCause::Missing(field)),
        Some(JsonValue::Text(text)) => Ok(text.clone()),
        Some(_) => Err(DecodeCause::NotText(field)),
    }
}

/// The timestamp that an object holds, as a string, in a field, normalised.
pub fn timestamp_member(members: &Vec<(String, JsonValue)>, field: Field) -> (r: Result<
    Timestamp,
    DecodeCause,
>)
    ensures
        match r {
            Ok(at) => timestamp_in(members@, field) == Ok::<TimestampView, DecodeCause>(at@),
            Err(cause) => timestamp_in(members@, field) == Err::<TimestampView, DecodeCause>(
                cause,
            ),
        },
{
    match text_member(members, field) {
        Ok(text) => Ok(Timestamp::normalize(text.as_str())),
        Err(cause) => Err(cause),
    }
}

/// The timestamp that an object holds, as a string, in a field that may be
/// left out or null, normalised.
pub fn optional_timestamp_member(members: &Vec<(String, JsonValue)>, field: Field) -> (r: Result<
    Option<Timestamp>,
    DecodeCause,
>)
    ensures
        match r {
            Ok(Some(at)) => optional_timestamp_in(members@, field) == Ok::<
                Option<TimestampView>,
                DecodeCause,
            >(Some(at@)),
            Ok(None) => optional_timestamp_in(members@, field) == Ok::<
                Option<TimestampView>,
                DecodeCause,
            >(None),
            Err(cause) => optional_timestamp_in(members@, field) == Err::<
                Option<TimestampView>,
                DecodeCause,
            >(cause),
        },
{
    match find_member(members, field.name()) {
        None => Ok(None),
        Some(JsonValue::Null) => Ok(None),
        Some(JsonValue::Text(text)) => Ok(Some(Timestamp::normalize(text.as_str()))),
        Some(_) => Err(DecodeCause::NotText(field)),
    }
}

/// The 32-bit integer that an object holds in a field.
pub fn integer_member(members: &Vec<(String, JsonValue)>, field: Field) -> (r: Result<
    i32,
    DecodeCause,
>)
    ensures
        match r {
            Ok(n) => integer_in(members@, field) == Ok::<int, DecodeCause>(n as int),
            Err(cause) => integer_in(members@, field) == Err::<int, DecodeCause>(cause),
        },
{
    match find_member(members, field.name()) {
        None => Err(DecodeCause::Missing(field)),
        Some(JsonValue::Number(Some(n))) => {
            if -2147483648 <= *n && *n <= 2147483647 {
                Ok(*n as i32)
            } else {
                Err(DecodeCause::OutOfRange(field))
            }
        },
        Some(_) => Err(DecodeCause::NotInteger(field)),
    }
}

/// Whether a decoding came out as expected: the same failure, or an item
/// with the expected contents.
pub open spec fn same_outcome<T: View>(r: Result<T, DecodeCause>, expected: Result<
    T::V,
    DecodeCause,
>) -> bool {
    match r {
        Ok(item) => expected == Ok::<T::V, DecodeCause>(item@),
        Err(cause) => expected == Err::<T::V, DecodeCause>(cause),
    }
}

/// A kind of work item that is read from a JSON object.
pub trait Schema: WorkItem + View + Sized {
    /// The item that the members of an object make up, or why they make up
    /// none: of the fields in their order, the first that is missing or
    /// holds the wrong kind of value decides.
    spec fn decoded(members: Seq<(String, JsonValue)>) -> Result<Self::V, DecodeCause>;

    /// The id of an item.
    spec fn id_in(contents: Self::V) -> Seq<char>;

    fn decode(members: &Vec<(String, JsonValue)>) -> (r: Result<Self, DecodeCause>)
        ensures
            same_outcome(r, Self::decoded(members@)),
    ;

    fn id(&self) -> (r: &str)
        ensures
            r@ == Self::id_in(self@),
    ;
}

impl Schema for MergeRequest {
    open spec fn decoded(members: Seq<(String, JsonValue)>) -> Result<
        MergeRequestView,
        DecodeCause,
    > {
        match text_in(members, Field::Id) {
            Err(c) => Err(c),
            Ok(id) => match text_in(members, Field::Title) {
                Err(c) => Err(c),
                Ok(title) => match text_in(members, Field::Author) {
                    Err(c) => Err(c),
                    Ok(author) => match timestamp_in(members, Field::CreatedAt) {
                        Err(c) => Err(c),
                        Ok(created_at) => match integer_in(members, Field::Additions) {
                            Err(c) => Err(c),
                            Ok(additions) => match integer_in(members, Field::Deletions) {
                                Err(c) => Err(c),
                                Ok(deletions) => match text_in(members, Field::Status) {
                                    Err(c) => Err(c),
                                    Ok(status) => Ok(
                                        MergeRequestView {
                                            id,
                                            title,
                                            author,
                                            created_at,
                                            additions,
                                            deletions,
                                            status,
                                        },
                                    ),
                                },
                            },
                        },
                    },
                },
            },
        }
    }

    open spec fn id_in(contents: MergeRequestView) -> Seq<char> {
        contents.id
    }

    fn decode(members: &Vec<(String, JsonValue)>) -> (r: Result<Self, DecodeCause>) {
        let id = match text_member(members, Field::Id) {
            Ok(v) => v,
            Err(c) => return Err(c),
        };
        let title = match text_member(members, Field::Title) {
            Ok(v) => v,
            Err(c) => return Err(c),
        };
        let author = match text_member(members, Field::Author) {
            Ok(v) => v,
            Err(c) => return Err(c),
        };
        let created_at = match timestamp_member(members, Field::CreatedAt) {
            Ok(v) => v,
            Err(c) => return Err(c),
        };
        let additions = match integer_member(members, Field::Additions) {
            Ok(v) => v,
            Err(c) => return Err(c),
        };
        let deletions = match integer_member(members, Field::Deletions) {
            Ok(v) => v,
            Err(c) => return Err(c),
        };
        let status = match text_member(members, Field::Status) {
            Ok(v) => v,
            Err(c) => return Err(c),
        };
        Ok(MergeRequest { id, title, author, created_at, additions, deletions, status })
    }

    fn id(&self) -> (r: &str) {
        self.id.as_str()
    }
}

impl Schema for Issue {
    open spec fn decoded(members: Seq<(String, JsonValue)>) -> Result<IssueView, DecodeCause> {
        match text_in(members, Field::Id) {
            Err(c) => Err(c),
            Ok(id) => match text_in(members, Field::Title) {
                Err(c) => Err(c),
                Ok(title) => match text_in(members, Field::Severity) {
                    Err(c) => Err(c),
                    Ok(severity) => match text_in(members, Field::Status) {
                        Err(c) => Err(c),
                        Ok(status) => match timestamp_in(members, Field::CreatedAt) {
                            Err(c) => Err(c),
                            Ok(created_at) => match optional_timestamp_in(members, Field::ResolvedAt) {
                                Err(c) => Err(c),
                                Ok(resolved_at) => match text_in(members, Field::Assignee) {
                                    Err(c) => Err(c),
                                    Ok(assignee) => Ok(
                                        IssueView {
                                            id,
                                            title,
                                            severity,
                                            status,
                                            created_at,
                                            resolved_at,
                                            assignee,
                                        },
                                    ),
                                },
                            },
                        },
                    },
                },
            },
        }
    }

    open spec fn id_in(contents: IssueView) -> Seq<char> {
        contents.id
    }

    fn decode(members: &Vec<(String, JsonValue)>) -> (r: Result<Self, DecodeCause>) {
        let id = match text_member(members, Field::Id) {
            Ok(v) => v,
            Err(c) => return Err(c),
        };
        let title = match text_member(members, Field::Title) {
            Ok(v) => v,
            Err(c) => return Err(c),
        };
        let severity = match text_member(members, Field::Severity) {
            Ok(v) => v,
            Err(c) => return Err(c),
        };
        let status = match text_member(members, Field::Status) {
            Ok(v) => v,
            Err(c) => return Err(c),
        };
        let created_at = match timestamp_member(members, Field::CreatedAt) {
            Ok(v) => v,
            Err(c) => return Err(c),
        };
        let resolved_at = match optional_timestamp_member(members, Field::ResolvedAt) {
            Ok(v) => v,
            Err(c) => return Err(c),
        };
        let assignee = match text_member(members, Field::Assignee) {
            Ok(v) => v,
            Err(c) => return Err(c),
        };
        Ok(Issue { id, title, severity, status, created_at, resolved_at, assignee })
    }

    fn id(&self) -> (r: &str) {
        self.id.as_str()
    }
}

impl Schema for Requirement {
    open spec fn decoded(members: Seq<(String, JsonValue)>) -> Result<
        RequirementView,
        DecodeCause,
    > {
        match text_in(members, Field::Id) {
            Err(c) => Err(c),
            Ok(id) => match text_in(members, Field::Title) {
                Err(c) => Err(c),
                Ok(title) => match text_in(members, Field::Version) {
                    Err(c) => Err(c),
                    Ok(version) => match text_in(members, Field::TestCycle) {
                        Err(c) => Err(c),
                        Ok(test_cycle) => match timestamp_in(members, Field::StartDate) {
                            Err(c) => Err(c),
                            Ok(start_date) => match timestamp_in(members, Field::EndDate) {
                                Err(c) => Err(c),
                                Ok(end_date) => match text_in(members, Field::Status) {
                                    Err(c) => Err(c),
                                    Ok(status) => match text_in(members, Field::Owner) {
                                        Err(c) => Err(c),
                                        Ok(owner) => Ok(
                                            RequirementView {
                                                id,
                                                title,
                                                version,
                                                test_cycle,
                                                start_date,
                                                end_date,
                                                status,
                                                owner,
                                            },
                                        ),
                                    },
                                },
                            },
                        },
                    },
                },
            },
        }
    }

    open spec fn id_in(contents: RequirementView) -> Seq<char> {
        contents.id
    }

    fn decode(members: &Vec<(String, JsonValue)>) -> (r: Result<Self, DecodeCause>) {
        let id = match text_member(members, Field::Id) {
            Ok(v) => v,
            Err(c) => return Err(c),
        };
        let title = match text_member(members, Field::Title) {
            Ok(v) => v,
            Err(c) => return Err(c),
        };
        let version = match text_member(members, Field::Version) {
            Ok(v) => v,
            Err(c) => return Err(c),
        };
        let test_cycle = match text_member(members, Field::TestCycle) {
            Ok(v) => v,
            Err(c) => return Err(c),
        };
        let start_date = match timestamp_member(members, Field::StartDate) {
            Ok(v) => v,
            Err(c) => return Err(c),
        };
        let end_date = match timestamp_member(members, Field::EndDate) {
            Ok(v) => v,
            Err(c) => return Err(c),
        };
        let status = match text_member(members, Field::Status) {
            Ok(v) => v,
            Err(c) => return Err(c),
        };
        let owner = match text_member(members, Field::Owner) {
            Ok(v) => v,
            Err(c) => return Err(c),
        };
        Ok(Requirement { id, title, version, test_cycle, start_date, end_date, status, owner })
    }

    fn id(&self) -> (r: &str) {
        self.id.as_str()
    }
}

/// The item that one element of a response holds, taken by itself.
pub open spec fn element_decoded<T: Schema>(element: JsonValue) -> Result<T::V, DecodeCause> {
    match element {
        JsonValue::Object(members) => T::decoded(members@),
        _ => Err(DecodeCause::NotAnObject),
    }
}

/// Whether the element at a position holds an item whose id an earlier
/// element has too.
pub open spec fn repeats_an_id<T: Schema>(elements: Seq<JsonValue>, at: int) -> bool {
    exists|earlier: int|
        0 <= earlier < at && shares_id::<T>(#[trigger] elements[earlier], elements[at])
}

/// Whether two elements hold items of one id.
pub open spec fn shares_id<T: Schema>(one: JsonValue, other: JsonValue) -> bool {
    match (element_decoded::<T>(one), element_decoded::<T>(other)) {
        (Ok(a), Ok(b)) => T::id_in(a) == T::id_in(b),
        _ => false,
    }
}

/// The item that the element at a position gives within its response: the
/// item it holds, unless an earlier element has the same id.
pub open spec fn element_outcome<T: Schema>(elements: Seq<JsonValue>, at: int) -> Result<
    T::V,
    DecodeCause,
> {
    match element_decoded::<T>(elements[at]) {
        Err(cause) => Err(cause),
        Ok(contents) => if repeats_an_id::<T>(elements, at) {
            Err(DecodeCause::DuplicateId)
        } else {
            Ok(contents)
        },
    }
}

/// Whether `r` is what the elements of a response decode to: every item
/// where each element gives one, and else the position and the cause of the
/// first element that gives none.
pub open spec fn decodes_elements<T: Schema>(
    r: Result<Vec<T>, FetchError>,
    elements: Seq<JsonValue>,
) -> bool {
    match r {
        Ok(items) => {
            &&& items@.len() == elements.len()
            &&& forall|i: int|
                0 <= i < elements.len() ==> #[trigger] element_outcome::<T>(elements, i) == Ok::<
                    T::V,
                    DecodeCause,
                >(items@[i]@)
        },
        Err(FetchError::Decode(at, cause)) => {
            &&& at < elements.len()
            &&& element_outcome::<T>(elements, at as int) == Err::<T::V, DecodeCause>(cause)
            &&& forall|i: int| 0 <= i < at ==> (#[trigger] element_outcome::<T>(elements, i)) is Ok
        },
        Err(_) => false,
    }
}

/// Whether `r` is what a document decodes to: `NotAnArray` for a document
/// that is no array, else what its elements decode to.
pub open spec fn decodes_document<T: Schema>(
    r: Result<Vec<T>, FetchError>,
    document: JsonValue,
) -> bool {
    match document {
        JsonValue::Array(elements) => decodes_elements(r, elements@),
        _ => r matches Err(e) && e == FetchError::NotAnArray,
    }
}

/// Whether `r` is what a parsed body decodes to: the place of the syntax
/// error for a body that is not JSON, else what the document decodes to.
pub open spec fn decodes_parsed<T: Schema>(
    r: Result<Vec<T>, FetchError>,
    parsed: Result<JsonValue, SyntaxError>,
) -> bool {
    match parsed {
        Ok(document) => decodes_document(r, document),
        Err(place) => r matches Err(e) && e == FetchError::Syntax(place),
    }
}

/// Whether `r` is what the reply to a fetch gives: the transport failure, the
/// status where it is outside 200 to 299, else what the body decodes to.
pub open spec fn decodes_reply<T: Schema>(
    r: Result<Vec<T>, FetchError>,
    reply: Result<HttpResponse, NetworkError>,
) -> bool {
    match reply {
        Err(failure) => r matches Err(e) && e == FetchError::Network(failure),
        Ok(response) => if is_success(response.status) {
            decodes_parsed(r, json_parse(response.body@))
        } else {
            r matches Err(e) && e == FetchError::Http(response.status)
        },
    }
}

/// Where one element alone is no item of the kind asked for, and no element
/// before it repeats an id, the decoding fails at the position of that
/// element and with its cause: no collection comes back, whole or partial.
pub proof fn lemma_one_malformed_element<T: Schema>(
    r: Result<Vec<T>, FetchError>,
    elements: Seq<JsonValue>,
    at: int,
)
    requires
        decodes_elements(r, elements),
        0 <= at < elements.len(),
        element_decoded::<T>(elements[at]) is Err,
        forall|i: int|
            0 <= i < elements.len() && i != at ==> (#[trigger] element_decoded::<T>(
                elements[i],
            )) is Ok,
        forall|i: int| 0 <= i < at ==> !#[trigger] repeats_an_id::<T>(elements, i),
    ensures
        r matches Err(FetchError::Decode(position, cause)) && position == at && element_decoded::<
            T,
        >(elements[at]) == Err::<T::V, DecodeCause>(cause),
{
    match r {
        Err(FetchError::Decode(position, _)) => {
            if position > at {
                assert(element_outcome::<T>(elements, at) is Ok);
            }
        },
        _ => {},
    }
}

/// Whether one of the items has the id.
fn has_id<T: Schema>(items: &Vec<T>, id: &str) -> (r: bool)
    ensures
        r == exists|k: int| 0 <= k < items@.len() && T::id_in(#[trigger] items@[k]@) == id@,
{
    let mut k: usize = 0;
    while k < items.len()
        invariant
            k <= items.len(),
            forall|j: int| 0 <= j < k ==> T::id_in(#[trigger] items@[j]@) != id@,
        decreases items.len() - k,
    {
        if items[k].id().eq(id) {
            return true;
        }
        k += 1;
    }
    false
}

/// Decodes the elements of a response into work items of one kind. The first
/// element that is no such item, or that repeats the id of an earlier one,
/// fails the whole call with its position: no shorter collection comes back.
pub fn decode_items<T: Schema>(elements: &Vec<JsonValue>) -> (r: Result<Vec<T>, FetchError>)
    ensures
        decodes_elements(r, elements@),
        r matches Ok(items) ==> forall|i: int, j: int|
            0 <= i < j < items@.len() ==> T::id_in(#[trigger] items@[i]@) != T::id_in(
                #[trigger] items@[j]@,
            ),
{
    let mut items: Vec<T> = Vec::new();
    let mut at: usize = 0;
    while at < elements.len()
        invariant
            at <= elements.len(),
            items@.len() == at,
            forall|i: int|
                0 <= i < at ==> #[trigger] element_outcome::<T>(elements@, i) == Ok::<
                    T::V,
                    DecodeCause,
                >(items@[i]@),
            forall|i: int, j: int|
                0 <= i < j < at ==> T::id_in(#[trigger] items@[i]@) != T::id_in(
                    #[trigger] items@[j]@,
                ),
        decreases elements.len() - at,
    {
        let decoded = match &elements[at] {
            JsonValue::Object(members) => T::decode(members),
            _ => Err(DecodeCause::NotAnObject),
        };
        let item = match decoded {
            Ok(item) => item,
            Err(cause) => {
                return Err(FetchError::Decode(at, cause));
            },
        };
        let repeated = has_id(&items, item.id());
        proof {
            if repeated {
                let k = choose|k: int|
                    0 <= k < items@.len() && T::id_in(#[trigger] items@[k]@) == T::id_in(item@);
                assert(element_outcome::<T>(elements@, k) == Ok::<T::V, DecodeCause>(items@[k]@));
            } else if repeats_an_id::<T>(elements@, at as int) {
                let k = choose|k: int|
                    0 <= k < at && shares_id::<T>(#[trigger] elements@[k], elements@[at as int]);
                assert(element_outcome::<T>(elements@, k) == Ok::<T::V, DecodeCause>(items@[k]@));
            }
        }
        if repeated {
            return Err(FetchError::Decode(at, DecodeCause::DuplicateId));
        }
        items.push(item);
        at += 1;
    }
    Ok(items)
}

/// Decodes a document that is to be an array of work items of one kind.
pub fn decode_document<T: Schema>(document: &JsonValue) -> (r: Result<Vec<T>, FetchError>)
    ensures
        decodes_document(r, *document),
{
    match document {
        JsonValue::Array(elements) => decode_items(elements),
        _ => Err(FetchError::NotAnArray),
    }
}

/// Reads the body of a response as a JSON array of work items of one kind.
pub fn decode_collection<T: Schema>(body: &str) -> (r: Result<Vec<T>, FetchError>)
    ensures
        decodes_parsed(r, json_parse(body@)),
{
    match parse(body) {
        Ok(document) => decode_document(&document),
        Err(place) => Err(FetchError::Syntax(place)),
    }
}

/// Turns the reply to a fetch into the collection it carries. A transport
/// failure and a status outside 200 to 299 fail the call before the body is
/// looked at.
pub fn complete_fetch<T: Schema>(reply: &Result<HttpResponse, NetworkError>) -> (r: Result<
    Vec<T>,
    FetchError,
>)
    ensures
        decodes_reply(r, *reply),
{
    match reply {
        Err(failure) => Err(FetchError::Network(*failure)),
        Ok(response) => {
            if response.succeeded() {
                decode_collection(response.body.as_str())
            } else {
                Err(FetchError::Http(response.status))
            }
        },
    }
}

} // verus!
