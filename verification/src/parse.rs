//! Decodes the search response body: the JSON document is parsed by an
//! outside decoder, whose readings are given names, and the extraction of the
//! total count and of the repository records — with its
//! fail-on-first-missing-field policy — is verified exactly against those
//! names.

use crate::model::{Repository, RepositoryView};
use vstd::prelude::*;

verus! {

/// The JSON document that a text decodes to, when it is well-formed.
pub uninterp spec fn spec_json_doc(s: Seq<char>) -> Option<serde_json::Value>;

/// Whether a text is well-formed JSON, as the outside decoder accepts it.
pub open spec fn spec_json_well_formed(s: Seq<char>) -> bool {
    spec_json_doc(s) is Some
}

/// The member of a JSON object under a key, when the value is an object that
/// has it.
pub uninterp spec fn spec_field_of(v: serde_json::Value, key: Seq<char>) -> Option<
    serde_json::Value,
>;

/// The value of a JSON number representable as u64, when the value is one.
pub uninterp spec fn spec_u64_of(v: serde_json::Value) -> Option<u64>;

/// The value of a JSON boolean, when the value is one.
pub uninterp spec fn spec_bool_of(v: serde_json::Value) -> Option<bool>;

/// The content of a JSON string, when the value is one.
pub uninterp spec fn spec_str_of(v: serde_json::Value) -> Option<Seq<char>>;

/// The elements of a JSON array, when the value is one.
pub uninterp spec fn spec_array_of(v: serde_json::Value) -> Option<Seq<serde_json::Value>>;

#[verifier::external_type_specification]
#[verifier::external_body]
pub struct ExValue(serde_json::Value);

/// Relies on serde_json::from_str: decoding a text succeeds or fails, and
/// yields its document, on the text alone.
#[verifier::external_body]
fn parse_json(s: &str) -> (r: Option<serde_json::Value>)
    ensures
        r is Some <==> spec_json_well_formed(s@),
        r matches Some(v) ==> spec_json_doc(s@) == Some(v),
{
    serde_json::from_str(s).ok()
}

/// Relies on serde_json::Value::get: the member of a JSON object under a key,
/// or nothing when the value is not an object or lacks the key; a pure lookup
/// on the value and the key alone.
#[verifier::external_body]
fn get_field<'a>(v: &'a serde_json::Value, key: &str) -> (r: Option<&'a serde_json::Value>)
    ensures
        r is Some <==> spec_field_of(*v, key@) is Some,
        r matches Some(f) ==> spec_field_of(*v, key@) == Some(*f),
{
    v.get(key)
}

/// Relies on serde_json::Value::as_u64: the value of a JSON number
/// representable as u64, or nothing when the value is not one.
#[verifier::external_body]
fn as_u64_of(v: &serde_json::Value) -> (r: Option<u64>)
    ensures
        r == spec_u64_of(*v),
{
    v.as_u64()
}

/// Relies on serde_json::Value::as_bool: the value of a JSON boolean, or
/// nothing when the value is not one.
#[verifier::external_body]
fn as_bool_of(v: &serde_json::Value) -> (r: Option<bool>)
    ensures
        r == spec_bool_of(*v),
{
    v.as_bool()
}

/// Relies on serde_json::Value::as_str: the content of a JSON string, or
/// nothing when the value is not one; `to_owned` only converts.
#[verifier::external_body]
fn as_str_of(v: &serde_json::Value) -> (r: Option<String>)
    ensures
        r is Some <==> spec_str_of(*v) is Some,
        r matches Some(s) ==> spec_str_of(*v) == Some(s@),
{
    v.as_str().map(str::to_owned)
}

/// Relies on serde_json::Value::as_array: the elements of a JSON array, or
/// nothing when the value is not an array.
#[verifier::external_body]
fn as_array_of<'a>(v: &'a serde_json::Value) -> (r: Option<&'a Vec<serde_json::Value>>)
    ensures
        r is Some <==> spec_array_of(*v) is Some,
        r matches Some(a) ==> spec_array_of(*v) == Some(a@),
{
    v.as_array()
}

/// Why decoding a response body failed. Every failure is final: no record is
/// skipped and no partial list is returned.
#[derive(Clone, Copy, PartialEq, Eq, Structural, Debug)]
pub enum ParseError {
    /// The body is not well-formed JSON.
    MalformedJson,
    /// The document has no `total_count` member holding an unsigned number.
    MissingTotalCount,
    /// The document has no `items` member holding an array.
    MissingItems,
    /// A repository record has no string `name`.
    MissingName,
    /// A repository record has no string `description`.
    MissingDescription,
    /// A repository record has no string `html_url`.
    MissingUrl,
}

/// The name field of one element of the `items` array.
pub open spec fn spec_item_name(v: serde_json::Value) -> Option<Seq<char>> {
    match spec_field_of(v, "name"@) {
        Some(f) => spec_str_of(f),
        None => None,
    }
}

/// The description field of one element of the `items` array.
pub open spec fn spec_item_description(v: serde_json::Value) -> Option<Seq<char>> {
    match spec_field_of(v, "description"@) {
        Some(f) => spec_str_of(f),
        None => None,
    }
}

/// The address field of one element of the `items` array.
pub open spec fn spec_item_url(v: serde_json::Value) -> Option<Seq<char>> {
    match spec_field_of(v, "html_url"@) {
        Some(f) => spec_str_of(f),
        None => None,
    }
}

/// The error one element yields, if any: its first absent string field, in
/// the order name, description, address.
pub open spec fn spec_item_error(v: serde_json::Value) -> Option<ParseError> {
    if spec_item_name(v) is None {
        Some(ParseError::MissingName)
    } else if spec_item_description(v) is None {
        Some(ParseError::MissingDescription)
    } else if spec_item_url(v) is None {
        Some(ParseError::MissingUrl)
    } else {
        None
    }
}

/// Whether one element has all three string fields.
pub open spec fn spec_item_ok(v: serde_json::Value) -> bool {
    spec_item_error(v) is None
}

/// The error of the first faulty element of an array, if any.
pub open spec fn spec_items_error(items: Seq<serde_json::Value>) -> Option<ParseError>
    decreases items.len(),
{
    if items.len() == 0 {
        None
    } else if spec_item_error(items[0]) is Some {
        spec_item_error(items[0])
    } else {
        spec_items_error(items.drop_first())
    }
}

/// One record holds exactly the three string fields of one element.
pub open spec fn spec_repo_matches_item(repo: RepositoryView, v: serde_json::Value) -> bool {
    &&& Some(repo.name) == spec_item_name(v)
    &&& Some(repo.description) == spec_item_description(v)
    &&& Some(repo.url) == spec_item_url(v)
}

/// The records hold, element by element and in order, the fields of the
/// array.
pub open spec fn spec_repos_match(
    arr: Seq<serde_json::Value>,
    repos: Seq<RepositoryView>,
) -> bool {
    &&& repos.len() == arr.len()
    &&& forall|k: int|
        0 <= k < arr.len() ==> spec_repo_matches_item(#[trigger] repos[k], arr[k])
}

/// The total count member of a decoded document.
pub open spec fn spec_doc_total(doc: serde_json::Value) -> Option<u64> {
    match spec_field_of(doc, "total_count"@) {
        Some(f) => spec_u64_of(f),
        None => None,
    }
}

/// The `incomplete_results` flag of a decoded document; an absent or
/// non-boolean flag reads as false.
pub open spec fn spec_doc_incomplete(doc: serde_json::Value) -> bool {
    match spec_field_of(doc, "incomplete_results"@) {
        Some(f) => match spec_bool_of(f) {
            Some(b) => b,
            None => false,
        },
        None => false,
    }
}

/// The `items` array of a decoded document.
pub open spec fn spec_doc_items(doc: serde_json::Value) -> Option<Seq<serde_json::Value>> {
    match spec_field_of(doc, "items"@) {
        Some(f) => spec_array_of(f),
        None => None,
    }
}

/// The error a well-formed document yields, if any: the members are examined
/// in the order total count, items array, elements.
pub open spec fn spec_doc_error(doc: serde_json::Value) -> Option<ParseError> {
    if spec_doc_total(doc) is None {
        Some(ParseError::MissingTotalCount)
    } else {
        match spec_doc_items(doc) {
            None => Some(ParseError::MissingItems),
            Some(arr) => spec_items_error(arr),
        }
    }
}

/// Builds one repository record from its extracted fields. Every field must
/// be present: the first absent one — in the order name, description,
/// address — names the error, so a record with a null or missing description
/// aborts with that error even when its address is also absent.
pub fn repository_from_fields(
    name: Option<String>,
    description: Option<String>,
    url: Option<String>,
) -> (r: Result<Repository, ParseError>)
    ensures
        r is Ok <==> name is Some && description is Some && url is Some,
        r matches Ok(repo) ==> repo@.name == name->Some_0@ && repo@.description
            == description->Some_0@ && repo@.url == url->Some_0@,
        name is None ==> r == Result::<Repository, ParseError>::Err(ParseError::MissingName),
        name is Some && description is None ==> r == Result::<Repository, ParseError>::Err(
            ParseError::MissingDescription,
        ),
        name is Some && description is Some && url is None ==> r == Result::<
            Repository,
            ParseError,
        >::Err(ParseError::MissingUrl),
{
    let name = match name {
        Some(n) => n,
        None => {
            return Err(ParseError::MissingName);
        },
    };
    let description = match description {
        Some(d) => d,
        None => {
            return Err(ParseError::MissingDescription);
        },
    };
    let url = match url {
        Some(u) => u,
        None => {
            return Err(ParseError::MissingUrl);
        },
    };
    Ok(Repository::new(name, description, url))
}

/// Extracts the three string fields of one array element and builds its
/// record; the element's first absent field names the error.
fn parse_item(item: &serde_json::Value) -> (r: Result<Repository, ParseError>)
    ensures
        r is Ok <==> spec_item_ok(*item),
        r matches Ok(repo) ==> spec_repo_matches_item(repo@, *item),
        r matches Err(e) ==> spec_item_error(*item) == Some(e),
{
    let name = match get_field(item, "name") {
        Some(f) => as_str_of(f),
        None => None,
    };
    let description = match get_field(item, "description") {
        Some(f) => as_str_of(f),
        None => None,
    };
    let url = match get_field(item, "html_url") {
        Some(f) => as_str_of(f),
        None => None,
    };
    proof {
        assert(name is Some <==> spec_item_name(*item) is Some);
        assert(description is Some <==> spec_item_description(*item) is Some);
        assert(url is Some <==> spec_item_url(*item) is Some);
    }
    repository_from_fields(name, description, url)
}

/// Skipping elements that are all in order does not change which error an
/// array yields.
proof fn lemma_items_error_skip(items: Seq<serde_json::Value>, k: int)
    requires
        0 <= k <= items.len(),
        forall|j: int| 0 <= j < k ==> spec_item_ok(#[trigger] items[j]),
    ensures
        spec_items_error(items) == spec_items_error(items.skip(k)),
    decreases k,
{
    if k == 0 {
        assert(items.skip(0) =~= items);
    } else {
        lemma_items_error_skip(items, k - 1);
        let tail = items.skip(k - 1);
        assert(tail[0] == items[k - 1]);
        assert(spec_item_error(tail[0]) is None);
        assert(tail.drop_first() =~= items.skip(k));
    }
}

/// Builds the repository list from the decoded `items` array: it succeeds if
/// and only if every element has its three string fields, and then holds one
/// record per element, in order, with those fields; otherwise the first
/// faulty element's first absent field names the error and no partial list
/// comes back.
pub fn parse_items(items: &Vec<serde_json::Value>) -> (r: Result<Vec<Repository>, ParseError>)
    ensures
        r is Ok <==> spec_items_error(items@) is None,
        r matches Ok(repos) ==> spec_repos_match(
            items@,
            repos@.map_values(|x: Repository| x@),
        ),
        r matches Err(e) ==> spec_items_error(items@) == Some(e),
        r is Err ==> r->Err_0 == ParseError::MissingName || r->Err_0
            == ParseError::MissingDescription || r->Err_0 == ParseError::MissingUrl,
{
    let mut repos: Vec<Repository> = Vec::new();
    let mut idx: usize = 0;
    while idx < items.len()
        invariant
            idx <= items.len(),
            repos@.len() == idx,
            forall|j: int| 0 <= j < idx ==> spec_item_ok(#[trigger] items@[j]),
            forall|j: int|
                0 <= j < idx ==> spec_repo_matches_item((#[trigger] repos@[j])@, items@[j]),
        decreases items.len() - idx,
    {
        let record = match parse_item(&items[idx]) {
            Ok(repo) => repo,
            Err(e) => {
                proof {
                    lemma_items_error_skip(items@, idx as int);
                    assert(items@.skip(idx as int)[0] == items@[idx as int]);
                    assert(spec_items_error(items@.skip(idx as int)) == spec_item_error(
                        items@[idx as int],
                    ));
                }
                return Err(e);
            },
        };
        repos.push(record);
        proof {
            assert(forall|j: int|
                0 <= j < idx + 1 ==> spec_repo_matches_item((#[trigger] repos@[j])@, items@[j]));
        }
        idx = idx + 1;
    }
    proof {
        lemma_items_error_skip(items@, items@.len() as int);
        assert(items@.skip(items@.len() as int) =~= Seq::<serde_json::Value>::empty());
        let mapped = repos@.map_values(|x: Repository| x@);
        assert forall|k: int| 0 <= k < items@.len() implies spec_repo_matches_item(
            #[trigger] mapped[k],
            items@[k],
        ) by {
            assert(mapped[k] == repos@[k]@);
        }
    }
    Ok(repos)
}

/// Decodes a response body into the document's total count, its
/// `incomplete_results` flag (an absent or non-boolean flag reads as false),
/// and one repository record per element of its `items` array, in order.
///
/// Decoding fails with `MalformedJson` exactly when the body is not
/// well-formed JSON; a well-formed body yields exactly the error its
/// document yields, if any.
pub fn parse_response(body: &str) -> (r: Result<(u64, bool, Vec<Repository>), ParseError>)
    ensures
        r == Result::<(u64, bool, Vec<Repository>), ParseError>::Err(ParseError::MalformedJson)
            <==> !spec_json_well_formed(body@),
        spec_json_doc(body@) matches Some(doc) ==> match spec_doc_error(doc) {
            Some(e) => r == Result::<(u64, bool, Vec<Repository>), ParseError>::Err(e),
            None => r matches Ok(p) && Some(p.0) == spec_doc_total(doc) && p.1
                == spec_doc_incomplete(doc) && spec_repos_match(
                spec_doc_items(doc)->Some_0,
                p.2@.map_values(|x: Repository| x@),
            ),
        },
{
    let json = match parse_json(body) {
        Some(v) => v,
        None => {
            return Err(ParseError::MalformedJson);
        },
    };
    let raw_total = match get_field(&json, "total_count") {
        Some(f) => as_u64_of(f),
        None => None,
    };
    proof {
        assert(raw_total == spec_doc_total(json));
    }
    let total_count = match raw_total {
        Some(v) => v,
        None => {
            return Err(ParseError::MissingTotalCount);
        },
    };
    let incomplete_results = match get_field(&json, "incomplete_results") {
        Some(f) => as_bool_of(f).unwrap_or(false),
        None => false,
    };
    proof {
        assert(incomplete_results == spec_doc_incomplete(json));
    }
    let items = match get_field(&json, "items") {
        Some(f) => match as_array_of(f) {
            Some(arr) => arr,
            None => {
                return Err(ParseError::MissingItems);
            },
        },
        None => {
            return Err(ParseError::MissingItems);
        },
    };
    proof {
        assert(spec_doc_items(json) == Some(items@));
    }
    let repos = match parse_items(items) {
        Ok(v) => v,
        Err(e) => {
            return Err(e);
        },
    };
    Ok((total_count, incomplete_results, repos))
}

} // verus!
