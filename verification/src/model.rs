//! The two record shapes of the search result: a repository entry and the
//! decoded response that owns a list of them.

use vstd::prelude::*;

verus! {

/// One repository entry of the search result: its name, its description and
/// the address of its page.
pub struct Repository {
    pub name: String,
    pub description: String,
    pub url: String,
}

/// The mathematical shape of a [`Repository`]: its three fields as character
/// sequences.
pub ghost struct RepositoryView {
    pub name: Seq<char>,
    pub description: Seq<char>,
    pub url: Seq<char>,
}

impl View for Repository {
    type V = RepositoryView;

    open spec fn view(&self) -> RepositoryView {
        RepositoryView { name: self.name@, description: self.description@, url: self.url@ }
    }
}

impl Repository {
    pub fn new(name: String, description: String, url: String) -> (r: Repository)
        ensures
            r@.name == name@,
            r@.description == description@,
            r@.url == url@,
    {
        Repository { name, description, url }
    }
}

/// The decoded search response: how many repositories matched in all, whether
/// the search was cut short, and the entries of the first page in order.
pub struct Response {
    pub total_count: u32,
    pub incomplete_results: bool,
    pub items: Vec<Repository>,
}

/// The mathematical shape of a [`Response`].
pub ghost struct ResponseView {
    pub total_count: u32,
    pub incomplete_results: bool,
    pub items: Seq<RepositoryView>,
}

impl View for Response {
    type V = ResponseView;

    open spec fn view(&self) -> ResponseView {
        ResponseView {
            total_count: self.total_count,
            incomplete_results: self.incomplete_results,
            items: self.items@.map_values(|r: Repository| r@),
        }
    }
}

impl Response {
    pub fn new(total_count: u32, incomplete_results: bool, items: Vec<Repository>) -> (r:
        Response)
        ensures
            r@.total_count == total_count,
            r@.incomplete_results == incomplete_results,
            r@.items == items@.map_values(|x: Repository| x@),
    {
        Response { total_count, incomplete_results, items }
    }
}

} // verus!
