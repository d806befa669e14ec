//! The request to route, and what is handed to the sandbox for it.

use crate::json::{array_view, documents_view, members_view, object_view, Json, JsonView};
use crate::message::{header_of, headers_of, HeaderList};
use vstd::prelude::*;
use vstd::string::*;

verus! {

/// A request: method, path, query string as it was sent, and the headers in
/// the order in which they were sent, duplicates kept.
#[derive(Debug, Clone, Default)]
pub struct RouterRequest {
    pub method: String,
    pub pathname: String,
    pub raw_query: String,
    pub raw_headers: Vec<(String, String)>,
}

/// What a [`RouterRequest`] holds.
pub struct RequestView {
    pub method: Seq<char>,
    pub pathname: Seq<char>,
    pub raw_query: Seq<char>,
    pub raw_headers: HeaderList,
}

impl View for RouterRequest {
    type V = RequestView;

    open spec fn view(&self) -> RequestView {
        RequestView {
            method: self.method@,
            pathname: self.pathname@,
            raw_query: self.raw_query@,
            raw_headers: self.raw_headers.deep_view(),
        }
    }
}

/// Why a request cannot be routed at all.
#[derive(Debug, Clone, Copy, PartialEq, Eq, Structural)]
pub enum ConfigurationError {
    /// The project has no directory on disk, and routes are looked up there.
    NoDiskPath,
}

/// A header list as the wire has it: an array of arrays of two strings.
pub open spec fn headers_json(headers: HeaderList) -> JsonView {
    JsonView::Array(
        Seq::new(
            headers.len(),
            |i: int| JsonView::Array(seq![JsonView::String(headers[i].0), JsonView::String(headers[i].1)]),
        ),
    )
}

/// A request as the sandbox reads it: an object with the strings `method`,
/// `pathname` and `rawQuery` and the header list `rawHeaders`.
pub open spec fn request_json(request: RequestView) -> JsonView {
    JsonView::Object(
        seq![
            ("method"@, JsonView::String(request.method)),
            ("pathname"@, JsonView::String(request.pathname)),
            ("rawQuery"@, JsonView::String(request.raw_query)),
            ("rawHeaders"@, headers_json(request.raw_headers)),
        ],
    )
}

/// The arguments of the evaluation that routes `request` in the project at
/// `dir`: the request, then the directory as a string.
pub open spec fn route_arguments(request: RequestView, dir: Seq<char>) -> Seq<JsonView> {
    seq![request_json(request), JsonView::String(dir)]
}

/// What the routing of a request is called in reports.
pub open spec fn description_of(request: RequestView) -> Seq<char> {
    "Next.js Routing for "@ + request.method + " "@ + request.pathname
}

/// Writes a header list as the wire has it.
fn write_headers(headers: &Vec<(String, String)>) -> (json: Json)
    ensures
        json@ == headers_json(headers.deep_view()),
{
    let mut items: Vec<Json> = Vec::new();
    let mut i: usize = 0;
    while i < headers.len()
        invariant
            i <= headers.len(),
            items@.len() == i,
            forall|k: int|
                0 <= k < i ==> (#[trigger] items@[k])@ == JsonView::Array(
                    seq![JsonView::String(headers@[k].0@), JsonView::String(headers@[k].1@)],
                ),
        decreases headers.len() - i,
    {
        let mut pair: Vec<Json> = Vec::new();
        pair.push(Json::String(headers[i].0.clone()));
        pair.push(Json::String(headers[i].1.clone()));
        proof {
            array_view(pair);
            assert(documents_view(pair@) =~= seq![
                JsonView::String(headers@[i as int].0@),
                JsonView::String(headers@[i as int].1@),
            ]);
        }
        let item = Json::Array(pair);
        items.push(item);
        i += 1;
    }
    proof {
        array_view(items);
        assert(documents_view(items@) =~= headers_json(headers.deep_view())->Array_0);
    }
    Json::Array(items)
}

/// What is written as a header list reads back as the same list.
pub proof fn headers_read_back(headers: HeaderList)
    ensures
        headers_of(headers_json(headers)) == Some(headers),
{
    let items = headers_json(headers)->Array_0;
    assert forall|i: int| 0 <= i < items.len() implies header_of(#[trigger] items[i]) == Some(
        headers[i],
    ) by {
        let pair = items[i]->Array_0;
        assert(pair[0] == JsonView::String(headers[i].0));
        assert(pair[1] == JsonView::String(headers[i].1));
    }
    assert(headers_of(headers_json(headers))->0 =~= headers);
}

impl RouterRequest {
    /// The request as the sandbox reads it.
    pub fn to_json(&self) -> (json: Json)
        ensures
            json@ == request_json(self@),
    {
        let mut entries: Vec<(String, Json)> = Vec::new();
        entries.push(("method".to_owned(), Json::String(self.method.clone())));
        entries.push(("pathname".to_owned(), Json::String(self.pathname.clone())));
        entries.push(("rawQuery".to_owned(), Json::String(self.raw_query.clone())));
        entries.push(("rawHeaders".to_owned(), write_headers(&self.raw_headers)));
        proof {
            object_view(entries);
            assert(members_view(entries@) =~= request_json(self@)->Object_0);
        }
        Json::Object(entries)
    }

    /// What the routing of this request is called in reports.
    pub fn description(&self) -> (text: String)
        ensures
            text@ == description_of(self@),
    {
        let mut text = "Next.js Routing for ".to_owned();
        text.append(self.method.as_str());
        text.append(" ");
        text.append(self.pathname.as_str());
        text
    }
}

impl ConfigurationError {
    /// This error as a text.
    pub fn message(&self) -> (text: String)
        ensures
            text@ == "Next.js requires a disk path to check for valid routes"@,
    {
        "Next.js requires a disk path to check for valid routes".to_owned()
    }
}

/// The evaluation that routes a request: what it is called in reports, and
/// the arguments that the sandbox is given.
#[derive(Debug)]
pub struct RouteEvaluation {
    pub description: String,
    pub arguments: Vec<Json>,
}

/// What a [`RouteEvaluation`] holds.
pub struct RouteEvaluationView {
    pub description: Seq<char>,
    pub arguments: Seq<JsonView>,
}

impl View for RouteEvaluation {
    type V = RouteEvaluationView;

    open spec fn view(&self) -> RouteEvaluationView {
        RouteEvaluationView {
            description: self.description@,
            arguments: documents_view(self.arguments@),
        }
    }
}

/// The evaluation that routes `request` in the project at `dir`.
pub open spec fn route_evaluation(request: RequestView, dir: Seq<char>) -> RouteEvaluationView {
    RouteEvaluationView {
        description: description_of(request),
        arguments: route_arguments(request, dir),
    }
}

/// The two arguments of an evaluation: the request, and the project's
/// directory on disk as a string. A project without one cannot be routed.
pub fn evaluation_arguments(request: &RouterRequest, project_dir: Option<String>) -> (r: Result<
    Vec<Json>,
    ConfigurationError,
>)
    ensures
        match r {
            Ok(arguments) => project_dir matches Some(dir) && documents_view(arguments@)
                == route_arguments(request@, dir@),
            Err(error) => project_dir is None && error == ConfigurationError::NoDiskPath,
        },
{
    match project_dir {
        Some(dir) => {
            let mut arguments: Vec<Json> = Vec::new();
            arguments.push(request.to_json());
            arguments.push(Json::String(dir));
            assert(documents_view(arguments@) =~= route_arguments(request@, dir@));
            Ok(arguments)
        },
        None => Err(ConfigurationError::NoDiskPath),
    }
}

/// Starts the routing of a request in the project whose directory on disk
/// is `project_dir`: says which evaluation to run. What the sandbox returns
/// from it decides the route. A project without a directory on disk cannot
/// be routed.
pub fn route(request: &RouterRequest, project_dir: Option<String>) -> (r: Result<
    RouteEvaluation,
    ConfigurationError,
>)
    ensures
        match r {
            Ok(evaluation) => project_dir matches Some(dir) && evaluation@ == route_evaluation(
                request@,
                dir@,
            ),
            Err(error) => project_dir is None && error == ConfigurationError::NoDiskPath,
        },
{
    match evaluation_arguments(request, project_dir) {
        Ok(arguments) => Ok(RouteEvaluation { description: request.description(), arguments }),
        Err(error) => Err(error),
    }
}

} // verus!
