//! The requests to the catalog service and the reading of its answers.

use vstd::prelude::*;
use crate::error::{ErrorKind, ErrorView, NouninatorError};
use crate::text::{
    concat2, concat3, decimal_string, decimal_text, trim_end_matches, without_trailing,
};

verus! {

/// The path of the tables endpoint.
pub const TABLES_ENDPOINT: &'static str = "/api/2.1/unity-catalog/tables";

/// Client for the metadata endpoints of the catalog service.
#[derive(Debug)]
pub struct UnityClient {
    base_url: String,
    token: String,
}

/// A client in contracts.
pub struct ClientView {
    pub base_url: Seq<char>,
    pub token: Seq<char>,
}

impl View for UnityClient {
    type V = ClientView;

    closed spec fn view(&self) -> ClientView {
        ClientView { base_url: self.base_url@, token: self.token@ }
    }
}

/// A read request to the service.
#[derive(Debug)]
pub struct Request {
    pub url: String,
    /// The value of the `Authorization` header.
    pub authorization: String,
    /// The query parameters, in order.
    pub query: Vec<(String, String)>,
}

/// A request in contracts.
pub struct RequestView {
    pub url: Seq<char>,
    pub authorization: Seq<char>,
    pub query: Seq<(Seq<char>, Seq<char>)>,
}

impl View for Request {
    type V = RequestView;

    open spec fn view(&self) -> RequestView {
        RequestView {
            url: self.url@,
            authorization: self.authorization@,
            query: Seq::new(self.query@.len(), |i: int| (self.query@[i].0@, self.query@[i].1@)),
        }
    }
}

/// What the service's status code means: nothing wrong for 200; for 401 and
/// 403 the credentials are refused; for 404 the object does not exist; any
/// other status is a failure of the service.
pub open spec fn status_error(status: u16) -> Option<ErrorView> {
    if status == 200 {
        None
    } else if status == 401 || status == 403 {
        Some(
            ErrorView {
                kind: ErrorKind::Unauthorized,
                message: "Invalid or expired Databricks token"@,
            },
        )
    } else if status == 404 {
        Some(
            ErrorView {
                kind: ErrorKind::TableNotFound,
                message: "Catalog, schema, or table not found"@,
            },
        )
    } else {
        Some(
            ErrorView {
                kind: ErrorKind::UnityApi,
                message: "API request failed with status "@ + decimal_text(status as int),
            },
        )
    }
}

impl UnityClient {
    /// A client for the workspace at `host`, which is kept without the
    /// slashes at its end, with the access token `token`.
    pub fn new(host: String, token: String) -> (client: UnityClient)
        ensures
            client@ == (ClientView { base_url: without_trailing(host@, '/'), token: token@ }),
    {
        UnityClient { base_url: trim_end_matches(host.as_str(), '/'), token }
    }

    /// The workspace URL, without slashes at its end.
    pub fn base_url(&self) -> (url: &str)
        ensures
            url@ == self@.base_url,
    {
        self.base_url.as_str()
    }

    /// The access token.
    pub fn token(&self) -> (token: &str)
        ensures
            token@ == self@.token,
    {
        self.token.as_str()
    }

    /// The request that lists the tables of a schema.
    pub fn list_tables(&self, catalog: &str, schema: &str) -> (request: Request)
        ensures
            request@ == (RequestView {
                url: self@.base_url + TABLES_ENDPOINT@,
                authorization: "Bearer "@ + self@.token,
                query: seq![("catalog_name"@, catalog@), ("schema_name"@, schema@)],
            }),
    {
        let mut query: Vec<(String, String)> = Vec::new();
        query.push(("catalog_name".to_owned(), catalog.to_owned()));
        query.push(("schema_name".to_owned(), schema.to_owned()));
        let request = Request {
            url: concat2(self.base_url.as_str(), TABLES_ENDPOINT),
            authorization: concat2("Bearer ", self.token.as_str()),
            query,
        };
        assert(request@.query =~= seq![("catalog_name"@, catalog@), ("schema_name"@, schema@)]);
        request
    }

    /// The request that gets the metadata of the table `full_name`, written
    /// as catalog, schema and table separated by dots.
    pub fn get_table(&self, full_name: &str) -> (request: Request)
        ensures
            request@ == (RequestView {
                url: self@.base_url + TABLES_ENDPOINT@ + "/"@ + full_name@,
                authorization: "Bearer "@ + self@.token,
                query: Seq::empty(),
            }),
    {
        let mut url = concat3(self.base_url.as_str(), TABLES_ENDPOINT, "/");
        url.append(full_name);
        let request = Request {
            url,
            authorization: concat2("Bearer ", self.token.as_str()),
            query: Vec::new(),
        };
        assert(request@.query =~= Seq::<(Seq<char>, Seq<char>)>::empty());
        request
    }

    /// Reads the status code of an answer.
    pub fn handle_response_error(status: u16) -> (r: Result<(), NouninatorError>)
        ensures
            match r {
                Ok(_) => status_error(status) is None,
                Err(e) => status_error(status) == Some(e@),
            },
    {
        if status == 200 {
            Ok(())
        } else if status == 401 || status == 403 {
            Err(NouninatorError::Unauthorized("Invalid or expired Databricks token".to_owned()))
        } else if status == 404 {
            Err(NouninatorError::TableNotFound("Catalog, schema, or table not found".to_owned()))
        } else {
            let code = decimal_string(status as i128);
            Err(
                NouninatorError::UnityApi(
                    concat2("API request failed with status ", code.as_str()),
                ),
            )
        }
    }

    /// The failure to read the body of an answer.
    pub fn parse_failure(reason: &str) -> (e: NouninatorError)
        ensures
            e@ == (ErrorView {
                kind: ErrorKind::UnityApi,
                message: "Failed to parse response: "@ + reason@,
            }),
    {
        NouninatorError::UnityApi(concat2("Failed to parse response: ", reason))
    }
}

} // verus!
