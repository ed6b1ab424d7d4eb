//! Operations on a table: the requests they send and the shapes their
//! responses are given.

use crate::api::client::{authorization_of, params_view, HttpRequest, Method, Params};
use crate::api::table::{
    default_request, field_token, filter_param, filter_params, filter_view, flag_param,
    number_param, order_text, order_view, query_of, refusal_of, RowRequest, RowRequestBuilder,
};
use crate::error::TableError;
use crate::filter::FilterTriple;
use crate::json::{array_value, json_array, json_object};
use crate::mapper::{field_key_for, to_ids, to_names, FieldMapper, TableMapper};
use crate::record::{rekeyed, Entries, Record};
use crate::text::{decimal, format_i32, format_u64, joined};
use crate::{Baserow, BaserowTable, OrderDirection, TableField};
use serde_json::Value;
use vstd::prelude::*;
use vstd::string::StringExecFns;

verus! {

/// One page of rows as generic records, with what the service says of the
/// pages around it.
#[derive(Debug)]
pub struct RowsResponse {
    /// The number of rows that match the query, over all pages.
    pub count: Option<i32>,
    /// Where the next page is, if there is one.
    pub next: Option<String>,
    /// Where the previous page is, if there is one.
    pub previous: Option<String>,
    /// The rows of this page, in the order of the response.
    pub results: Vec<Record>,
}

/// One page of rows read as values of `T`, with what the service says of the
/// pages around it.
#[derive(Debug)]
pub struct TypedRowsResponse<T> {
    /// The number of rows that match the query, over all pages.
    pub count: Option<i32>,
    /// Where the next page is, if there is one.
    pub next: Option<String>,
    /// Where the previous page is, if there is one.
    pub previous: Option<String>,
    /// The rows of this page, in the order of the response.
    pub results: Vec<T>,
}

/// The URL of the rows of a table.
pub open spec fn rows_url(base: Seq<char>, table_id: u64) -> Seq<char> {
    base + "/api/database/rows/table/"@ + decimal(table_id as nat) + "/"@
}

/// The URL of one row of a table.
pub open spec fn row_url(base: Seq<char>, table_id: u64, row_id: u64) -> Seq<char> {
    rows_url(base, table_id) + decimal(row_id as nat) + "/"@
}

/// The URL of the fields of a table.
pub open spec fn fields_url(base: Seq<char>, table_id: u64) -> Seq<char> {
    base + "/api/database/fields/table/"@ + decimal(table_id as nat) + "/"@
}

fn push_number(query: &mut Vec<(String, String)>, key: &str, value: Option<i32>)
    ensures
        params_view(final(query)@) == params_view(old(query)@) + number_param(key@, value),
{
    match value {
        Some(n) => {
            query.push((String::from_str(key), format_i32(n)));
            assert(params_view(query@) =~= params_view(old(query)@) + number_param(key@, value));
        },
        None => {
            assert(params_view(query@) =~= params_view(old(query)@) + number_param(key@, value));
        },
    }
}

fn push_flag(query: &mut Vec<(String, String)>, key: &str, value: Option<bool>)
    ensures
        params_view(final(query)@) == params_view(old(query)@) + flag_param(key@, value),
{
    match value {
        Some(flag) => {
            let text = if flag {
                "true"
            } else {
                "false"
            };
            query.push((String::from_str(key), String::from_str(text)));
            assert(params_view(query@) =~= params_view(old(query)@) + flag_param(key@, value));
        },
        None => {
            assert(params_view(query@) =~= params_view(old(query)@) + flag_param(key@, value));
        },
    }
}

impl BaserowTable {
    /// The token that stands for `field` in a query on this table.
    pub fn field_token(&self, field: &str) -> (token: String)
        ensures
            token@ == field_token(self.fields(), field@),
    {
        match &self.mapper {
            Some(mapper) => match mapper.get_field_id(field) {
                Some(id) => field_key_for(id),
                None => String::from_str(field),
            },
            None => String::from_str(field),
        }
    }

    fn order_text(&self, order: &Vec<(String, OrderDirection)>) -> (text: String)
        ensures
            text@ == order_text(self.fields(), order_view(order@)),
    {
        let ghost all = order_view(order@);
        let mut text = String::from_str("");
        proof {
            reveal_strlit("");
            assert(text@ =~= Seq::<char>::empty());
        }
        let mut i: usize = 0;
        while i < order.len()
            invariant
                i <= order.len(),
                all == order_view(order@),
                text@ == order_text(self.fields(), all.take(i as int)),
            decreases order.len() - i,
        {
            proof {
                assert(all.take(i + 1).drop_last() =~= all.take(i as int));
                assert(all.take(i + 1).last() == (order@[i as int].0@, order@[i as int].1));
            }
            match order[i].1 {
                OrderDirection::Desc => {
                    text.append("-");
                },
                OrderDirection::Asc => {},
            }
            let token = self.field_token(order[i].0.as_str());
            text.append(token.as_str());
            assert(text@ =~= order_text(self.fields(), all.take(i + 1)));
            i += 1;
        }
        assert(all.take(i as int) =~= all);
        text
    }

    fn push_filters(&self, query: &mut Vec<(String, String)>, filter: &Vec<FilterTriple>)
        ensures
            params_view(final(query)@) == params_view(old(query)@) + filter_params(
                self.fields(),
                filter_view(filter@),
            ),
    {
        let ghost all = filter_params(self.fields(), filter_view(filter@));
        let mut i: usize = 0;
        assert(params_view(query@) =~= params_view(old(query)@) + all.take(0));
        while i < filter.len()
            invariant
                i <= filter.len(),
                all == filter_params(self.fields(), filter_view(filter@)),
                params_view(query@) == params_view(old(query)@) + all.take(i as int),
            decreases filter.len() - i,
        {
            let triple = &filter[i];
            let token = self.field_token(triple.field.as_str());
            let mut key = joined("filter__", token.as_str());
            key.append("__");
            key.append(triple.filter.as_str());
            let value = triple.value.clone();
            proof {
                let t = filter_view(filter@)[i as int];
                assert(t == (triple.field@, triple.filter, triple.value@));
                assert(all[i as int] == filter_param(self.fields(), t));
                assert(key@ == filter_param(self.fields(), t).0);
                assert(all.take(i + 1) =~= all.take(i as int).push((key@, value@)));
            }
            let ghost before = params_view(query@);
            let ghost param = (key@, value@);
            query.push((key, value));
            assert(params_view(query@) =~= before.push(param));
            assert(before.push(param) =~= params_view(old(query)@) + all.take(i + 1));
            i += 1;
        }
        assert(all.take(i as int) =~= all);
    }

    /// The query parameters of `request` on this table.
    pub fn query_params(&self, request: &RowRequest) -> (query: Vec<(String, String)>)
        ensures
            params_view(query@) == query_of(self.fields(), request@),
    {
        let mut query: Vec<(String, String)> = Vec::new();
        assert(params_view(query@) =~= Params::empty());
        push_number(&mut query, "view_id", request.view_id);
        let ghost after_view = params_view(query@);
        match &request.order {
            Some(order) => {
                let text = self.order_text(order);
                query.push((String::from_str("order_by"), text));
            },
            None => {},
        }
        let ghost order_part: Params = match request@.order {
            Some(order) => seq![("order_by"@, order_text(self.fields(), order))],
            None => Seq::empty(),
        };
        assert(params_view(query@) =~= after_view + order_part);
        let ghost after_order = params_view(query@);
        match &request.filter {
            Some(filter) => {
                self.push_filters(&mut query, filter);
            },
            None => {},
        }
        let ghost filter_part: Params = match request@.filter {
            Some(filter) => filter_params(self.fields(), filter),
            None => Seq::empty(),
        };
        assert(params_view(query@) =~= after_order + filter_part);
        push_number(&mut query, "size", request.page_size);
        push_number(&mut query, "page", request.page);
        push_number(&mut query, "offset", request.offset);
        push_flag(&mut query, "user_field_names", request.user_field_names);
        assert(params_view(query@) =~= query_of(self.fields(), request@));
        query
    }
}

fn table_url(base: &str, collection: &str, table_id: u64) -> (url: String)
    ensures
        url@ == base@ + collection@ + decimal(table_id as nat) + "/"@,
{
    let mut url = joined(base, collection);
    let id = format_u64(table_id);
    url.append(id.as_str());
    url.append("/");
    url
}

fn one_row_url(base: &str, table_id: u64, row_id: u64) -> (url: String)
    ensures
        url@ == row_url(base@, table_id, row_id),
{
    let mut url = table_url(base, "/api/database/rows/table/", table_id);
    let id = format_u64(row_id);
    url.append(id.as_str());
    url.append("/");
    url
}

impl Baserow {
    /// The request that fetches the fields of the table `table_id`. It is
    /// refused when the configuration holds no token to present.
    pub fn table_fields_request(&self, table_id: u64) -> (outcome: Result<HttpRequest, TableError>)
        ensures
            authorization_of(self.configuration) is None ==> outcome == Err::<
                HttpRequest,
                TableError,
            >(TableError::MissingAuthentication),
            authorization_of(self.configuration) is Some ==> outcome is Ok && outcome->Ok_0.describes(
                Method::Get,
                fields_url(self.configuration.base_url@, table_id),
                Params::empty(),
                authorization_of(self.configuration),
            ),
    {
        let authorization = self.authorization();
        if authorization.is_none() {
            return Err(TableError::MissingAuthentication);
        }
        let sent = HttpRequest {
            method: Method::Get,
            url: table_url(self.configuration.base_url.as_str(), "/api/database/fields/table/", table_id),
            query: Vec::new(),
            authorization,
        };
        assert(params_view(sent.query@) =~= Params::empty());
        Ok(sent)
    }
}

impl BaserowTable {
    /// The request with which the table's fields are discovered. It is
    /// refused when the handle names no table, else when it refers to no
    /// client, else when the client has no token to present.
    pub fn auto_map_request(&self) -> (outcome: Result<HttpRequest, TableError>)
        ensures
            self.id is None ==> outcome == Err::<HttpRequest, TableError>(
                TableError::MissingTableId,
            ),
            self.id is Some && self.baserow is None ==> outcome == Err::<HttpRequest, TableError>(
                TableError::MissingBaserow,
            ),
            self.id is Some && self.baserow is Some && authorization_of(
                self.baserow->0.configuration,
            ) is None ==> outcome == Err::<HttpRequest, TableError>(
                TableError::MissingAuthentication,
            ),
            self.id is Some && self.baserow is Some && authorization_of(
                self.baserow->0.configuration,
            ) is Some ==> outcome is Ok && outcome->Ok_0.describes(
                Method::Get,
                fields_url(self.baserow->0.configuration.base_url@, self.id->0),
                Params::empty(),
                authorization_of(self.baserow->0.configuration),
            ),
    {
        let id = match self.id {
            Some(id) => id,
            None => {
                return Err(TableError::MissingTableId);
            },
        };
        match &self.baserow {
            Some(baserow) => baserow.table_fields_request(id),
            None => Err(TableError::MissingBaserow),
        }
    }

    /// This handle, mapped by a registry built from `fields`: the discovered
    /// schema replaces whatever registry was attached before.
    pub fn auto_map(self, fields: Vec<TableField>) -> (table: BaserowTable)
        ensures
            table.fields() == Some(fields@),
            table.baserow == self.baserow,
            table.id == self.id,
            table.name == self.name,
            table.order == self.order,
            table.database_id == self.database_id,
    {
        let mut mapper = TableMapper::new();
        mapper.map_fields(fields);
        let mut table = self;
        table.mapper = Some(mapper);
        table
    }

    /// A query on this table with the default parameters. The handle must
    /// refer to a client.
    pub fn query(self) -> (builder: RowRequestBuilder)
        requires
            self.baserow is Some,
        ensures
            builder.baserow == self.baserow,
            builder.table == Some(self),
            builder.request@ == default_request(),
    {
        let baserow = match &self.baserow {
            Some(baserow) => Some(baserow.clone()),
            None => None,
        };
        RowRequestBuilder { baserow, table: Some(self), request: RowRequest::default() }
    }

    /// The request that fetches the rows described by `request`. A page size
    /// that is not positive is refused, then a page number that is not
    /// positive; nothing is described for a refused query. For a query that
    /// is not refused the handle must name a table.
    pub fn rows_request(&self, baserow: &Baserow, request: &RowRequest) -> (outcome: Result<
        HttpRequest,
        TableError,
    >)
        requires
            refusal_of(request@) is None ==> self.id is Some,
        ensures
            refusal_of(request@) is Some ==> outcome == Err::<HttpRequest, TableError>(
                refusal_of(request@)->0,
            ),
            refusal_of(request@) is None ==> outcome is Ok && outcome->Ok_0.describes(
                Method::Get,
                rows_url(baserow.configuration.base_url@, self.id->0),
                query_of(self.fields(), request@),
                authorization_of(baserow.configuration),
            ),
    {
        if let Some(refused) = request.refusal() {
            return Err(refused);
        }
        Ok(
            HttpRequest {
                method: Method::Get,
                url: table_url(
                    baserow.configuration.base_url.as_str(),
                    "/api/database/rows/table/",
                    self.id.unwrap(),
                ),
                query: self.query_params(request),
                authorization: baserow.authorization(),
            },
        )
    }
}

/// A row of a response as the caller sees it: with a registry, its keys
/// rewritten to field names; without one, as it came.
pub open spec fn received_row(fields: Option<Seq<TableField>>, row: Entries) -> Entries {
    match fields {
        Some(fields) => rekeyed(row, to_names(fields)),
        None => row,
    }
}

/// A row of a request as it is sent: with a registry, its keys rewritten to
/// field keys; without one, as the caller wrote it.
pub open spec fn sent_row(fields: Option<Seq<TableField>>, row: Entries) -> Entries {
    match fields {
        Some(fields) => rekeyed(row, to_ids(fields)),
        None => row,
    }
}

/// The query of a request for a single row: the flag that asks the service
/// for field names, where it is set and the handle carries no registry. With
/// a registry names are translated on this side, and the service is never
/// asked.
pub open spec fn names_flag(
    fields: Option<Seq<TableField>>,
    user_field_names: Option<bool>,
) -> Params {
    match fields {
        Some(_) => Seq::empty(),
        None => flag_param("user_field_names"@, user_field_names),
    }
}

/// How the rows of a page are to be read as typed values.
#[derive(Debug)]
pub enum TypedRead {
    /// Every row on its own, from its JSON object.
    EachRow(Vec<Value>),
    /// All rows together, from the JSON array of their objects.
    WholePage(Value),
}

/// The mathematical entries of a vector of records.
pub open spec fn records_view(rows: Seq<Record>) -> Seq<Entries> {
    rows.map_values(|row: Record| row@)
}

/// The JSON objects of the rows of a page, each shaped for the caller of a
/// handle with the registry `fields` or with none.
pub open spec fn row_objects(fields: Option<Seq<TableField>>, rows: Seq<Entries>) -> Seq<Value> {
    rows.map_values(|row: Entries| json_object(received_row(fields, row)))
}

impl TypedRead {
    /// Whether this is how a handle with the registry `fields`, or with none,
    /// reads the rows `rows`: with a registry, each row from its object with
    /// field names as keys; with none, all rows from the array of their
    /// objects as they came.
    pub open spec fn reads(self, fields: Option<Seq<TableField>>, rows: Seq<Entries>) -> bool {
        match fields {
            Some(_) => self matches TypedRead::EachRow(values) && values@ == row_objects(
                fields,
                rows,
            ),
            None => self matches TypedRead::WholePage(page) && page == json_array(
                row_objects(fields, rows),
            ),
        }
    }
}

/// What reading a response as a typed value comes to: the value where the
/// reader accepted the response, and the reader's error, as an error of the
/// response's shape, where it did not.
pub fn read_outcome<T>(read: Result<T, serde_json::Error>) -> (outcome: Result<T, TableError>)
    ensures
        match read {
            Ok(value) => outcome == Ok::<T, TableError>(value),
            Err(error) => outcome == Err::<T, TableError>(TableError::Deserialization(error)),
        },
{
    match read {
        Ok(value) => Ok(value),
        Err(error) => Err(TableError::Deserialization(error)),
    }
}

/// Whether every row of a page was read.
pub open spec fn all_read_ok<T>(reads: Seq<Result<T, serde_json::Error>>) -> bool {
    forall|i: int| 0 <= i < reads.len() ==> (#[trigger] reads[i]) is Ok
}

/// The position of the first row that the reader refused, where there is one.
pub open spec fn first_refused<T>(reads: Seq<Result<T, serde_json::Error>>) -> int {
    choose|i: int|
        0 <= i < reads.len() && (#[trigger] reads[i]) is Err && forall|j: int|
            0 <= j < i ==> (#[trigger] reads[j]) is Ok
}

/// The values of rows that were all read, in their order.
pub open spec fn read_values<T>(reads: Seq<Result<T, serde_json::Error>>) -> Seq<T> {
    reads.map_values(|read: Result<T, serde_json::Error>| read->Ok_0)
}

/// What reading the rows of a page one by one comes to. A page is read in
/// full or not at all: the values of all rows, in their order, where every
/// row was read; else the error of the first row that was refused, as an
/// error of the response's shape.
pub fn all_read<T>(reads: Vec<Result<T, serde_json::Error>>) -> (outcome: Result<
    Vec<T>,
    TableError,
>)
    ensures
        all_read_ok(reads@) ==> outcome is Ok && outcome->Ok_0@ == read_values(reads@),
        !all_read_ok(reads@) ==> outcome == Err::<Vec<T>, TableError>(
            TableError::Deserialization(reads@[first_refused(reads@)]->Err_0),
        ),
{
    let ghost all = read_values(reads@);
    let mut values: Vec<T> = Vec::new();
    for read in it: reads
        invariant
            it.seq() == reads@,
            all == read_values(reads@),
            forall|j: int| 0 <= j < it.index() ==> (#[trigger] reads@[j]) is Ok,
            values@ == all.take(it.index() as int),
    {
        let ghost at = it.index() as int;
        assert(read == reads@[at]);
        match read {
            Ok(value) => {
                values.push(value);
                assert(values@ =~= all.take(at + 1));
            },
            Err(error) => {
                proof {
                    let first = first_refused(reads@);
                    if first < at {
                        assert(reads@[first] is Ok);
                    } else if at < first {
                        assert(reads@[at] is Ok);
                    }
                }
                return Err(TableError::Deserialization(error));
            },
        }
    }
    assert(all.take(reads@.len() as int) =~= all);
    Ok(values)
}

/// The page of typed rows that a response comes to, from its page
/// information and what reading its rows came to.
pub fn typed_page<T>(
    count: Option<i32>,
    next: Option<String>,
    previous: Option<String>,
    read: Result<Vec<T>, TableError>,
) -> (outcome: Result<TypedRowsResponse<T>, TableError>)
    ensures
        match read {
            Ok(results) => outcome == Ok::<TypedRowsResponse<T>, TableError>(
                TypedRowsResponse { count, next, previous, results },
            ),
            Err(error) => outcome == Err::<TypedRowsResponse<T>, TableError>(error),
        },
{
    match read {
        Ok(results) => Ok(TypedRowsResponse { count, next, previous, results }),
        Err(error) => Err(error),
    }
}

impl BaserowTable {
    /// A row of a response, shaped for the caller: one rule for the whole
    /// handle, which is either mapped or not.
    pub fn received(&self, row: Record) -> (shaped: Record)
        ensures
            shaped@ == received_row(self.fields(), row@),
    {
        match &self.mapper {
            Some(mapper) => mapper.convert_to_field_names(row),
            None => row,
        }
    }

    /// The rows of a response, each shaped for the caller, in their order.
    pub fn received_all(&self, rows: Vec<Record>) -> (shaped: Vec<Record>)
        ensures
            shaped@.len() == rows@.len(),
            forall|i: int|
                0 <= i < rows@.len() ==> (#[trigger] shaped@[i])@ == received_row(
                    self.fields(),
                    rows@[i]@,
                ),
    {
        let mut shaped: Vec<Record> = Vec::new();
        for row in it: rows
            invariant
                it.seq() == rows@,
                shaped@.len() == it.index(),
                forall|i: int|
                    0 <= i < it.index() ==> (#[trigger] shaped@[i])@ == received_row(
                        self.fields(),
                        rows@[i]@,
                    ),
        {
            assert(row == rows@[it.index() as int]);
            let one = self.received(row);
            shaped.push(one);
        }
        shaped
    }

    /// A page of rows as generic records, shaped for the caller. The page
    /// information is passed on as it came.
    pub fn rows(&self, response: RowsResponse) -> (shaped: RowsResponse)
        ensures
            shaped.count == response.count,
            shaped.next == response.next,
            shaped.previous == response.previous,
            shaped.results@.len() == response.results@.len(),
            forall|i: int|
                0 <= i < response.results@.len() ==> (#[trigger] shaped.results@[i])@
                    == received_row(self.fields(), response.results@[i]@),
    {
        let RowsResponse { count, next, previous, results } = response;
        RowsResponse { count, next, previous, results: self.received_all(results) }
    }

    /// The JSON objects of the rows of a page: one for each row, shaped for
    /// the caller, in their order.
    pub fn row_values(&self, rows: Vec<Record>) -> (values: Vec<Value>)
        ensures
            values@ == row_objects(self.fields(), records_view(rows@)),
    {
        let ghost all = row_objects(self.fields(), records_view(rows@));
        let mut values: Vec<Value> = Vec::new();
        for row in it: rows
            invariant
                it.seq() == rows@,
                all == row_objects(self.fields(), records_view(rows@)),
                values@ == all.take(it.index() as int),
        {
            assert(row == rows@[it.index() as int]);
            let one = self.received(row).into_value();
            values.push(one);
            assert(values@ =~= all.take(it.index() + 1));
        }
        assert(all.take(rows@.len() as int) =~= all);
        values
    }

    /// How the rows of a page are to be read as typed values. The choice is
    /// made once for the page: on a mapped handle every row is read on its
    /// own, from its object with field names as keys; on an unmapped handle
    /// the rows are read together, from the array of their objects as they
    /// came.
    pub fn typed_read(&self, rows: Vec<Record>) -> (read: TypedRead)
        ensures
            read.reads(self.fields(), records_view(rows@)),
    {
        let values = self.row_values(rows);
        if self.mapper.is_some() {
            TypedRead::EachRow(values)
        } else {
            TypedRead::WholePage(array_value(values))
        }
    }

    fn client(&self) -> (baserow: &Baserow)
        requires
            self.baserow is Some,
        ensures
            *baserow == self.baserow->0,
    {
        self.baserow.as_ref().unwrap()
    }

    fn row_request(
        &self,
        method: Method,
        url: String,
        user_field_names: Option<bool>,
    ) -> (sent: HttpRequest)
        requires
            self.baserow is Some,
        ensures
            sent.describes(
                method,
                url@,
                names_flag(self.fields(), user_field_names),
                authorization_of(self.baserow->0.configuration),
            ),
    {
        let mut query: Vec<(String, String)> = Vec::new();
        assert(params_view(query@) =~= Params::empty());
        if self.mapper.is_none() {
            push_flag(&mut query, "user_field_names", user_field_names);
            assert(params_view(query@) =~= flag_param("user_field_names"@, user_field_names));
        }
        HttpRequest { method, url, query, authorization: self.client().authorization() }
    }

    /// The request that creates a row, with the row as it is sent. The flag
    /// is passed on to the service only where the handle carries no registry.
    /// The handle must refer to a client and name a table.
    pub fn create_one_request(&self, data: Record, user_field_names: Option<bool>) -> (sent: (
        HttpRequest,
        Record,
    ))
        requires
            self.baserow is Some,
            self.id is Some,
        ensures
            sent.0.describes(
                Method::Post,
                rows_url(self.baserow->0.configuration.base_url@, self.id->0),
                names_flag(self.fields(), user_field_names),
                authorization_of(self.baserow->0.configuration),
            ),
            sent.1@ == sent_row(self.fields(), data@),
    {
        let base = self.client().configuration.base_url.as_str();
        let url = table_url(base, "/api/database/rows/table/", self.id.unwrap());
        let body = match &self.mapper {
            Some(mapper) => mapper.convert_to_field_ids(data),
            None => data,
        };
        (self.row_request(Method::Post, url, user_field_names), body)
    }

    /// The row that a create returns to the caller, from the row of the
    /// response: shaped as every row of a response is.
    pub fn create_one_response(&self, row: Record) -> (shaped: Record)
        ensures
            shaped@ == received_row(self.fields(), row@),
    {
        self.received(row)
    }

    /// The request that fetches the row `id`. The flag is passed on to the
    /// service only where the handle carries no registry. The handle must
    /// refer to a client and name a table.
    pub fn get_one_request(&self, id: u64, user_field_names: Option<bool>) -> (sent: HttpRequest)
        requires
            self.baserow is Some,
            self.id is Some,
        ensures
            sent.describes(
                Method::Get,
                row_url(self.baserow->0.configuration.base_url@, self.id->0, id),
                names_flag(self.fields(), user_field_names),
                authorization_of(self.baserow->0.configuration),
            ),
    {
        let base = self.client().configuration.base_url.as_str();
        let url = one_row_url(base, self.id.unwrap(), id);
        self.row_request(Method::Get, url, user_field_names)
    }

    /// One fetched row as a generic record, shaped for the caller.
    pub fn get_one(&self, row: Record) -> (shaped: Record)
        ensures
            shaped@ == received_row(self.fields(), row@),
    {
        self.received(row)
    }

    /// The JSON object from which one fetched row is read as a type of the
    /// caller's own: the row with field names as keys. Typed access needs the
    /// registry: on an unmapped handle the call is refused, whatever the row
    /// holds.
    pub fn get_one_value(&self, row: Record) -> (outcome: Result<Value, TableError>)
        ensures
            match self.fields() {
                Some(fields) => outcome == Ok::<Value, TableError>(
                    json_object(rekeyed(row@, to_names(fields))),
                ),
                None => outcome == Err::<Value, TableError>(TableError::MissingMapper),
            },
    {
        match &self.mapper {
            Some(mapper) => Ok(mapper.row_value(row)),
            None => Err(TableError::MissingMapper),
        }
    }

    /// The request that updates the row `id`, with the changes as they are
    /// sent. The flag is passed on to the service only where the handle
    /// carries no registry. The handle must refer to a client and name a
    /// table.
    pub fn update_request(&self, id: u64, data: Record, user_field_names: Option<bool>) -> (sent:
        (HttpRequest, Record))
        requires
            self.baserow is Some,
            self.id is Some,
        ensures
            sent.0.describes(
                Method::Patch,
                row_url(self.baserow->0.configuration.base_url@, self.id->0, id),
                names_flag(self.fields(), user_field_names),
                authorization_of(self.baserow->0.configuration),
            ),
            sent.1@ == sent_row(self.fields(), data@),
    {
        let base = self.client().configuration.base_url.as_str();
        let url = one_row_url(base, self.id.unwrap(), id);
        let body = match &self.mapper {
            Some(mapper) => mapper.convert_to_field_ids(data),
            None => data,
        };
        (self.row_request(Method::Patch, url, user_field_names), body)
    }

    /// The row that an update returns to the caller, from the row of the
    /// response: shaped as every row of a response is.
    pub fn update_response(&self, row: Record) -> (shaped: Record)
        ensures
            shaped@ == received_row(self.fields(), row@),
    {
        self.received(row)
    }

    /// The request that deletes the row `id`. The handle must refer to a
    /// client and name a table.
    pub fn delete_request(&self, id: u64) -> (sent: HttpRequest)
        requires
            self.baserow is Some,
            self.id is Some,
        ensures
            sent.describes(
                Method::Delete,
                row_url(self.baserow->0.configuration.base_url@, self.id->0, id),
                Params::empty(),
                authorization_of(self.baserow->0.configuration),
            ),
    {
        let base = self.client().configuration.base_url.as_str();
        let url = one_row_url(base, self.id.unwrap(), id);
        self.row_request(Method::Delete, url, None)
    }
}

} // verus!
