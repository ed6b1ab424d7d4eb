//! Row queries: their parameters, the builder that sets them, and the query
//! parameters they are sent as.

use crate::api::client::{authorization_of, HttpRequest, Method, Params};
use crate::api::table_operations::{records_view, rows_url, TypedRead};
use crate::error::TableError;
use crate::filter::{Filter, FilterTriple};
use crate::mapper::{field_key, id_key, id_of};
use crate::record::Record;
use crate::text::signed_decimal;
use crate::{Baserow, BaserowTable, OrderDirection, TableField};
use vstd::prelude::*;
use vstd::string::StringExecFns;

verus! {

/// The parameters of a row query. Nothing is checked when they are set; the
/// page size and number are checked when the request is described.
#[derive(Debug, Clone)]
pub struct RowRequest {
    /// The view whose filters and sorts the query starts from.
    pub view_id: Option<i32>,
    /// The fields to sort by, each with its direction, in the order given.
    /// A vector, as the keys are text; `RowRequestBuilder::order_by` keeps
    /// every field in it once.
    pub order: Option<Vec<(String, OrderDirection)>>,
    /// The filters, in the order given.
    pub filter: Option<Vec<FilterTriple>>,
    /// The number of rows per page.
    pub page_size: Option<i32>,
    /// The number of the page, counted from 1.
    pub page: Option<i32>,
    /// The number of rows to skip, for callers that page by offset.
    pub offset: Option<i32>,
    /// Whether the service is asked to key rows by field names.
    pub user_field_names: Option<bool>,
}

/// The parameters of a row query as mathematics.
pub struct RowRequestView {
    pub view_id: Option<i32>,
    pub order: Option<Seq<(Seq<char>, OrderDirection)>>,
    pub filter: Option<Seq<(Seq<char>, Filter, Seq<char>)>>,
    pub page_size: Option<i32>,
    pub page: Option<i32>,
    pub offset: Option<i32>,
    pub user_field_names: Option<bool>,
}

/// The mathematical sort entries of a vector of owned ones.
pub open spec fn order_view(order: Seq<(String, OrderDirection)>) -> Seq<
    (Seq<char>, OrderDirection),
> {
    order.map_values(|e: (String, OrderDirection)| (e.0@, e.1))
}

/// The mathematical filters of a vector of owned ones.
pub open spec fn filter_view(filter: Seq<FilterTriple>) -> Seq<(Seq<char>, Filter, Seq<char>)> {
    filter.map_values(|t: FilterTriple| (t.field@, t.filter, t.value@))
}

impl View for RowRequest {
    type V = RowRequestView;

    open spec fn view(&self) -> RowRequestView {
        RowRequestView {
            view_id: self.view_id,
            order: match self.order {
                Some(order) => Some(order_view(order@)),
                None => None,
            },
            filter: match self.filter {
                Some(filter) => Some(filter_view(filter@)),
                None => None,
            },
            page_size: self.page_size,
            page: self.page,
            offset: self.offset,
            user_field_names: self.user_field_names,
        }
    }
}

/// The parameters that a query starts with: the first page of 100 rows, and
/// nothing else set.
pub open spec fn default_request() -> RowRequestView {
    RowRequestView {
        view_id: None,
        order: None,
        filter: None,
        page_size: Some(100i32),
        page: Some(1i32),
        offset: None,
        user_field_names: None,
    }
}

impl Default for RowRequest {
    fn default() -> (request: Self)
        ensures
            request@ == default_request(),
    {
        RowRequest {
            view_id: None,
            order: None,
            filter: None,
            page_size: Some(100),
            page: Some(1),
            offset: None,
            user_field_names: None,
        }
    }
}

/// The token that stands for a field in a query: with a registry, the key of
/// the field registered under that name, where there is one; else the text
/// as the caller wrote it.
pub open spec fn field_token(fields: Option<Seq<TableField>>, field: Seq<char>) -> Seq<char> {
    match fields {
        Some(fields) => id_key(fields, field),
        None => field,
    }
}

/// The part of the `order_by` value for one sort entry: the field's token,
/// after a `-` where the direction is descending.
pub open spec fn order_token(
    fields: Option<Seq<TableField>>,
    entry: (Seq<char>, OrderDirection),
) -> Seq<char> {
    if entry.1 == OrderDirection::Desc {
        "-"@ + field_token(fields, entry.0)
    } else {
        field_token(fields, entry.0)
    }
}

/// The `order_by` value: the parts of the sort entries, one after the other.
pub open spec fn order_text(
    fields: Option<Seq<TableField>>,
    order: Seq<(Seq<char>, OrderDirection)>,
) -> Seq<char>
    decreases order.len(),
{
    if order.len() == 0 {
        Seq::empty()
    } else {
        order_text(fields, order.drop_last()) + order_token(fields, order.last())
    }
}

/// The query parameter of one filter: `filter__<field>__<operator>` with the
/// filter's value.
pub open spec fn filter_param(
    fields: Option<Seq<TableField>>,
    filter: (Seq<char>, Filter, Seq<char>),
) -> (Seq<char>, Seq<char>) {
    ("filter__"@ + field_token(fields, filter.0) + "__"@ + filter.1.token(), filter.2)
}

/// The query parameters of the filters, one for each, in their order.
pub open spec fn filter_params(
    fields: Option<Seq<TableField>>,
    filter: Seq<(Seq<char>, Filter, Seq<char>)>,
) -> Params {
    filter.map_values(|t: (Seq<char>, Filter, Seq<char>)| filter_param(fields, t))
}

/// The parameter `key` with the numeral of `value`, where there is a value.
pub open spec fn number_param(key: Seq<char>, value: Option<i32>) -> Params {
    match value {
        Some(n) => seq![(key, signed_decimal(n as int))],
        None => Seq::empty(),
    }
}

/// The parameter `key` with `true` or `false`, where there is a value.
pub open spec fn flag_param(key: Seq<char>, value: Option<bool>) -> Params {
    match value {
        Some(flag) => seq![(key, if flag { "true"@ } else { "false"@ })],
        None => Seq::empty(),
    }
}

/// The query parameters of a row query, in the order in which they are sent:
/// the view, the sort, the filters, the page size, the page number, the
/// offset and the flag that asks for field names, each only where it is set.
pub open spec fn query_of(fields: Option<Seq<TableField>>, request: RowRequestView) -> Params {
    number_param("view_id"@, request.view_id) + (match request.order {
        Some(order) => seq![("order_by"@, order_text(fields, order))],
        None => Seq::empty(),
    }) + (match request.filter {
        Some(filter) => filter_params(fields, filter),
        None => Seq::empty(),
    }) + number_param("size"@, request.page_size) + number_param("page"@, request.page)
        + number_param("offset"@, request.offset) + flag_param(
        "user_field_names"@,
        request.user_field_names,
    )
}

/// Why a query is refused before anything is sent: a page size that is not
/// positive, or else a page number that is not positive.
pub open spec fn refusal_of(request: RowRequestView) -> Option<TableError> {
    if request.page_size is Some && request.page_size->0 <= 0 {
        Some(TableError::InvalidPageSize)
    } else if request.page is Some && request.page->0 <= 0 {
        Some(TableError::InvalidPageNumber)
    } else {
        None
    }
}

impl RowRequest {
    /// Why the query is refused before anything is sent, if it is.
    pub fn refusal(&self) -> (refused: Option<TableError>)
        ensures
            refused == refusal_of(self@),
    {
        if let Some(size) = self.page_size {
            if size <= 0 {
                return Some(TableError::InvalidPageSize);
            }
        }
        if let Some(page) = self.page {
            if page <= 0 {
                return Some(TableError::InvalidPageNumber);
            }
        }
        None
    }
}

/// Whether some sort entry is for `field`.
pub open spec fn sorts_by(order: Seq<(Seq<char>, OrderDirection)>, field: Seq<char>) -> bool {
    exists|i: int| 0 <= i < order.len() && (#[trigger] order[i]).0 == field
}

/// The position of the first sort entry for `field`, where there is one.
pub open spec fn first_sort(order: Seq<(Seq<char>, OrderDirection)>, field: Seq<char>) -> int {
    choose|i: int|
        0 <= i < order.len() && (#[trigger] order[i]).0 == field && forall|j: int|
            0 <= j < i ==> (#[trigger] order[j]).0 != field
}

/// The sort entries after asking to sort by `field` in `direction`: the first
/// entry for that field takes the new direction and keeps its place; where
/// there is none, a new entry is added at the end.
pub open spec fn order_set(
    order: Seq<(Seq<char>, OrderDirection)>,
    field: Seq<char>,
    direction: OrderDirection,
) -> Seq<(Seq<char>, OrderDirection)> {
    if sorts_by(order, field) {
        order.update(first_sort(order, field), (field, direction))
    } else {
        order.push((field, direction))
    }
}

/// Whether no field is sorted by twice.
pub open spec fn sorts_once(order: Seq<(Seq<char>, OrderDirection)>) -> bool {
    forall|i: int, j: int|
        0 <= i < j < order.len() ==> (#[trigger] order[i]).0 != (#[trigger] order[j]).0
}

/// Asking to sort by a field never makes a field occur twice among the sort
/// entries, and leaves the field with the direction asked for.
pub proof fn law_order_set_sorts_once(
    order: Seq<(Seq<char>, OrderDirection)>,
    field: Seq<char>,
    direction: OrderDirection,
)
    requires
        sorts_once(order),
    ensures
        sorts_once(order_set(order, field, direction)),
        exists|i: int|
            0 <= i < order_set(order, field, direction).len() && #[trigger] order_set(
                order,
                field,
                direction,
            )[i] == (field, direction),
{
    let after = order_set(order, field, direction);
    if sorts_by(order, field) {
        let witness = choose|i: int| 0 <= i < order.len() && (#[trigger] order[i]).0 == field;
        assert forall|j: int| 0 <= j < witness implies (#[trigger] order[j]).0 != field by {
            assert(order[j].0 != order[witness].0);
        }
        let at = first_sort(order, field);
        assert(after[at] == (field, direction));
        assert forall|i: int, j: int| 0 <= i < j < after.len() implies (#[trigger] after[i]).0 != (
        #[trigger] after[j]).0 by {
            assert(order[i].0 != order[j].0);
        }
    } else {
        assert(after[order.len() as int] == (field, direction));
        assert forall|i: int, j: int| 0 <= i < j < after.len() implies (#[trigger] after[i]).0 != (
        #[trigger] after[j]).0 by {
            if j < order.len() {
                assert(order[i].0 != order[j].0);
            } else {
                assert(order[i].0 != field);
            }
        }
    }
}

/// The sort entries of a request, none counting as an empty list.
pub open spec fn order_or_empty(order: Option<Seq<(Seq<char>, OrderDirection)>>) -> Seq<
    (Seq<char>, OrderDirection),
> {
    match order {
        Some(order) => order,
        None => Seq::empty(),
    }
}

/// The filters of a request, none counting as an empty list.
pub open spec fn filter_or_empty(filter: Option<Seq<(Seq<char>, Filter, Seq<char>)>>) -> Seq<
    (Seq<char>, Filter, Seq<char>),
> {
    match filter {
        Some(filter) => filter,
        None => Seq::empty(),
    }
}

/// Builds a row query step by step. Every step returns the builder with one
/// parameter set; nothing is checked before the request is described.
#[derive(Debug)]
pub struct RowRequestBuilder {
    /// The client that the request is described from.
    pub baserow: Option<Baserow>,
    /// The table that is queried.
    pub table: Option<BaserowTable>,
    /// The parameters set so far.
    pub request: RowRequest,
}

impl RowRequestBuilder {
    /// Whether the table that is queried carries a registry.
    pub open spec fn is_mapped(&self) -> bool {
        self.table is Some && self.table->0.mapper is Some
    }

    /// A builder with the default parameters, for no table yet.
    pub fn new() -> (builder: Self)
        ensures
            builder.baserow is None,
            builder.table is None,
            builder.request@ == default_request(),
    {
        RowRequestBuilder { baserow: None, table: None, request: RowRequest::default() }
    }

    /// Starts the query from the view `id`.
    pub fn view(self, id: i32) -> (builder: Self)
        ensures
            builder.baserow == self.baserow,
            builder.table == self.table,
            builder.request@ == (RowRequestView { view_id: Some(id), ..self.request@ }),
    {
        let mut builder = self;
        builder.request.view_id = Some(id);
        builder
    }

    /// Sets the number of rows per page.
    pub fn size(self, size: i32) -> (builder: Self)
        ensures
            builder.baserow == self.baserow,
            builder.table == self.table,
            builder.request@ == (RowRequestView { page_size: Some(size), ..self.request@ }),
    {
        let mut builder = self;
        builder.request.page_size = Some(size);
        builder
    }

    /// Sets the number of rows per page.
    pub fn page_size(self, size: i32) -> (builder: Self)
        ensures
            builder.baserow == self.baserow,
            builder.table == self.table,
            builder.request@ == (RowRequestView { page_size: Some(size), ..self.request@ }),
    {
        self.size(size)
    }

    /// Sets the number of the page.
    pub fn page(self, page: i32) -> (builder: Self)
        ensures
            builder.baserow == self.baserow,
            builder.table == self.table,
            builder.request@ == (RowRequestView { page: Some(page), ..self.request@ }),
    {
        let mut builder = self;
        builder.request.page = Some(page);
        builder
    }

    /// Sets the number of rows to skip.
    pub fn offset(self, offset: i32) -> (builder: Self)
        ensures
            builder.baserow == self.baserow,
            builder.table == self.table,
            builder.request@ == (RowRequestView { offset: Some(offset), ..self.request@ }),
    {
        let mut builder = self;
        builder.request.offset = Some(offset);
        builder
    }

    /// Asks the service to key rows by field names, or not to. Where the
    /// table carries a registry the call changes nothing: names are then
    /// translated on this side, and the service is not asked.
    pub fn user_field_names(self, enabled: bool) -> (builder: Self)
        ensures
            builder.baserow == self.baserow,
            builder.table == self.table,
            self.is_mapped() ==> builder.request == self.request,
            !self.is_mapped() ==> builder.request@ == (RowRequestView {
                user_field_names: Some(enabled),
                ..self.request@
            }),
    {
        let unmapped = match &self.table {
            Some(table) => table.mapper.is_none(),
            None => true,
        };
        let mut builder = self;
        if unmapped {
            builder.request.user_field_names = Some(enabled);
        }
        builder
    }

    /// Sets the table that is queried.
    pub fn with_table(self, table: BaserowTable) -> (builder: Self)
        ensures
            builder.baserow == self.baserow,
            builder.table == Some(table),
            builder.request == self.request,
    {
        let mut builder = self;
        builder.table = Some(table);
        builder
    }

    /// Sets the client that the request is described from.
    pub fn with_baserow(self, baserow: Baserow) -> (builder: Self)
        ensures
            builder.baserow == Some(baserow),
            builder.table == self.table,
            builder.request == self.request,
    {
        let mut builder = self;
        builder.baserow = Some(baserow);
        builder
    }

    /// Sorts by `field` in `direction`. A field that is sorted by already
    /// takes the new direction and keeps its place among the sort entries.
    pub fn order_by(self, field: &str, direction: OrderDirection) -> (builder: Self)
        ensures
            builder.baserow == self.baserow,
            builder.table == self.table,
            builder.request@ == (RowRequestView {
                order: Some(order_set(order_or_empty(self.request@.order), field@, direction)),
                ..self.request@
            }),
    {
        let RowRequestBuilder { baserow, table, request } = self;
        let RowRequest { view_id, order, filter, page_size, page, offset, user_field_names } =
            request;
        let mut order = match order {
            Some(order) => order,
            None => Vec::new(),
        };
        let ghost before = order_view(order@);
        assert(before =~= order_or_empty(self.request@.order));
        let mut i: usize = 0;
        let mut found: Option<usize> = None;
        while i < order.len() && found.is_none()
            invariant
                i <= order.len(),
                before == order_view(order@),
                found is None ==> forall|j: int| 0 <= j < i ==> (#[trigger] before[j]).0 != field@,
                found matches Some(at) ==> at < order.len() && before[at as int].0 == field@
                    && forall|j: int| 0 <= j < at ==> (#[trigger] before[j]).0 != field@,
            decreases order.len() - i + (if found is None { 1int } else { 0int }),
        {
            if order[i].0.as_str().eq(field) {
                found = Some(i);
            } else {
                i += 1;
            }
        }
        order.push((String::from_str(field), direction));
        match found {
            Some(at) => {
                let _ = order.swap_remove(at);
                proof {
                    assert(sorts_by(before, field@));
                    let first = first_sort(before, field@);
                    assert(first == at) by {
                        if first < at {
                            assert(before[first].0 != field@);
                        } else if at < first {
                            assert(before[at as int].0 == field@);
                        }
                    }
                    assert(order_view(order@) =~= order_set(before, field@, direction));
                }
            },
            None => {
                proof {
                    assert(!sorts_by(before, field@));
                    assert(order_view(order@) =~= order_set(before, field@, direction));
                }
            },
        }
        RowRequestBuilder {
            baserow,
            table,
            request: RowRequest {
                view_id,
                order: Some(order),
                filter,
                page_size,
                page,
                offset,
                user_field_names,
            },
        }
    }

    /// Adds the filter that compares `field` with `value` by `filter_op`,
    /// after the filters added before.
    pub fn filter_by(self, field: &str, filter_op: Filter, value: &str) -> (builder: Self)
        ensures
            builder.baserow == self.baserow,
            builder.table == self.table,
            builder.request@ == (RowRequestView {
                filter: Some(
                    filter_or_empty(self.request@.filter).push((field@, filter_op, value@)),
                ),
                ..self.request@
            }),
    {
        let RowRequestBuilder { baserow, table, request } = self;
        let RowRequest { view_id, order, filter, page_size, page, offset, user_field_names } =
            request;
        let mut filter = match filter {
            Some(filter) => filter,
            None => Vec::new(),
        };
        let ghost before = filter_view(filter@);
        assert(before =~= filter_or_empty(self.request@.filter));
        filter.push(
            FilterTriple {
                field: String::from_str(field),
                filter: filter_op,
                value: String::from_str(value),
            },
        );
        assert(filter_view(filter@) =~= before.push((field@, filter_op, value@)));
        RowRequestBuilder {
            baserow,
            table,
            request: RowRequest {
                view_id,
                order,
                filter: Some(filter),
                page_size,
                page,
                offset,
                user_field_names,
            },
        }
    }

    /// The request of the query that was built. The builder must have a
    /// client and a table, and for a query that is not refused the table must
    /// be named; see `BaserowTable::rows_request` for what is refused.
    pub fn get(&self) -> (outcome: Result<HttpRequest, TableError>)
        requires
            self.baserow is Some,
            self.table is Some,
            refusal_of(self.request@) is None ==> self.table->0.id is Some,
        ensures
            refusal_of(self.request@) is Some ==> outcome == Err::<HttpRequest, TableError>(
                refusal_of(self.request@)->0,
            ),
            refusal_of(self.request@) is None ==> outcome is Ok && outcome->Ok_0.describes(
                Method::Get,
                rows_url(self.baserow->0.configuration.base_url@, self.table->0.id->0),
                query_of(self.table->0.fields(), self.request@),
                authorization_of(self.baserow->0.configuration),
            ),
    {
        self.table.as_ref().unwrap().rows_request(self.baserow.as_ref().unwrap(), &self.request)
    }

    /// How the rows of the query's page are to be read as typed values; see
    /// `BaserowTable::typed_read`. The builder must have a table.
    pub fn get_typed(&self, rows: Vec<Record>) -> (read: TypedRead)
        requires
            self.table is Some,
        ensures
            read.reads(self.table->0.fields(), records_view(rows@)),
    {
        self.table.as_ref().unwrap().typed_read(rows)
    }
}

/// A query whose flag for field names is not set sends no parameter
/// `user_field_names`, whatever else it sends. Together with
/// `RowRequestBuilder::user_field_names`, which leaves the request of a
/// mapped table as it is, this keeps the parameter out of every query that
/// was started on a mapped table.
pub proof fn law_names_flag_absent(fields: Option<Seq<TableField>>, request: RowRequestView)
    requires
        request.user_field_names is None,
    ensures
        forall|i: int|
            0 <= i < query_of(fields, request).len() ==> (#[trigger] query_of(fields, request)[i]).0
                != "user_field_names"@,
{
    reveal_strlit("user_field_names");
    reveal_strlit("view_id");
    reveal_strlit("order_by");
    reveal_strlit("filter__");
    reveal_strlit("size");
    reveal_strlit("page");
    reveal_strlit("offset");
    let query = query_of(fields, request);
    let name = "user_field_names"@;
    assert forall|i: int| 0 <= i < query.len() implies (#[trigger] query[i]).0 != name by {
        let key = query[i].0;
        let view_part = number_param("view_id"@, request.view_id);
        let order_part: Params = match request.order {
            Some(order) => seq![("order_by"@, order_text(fields, order))],
            None => Seq::empty(),
        };
        let filter_part: Params = match request.filter {
            Some(filter) => filter_params(fields, filter),
            None => Seq::empty(),
        };
        let size_part = number_param("size"@, request.page_size);
        let page_part = number_param("page"@, request.page);
        let offset_part = number_param("offset"@, request.offset);
        assert(query =~= view_part + order_part + filter_part + size_part + page_part
            + offset_part);
        let a = view_part.len();
        let b = a + order_part.len();
        let c = b + filter_part.len();
        let d = c + size_part.len();
        let e = d + page_part.len();
        if i < a {
            assert(key == "view_id"@);
            assert(key[0] != name[0]);
        } else if i < b {
            assert(key == "order_by"@);
            assert(key[0] != name[0]);
        } else if i < c {
            let filter = request.filter->0[i - b];
            assert(key == filter_param(fields, filter).0);
            assert(key[0] == "filter__"@[0]);
            assert(key[0] != name[0]);
        } else if i < d {
            assert(key == "size"@);
            assert(key[0] != name[0]);
        } else if i < e {
            assert(key == "page"@);
            assert(key[0] != name[0]);
        } else {
            assert(key == "offset"@);
            assert(key[0] != name[0]);
        }
    }
}

/// A filter on a field that the registry knows by name is sent under the
/// field's key: `filter__field_<id>__<operator>`, with the value as given.
pub proof fn law_filter_names_field_key(
    fields: Seq<TableField>,
    field: Seq<char>,
    operator: Filter,
    value: Seq<char>,
)
    requires
        id_of(fields, field) is Some,
    ensures
        filter_param(Some(fields), (field, operator, value)) == (
            "filter__"@ + field_key(id_of(fields, field)->0) + "__"@ + operator.token(),
            value,
        ),
{
}

} // verus!
